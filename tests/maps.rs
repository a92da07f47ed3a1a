use vapoursynth::map::{is_key_valid, MapError, OwnedMap, ValueType};

#[test]
fn maps() {
    let mut map = OwnedMap::new();

    assert_eq!(map.key_count(), 0);

    assert_eq!(map.set_int("i", 42), Ok(()));
    assert_eq!(map.get_int("i"), Ok(42));
    assert_eq!(map.append_int("i", 43), Ok(()));
    assert_eq!(map.get_int("i"), Ok(42));
    assert_eq!(map.get_int_at("i", 0), Ok(42));
    assert_eq!(map.get_int_at("i", 1), Ok(43));
    assert_eq!(map.get_int_at("i", 2), Err(MapError::IndexOutOfBounds));

    assert_eq!(map.set_int("i", 42), Ok(()));
    assert_eq!(map.get_int("i"), Ok(42));
    assert_eq!(map.append_int("i", 43), Ok(()));
    assert_eq!(map.get_int("i"), Ok(42));
    assert_eq!(map.get_int_at("i", 0), Ok(42));
    assert_eq!(map.get_int_at("i", 1), Ok(43));
    assert_eq!(map.get_int_at("i", 2), Err(MapError::IndexOutOfBounds));

    assert_eq!(map.get_int_array("i"), Ok(&[42, 43][..]));

    assert_eq!(map.set_int_array("ia", &[10, 20, 30]), Ok(()));
    assert_eq!(map.get_int_array("ia"), Ok(&[10, 20, 30][..]));

    assert_eq!(map.set_float_bits("f", 42f64.to_bits()), Ok(()));
    assert_eq!(map.get_float_bits("f").map(f64::from_bits), Ok(42f64));
    assert_eq!(map.append_float_bits("f", 43f64.to_bits()), Ok(()));
    assert_eq!(map.get_float_bits("f").map(f64::from_bits), Ok(42f64));
    assert_eq!(map.get_float_bits_at("f", 0).map(f64::from_bits), Ok(42f64));
    assert_eq!(map.get_float_bits_at("f", 1).map(f64::from_bits), Ok(43f64));
    assert_eq!(map.get_float_bits_at("f", 2), Err(MapError::IndexOutOfBounds));

    assert_eq!(map.set_float_bits("f", 42f64.to_bits()), Ok(()));
    assert_eq!(map.get_float_bits("f").map(f64::from_bits), Ok(42f64));
    assert_eq!(map.append_float_bits("f", 43f64.to_bits()), Ok(()));
    assert_eq!(map.get_float_bits("f").map(f64::from_bits), Ok(42f64));

    assert_eq!(
        map.get_float_bits_array("f"),
        Ok(&[42f64.to_bits(), 43f64.to_bits()][..])
    );

    let fa = [10f64.to_bits(), 20f64.to_bits(), 30f64.to_bits()];
    assert_eq!(map.set_float_bits_array("fa", &fa), Ok(()));
    assert_eq!(map.get_float_bits_array("fa"), Ok(&fa[..]));

    assert_eq!(map.set_data("d", &[1, 2, 3]), Ok(()));
    assert_eq!(map.get_data("d"), Ok(&[1, 2, 3][..]));
    assert_eq!(map.append_data("d", &[4, 5, 6]), Ok(()));
    assert_eq!(map.get_data("d"), Ok(&[1, 2, 3][..]));
    assert_eq!(map.get_data_at("d", 0), Ok(&[1, 2, 3][..]));
    assert_eq!(map.get_data_at("d", 1), Ok(&[4, 5, 6][..]));
    assert_eq!(map.get_data_at("d", 2), Err(MapError::IndexOutOfBounds));

    assert_eq!(map.set_data("d", &[1, 2, 3]), Ok(()));
    assert_eq!(map.get_data("d"), Ok(&[1, 2, 3][..]));
    assert_eq!(map.append_data("d", &[4, 5, 6]), Ok(()));
    assert_eq!(map.get_data("d"), Ok(&[1, 2, 3][..]));

    assert_eq!(map.delete_key("i"), Ok(()));
    assert_eq!(map.delete_key("i"), Err(MapError::KeyNotFound));

    assert_eq!(map.error(), None);
    map.set_error("hello there");
    assert_eq!(map.error(), Some("hello there"));
}

#[test]
fn set_then_get_every_type() {
    let mut map = OwnedMap::new();
    assert_eq!(map.set_int("a", -7), Ok(()));
    assert_eq!(map.set_float_bits("b", 1.5f64.to_bits()), Ok(()));
    assert_eq!(map.set_data("c", b"blob"), Ok(()));
    assert_eq!(map.set_node("n", 11), Ok(()));
    assert_eq!(map.set_frame("fr", 12), Ok(()));
    assert_eq!(map.set_function("fu", 13), Ok(()));
    assert_eq!(map.get_int("a"), Ok(-7));
    assert_eq!(map.get_float_bits("b").map(f64::from_bits), Ok(1.5));
    assert_eq!(map.get_data("c"), Ok(&b"blob"[..]));
    assert_eq!(map.get_node("n"), Ok(11));
    assert_eq!(map.get_frame("fr"), Ok(12));
    assert_eq!(map.get_function("fu"), Ok(13));
    assert_eq!(map.key_count(), 6);
    assert_eq!(map.value_type("fu"), Ok(ValueType::Function));
    assert_eq!(map.value_count("c"), Ok(1));
}

#[test]
fn replacing_write_overwrites_any_type() {
    let mut map = OwnedMap::new();
    assert_eq!(map.set_data("k", &[9]), Ok(()));
    assert_eq!(map.set_int("k", 5), Ok(()));
    assert_eq!(map.value_type("k"), Ok(ValueType::Int));
    assert_eq!(map.get_int_array("k"), Ok(&[5][..]));
    assert_eq!(map.key_count(), 1);
}

#[test]
fn append_keeps_first_value_and_adds_at_next_index() {
    let mut map = OwnedMap::new();
    assert_eq!(map.append_node("clip", 1), Ok(()));
    assert_eq!(map.append_node("clip", 2), Ok(()));
    assert_eq!(map.append_node("clip", 3), Ok(()));
    assert_eq!(map.get_node_at("clip", 0), Ok(1));
    assert_eq!(map.get_node_at("clip", 1), Ok(2));
    assert_eq!(map.get_node_at("clip", 2), Ok(3));
    assert_eq!(map.value_count("clip"), Ok(3));
    assert_eq!(map.append_frame("f", 4), Ok(()));
    assert_eq!(map.append_frame("f", 5), Ok(()));
    assert_eq!(map.get_frame_at("f", 1), Ok(5));
    assert_eq!(map.append_function("g", 6), Ok(()));
    assert_eq!(map.get_function_at("g", 0), Ok(6));
}

#[test]
fn wrong_accessor_is_wrong_value_type() {
    let mut map = OwnedMap::new();
    assert_eq!(map.set_data("blob", &[1, 2]), Ok(()));
    assert_eq!(map.get_int("blob"), Err(MapError::WrongValueType));
    assert_eq!(map.get_int_array("blob"), Err(MapError::WrongValueType));
    assert_eq!(map.get_float_bits("blob"), Err(MapError::WrongValueType));
    assert_eq!(map.get_node("blob"), Err(MapError::WrongValueType));
    assert_eq!(map.get_frame("blob"), Err(MapError::WrongValueType));
    assert_eq!(map.get_function("blob"), Err(MapError::WrongValueType));
    assert_eq!(map.set_node("n", 3), Ok(()));
    assert_eq!(map.get_frame("n"), Err(MapError::WrongValueType));
    assert_eq!(map.get_data("n"), Err(MapError::WrongValueType));
    assert_eq!(map.append_int("n", 1), Err(MapError::WrongValueType));
    assert_eq!(map.get_node_at("n", 0), Ok(3));
    assert_eq!(map.value_count("n"), Ok(1));
}

#[test]
fn missing_keys_and_deletion() {
    let mut map = OwnedMap::new();
    assert_eq!(map.delete_key("nothing"), Err(MapError::KeyNotFound));
    assert_eq!(map.get_int("nothing"), Err(MapError::KeyNotFound));
    assert_eq!(map.value_count("nothing"), Err(MapError::KeyNotFound));
    assert_eq!(map.value_type("nothing"), Err(MapError::KeyNotFound));
    assert_eq!(map.set_int("x", 1), Ok(()));
    assert_eq!(map.set_int("y", 2), Ok(()));
    assert_eq!(map.delete_key("x"), Ok(()));
    assert_eq!(map.get_int("x"), Err(MapError::KeyNotFound));
    assert_eq!(map.delete_key("x"), Err(MapError::KeyNotFound));
    assert_eq!(map.get_int("y"), Ok(2));
    assert_eq!(map.key_count(), 1);
    assert_eq!(map.key(0), "y");
}

#[test]
fn invalid_keys_are_refused() {
    let mut map = OwnedMap::new();
    assert_eq!(map.set_int("", 1), Err(MapError::InvalidKey));
    assert_eq!(map.set_int("1abc", 1), Err(MapError::InvalidKey));
    assert_eq!(map.set_int("a-b", 1), Err(MapError::InvalidKey));
    assert_eq!(map.append_int("a b", 1), Err(MapError::InvalidKey));
    assert_eq!(map.key_count(), 0);
    assert!(is_key_valid("_DurationNum"));
    assert!(is_key_valid("a1_B"));
    assert!(!is_key_valid("é"));
}

#[test]
fn error_state_clears_keys_and_a_write_clears_it() {
    let mut map = OwnedMap::new();
    assert_eq!(map.set_int("a", 1), Ok(()));
    map.set_error("failed");
    assert_eq!(map.key_count(), 0);
    assert_eq!(map.error(), Some("failed"));
    assert_eq!(map.set_int("a", 2), Ok(()));
    assert_eq!(map.error(), None);
    map.clear();
    assert_eq!(map.key_count(), 0);
}

#[test]
fn empty_array_keeps_its_type() {
    let mut map = OwnedMap::new();
    assert_eq!(map.set_int_array("e", &[]), Ok(()));
    assert_eq!(map.value_count("e"), Ok(0));
    assert_eq!(map.get_int("e"), Err(MapError::IndexOutOfBounds));
    assert_eq!(map.get_int_array("e"), Ok(&[][..]));
}
