//! Property maps: keys mapped to homogeneously typed, append-ordered sequences of values.
//!
//! A map also holds an optional error message. Floating-point values are held by their IEEE-754
//! bit patterns; nodes, frames and functions by their handle identifiers.

use vstd::prelude::*;

verus! {

/// The type of the values held under a key.
#[derive(Debug, Clone, Copy, PartialEq, Eq, Structural)]
pub enum ValueType {
    Int,
    Float,
    Data,
    Node,
    Frame,
    Function,
}

/// Errors of map accesses.
#[derive(Debug, Clone, Copy, PartialEq, Eq, Structural)]
pub enum MapError {
    /// The key is not in the map.
    KeyNotFound,
    /// The key is present, but has fewer values than the requested index.
    IndexOutOfBounds,
    /// The key holds values of another type.
    WrongValueType,
    /// The key is empty, does not start with a letter or an underscore, or holds a character
    /// other than ASCII letters, digits and underscores.
    InvalidKey,
}

/// One value of any type.
#[derive(Debug)]
pub enum Value {
    Int(i64),
    Float(u64),
    Data(Vec<u8>),
    Node(u64),
    Frame(u64),
    Function(u64),
}

/// The values under one key.
#[derive(Debug)]
pub enum Values {
    Ints(Vec<i64>),
    Floats(Vec<u64>),
    Data(Vec<Vec<u8>>),
    Nodes(Vec<u64>),
    Frames(Vec<u64>),
    Functions(Vec<u64>),
}

/// What one key holds, as mathematical sequences.
pub enum PropValues {
    Ints(Seq<i64>),
    Floats(Seq<u64>),
    Data(Seq<Seq<u8>>),
    Nodes(Seq<u64>),
    Frames(Seq<u64>),
    Functions(Seq<u64>),
}

/// What a map holds: its properties and its error message.
pub struct MapModel {
    pub props: Map<Seq<char>, PropValues>,
    pub error: Option<Seq<char>>,
}

impl View for Value {
    type V = PropValues;

    /// A single value, seen as a sequence of one.
    open spec fn view(&self) -> PropValues {
        match self {
            Value::Int(x) => PropValues::Ints(seq![*x]),
            Value::Float(x) => PropValues::Floats(seq![*x]),
            Value::Data(d) => PropValues::Data(seq![d@]),
            Value::Node(x) => PropValues::Nodes(seq![*x]),
            Value::Frame(x) => PropValues::Frames(seq![*x]),
            Value::Function(x) => PropValues::Functions(seq![*x]),
        }
    }
}

impl View for Values {
    type V = PropValues;

    open spec fn view(&self) -> PropValues {
        match self {
            Values::Ints(v) => PropValues::Ints(v@),
            Values::Floats(v) => PropValues::Floats(v@),
            Values::Data(v) => PropValues::Data(v@.map_values(|d: Vec<u8>| d@)),
            Values::Nodes(v) => PropValues::Nodes(v@),
            Values::Frames(v) => PropValues::Frames(v@),
            Values::Functions(v) => PropValues::Functions(v@),
        }
    }
}

/// The type of the values in a sequence.
pub open spec fn value_type_of(p: PropValues) -> ValueType {
    match p {
        PropValues::Ints(_) => ValueType::Int,
        PropValues::Floats(_) => ValueType::Float,
        PropValues::Data(_) => ValueType::Data,
        PropValues::Nodes(_) => ValueType::Node,
        PropValues::Frames(_) => ValueType::Frame,
        PropValues::Functions(_) => ValueType::Function,
    }
}

/// The number of values in a sequence.
pub open spec fn value_count_of(p: PropValues) -> nat {
    match p {
        PropValues::Ints(s) => s.len(),
        PropValues::Floats(s) => s.len(),
        PropValues::Data(s) => s.len(),
        PropValues::Nodes(s) => s.len(),
        PropValues::Frames(s) => s.len(),
        PropValues::Functions(s) => s.len(),
    }
}

/// `b` is `a` with `v` added at its end, where both hold the same type.
pub open spec fn appended(a: PropValues, v: PropValues) -> Option<PropValues> {
    match (a, v) {
        (PropValues::Ints(s), PropValues::Ints(t)) => Some(PropValues::Ints(s + t)),
        (PropValues::Floats(s), PropValues::Floats(t)) => Some(PropValues::Floats(s + t)),
        (PropValues::Data(s), PropValues::Data(t)) => Some(PropValues::Data(s + t)),
        (PropValues::Nodes(s), PropValues::Nodes(t)) => Some(PropValues::Nodes(s + t)),
        (PropValues::Frames(s), PropValues::Frames(t)) => Some(PropValues::Frames(s + t)),
        (PropValues::Functions(s), PropValues::Functions(t)) => Some(PropValues::Functions(s + t)),
        _ => None,
    }
}

/// ASCII letters and the underscore.
pub open spec fn is_key_start(c: char) -> bool {
    ('a' <= c && c <= 'z') || ('A' <= c && c <= 'Z') || c == '_'
}

/// ASCII letters, digits and the underscore.
pub open spec fn is_key_char(c: char) -> bool {
    is_key_start(c) || ('0' <= c && c <= '9')
}

/// A key is valid when it is not empty, starts with a letter or an underscore and holds only
/// ASCII letters, digits and underscores.
pub open spec fn valid_key(k: Seq<char>) -> bool {
    &&& k.len() > 0
    &&& is_key_start(k[0])
    &&& forall|i: int| 0 < i < k.len() ==> is_key_char(#[trigger] k[i])
}

/// The map after a replacing write of `p` under `k`: the error is cleared.
pub open spec fn after_set(m: MapModel, k: Seq<char>, p: PropValues) -> MapModel {
    MapModel { props: m.props.insert(k, p), error: None }
}

/// The result of an appending write of `v` under `k`.
pub open spec fn after_append(m: MapModel, k: Seq<char>, v: PropValues) -> Result<MapModel, MapError> {
    if !valid_key(k) {
        Err(MapError::InvalidKey)
    } else if !m.props.contains_key(k) {
        Ok(after_set(m, k, v))
    } else {
        match appended(m.props[k], v) {
            Some(p) => Ok(after_set(m, k, p)),
            None => Err(MapError::WrongValueType),
        }
    }
}

/// The result of deleting `k`.
pub open spec fn after_delete(m: MapModel, k: Seq<char>) -> Result<MapModel, MapError> {
    if m.props.contains_key(k) {
        Ok(MapModel { props: m.props.remove(k), error: m.error })
    } else {
        Err(MapError::KeyNotFound)
    }
}

/// The sequence under `k`, or why there is none.
pub open spec fn lookup(m: MapModel, k: Seq<char>) -> Result<PropValues, MapError> {
    if m.props.contains_key(k) {
        Ok(m.props[k])
    } else {
        Err(MapError::KeyNotFound)
    }
}

/// The integer at `i` under `k`.
pub open spec fn int_at(m: MapModel, k: Seq<char>, i: int) -> Result<i64, MapError> {
    match lookup(m, k) {
        Err(e) => Err(e),
        Ok(PropValues::Ints(s)) => if 0 <= i < s.len() {
            Ok(s[i])
        } else {
            Err(MapError::IndexOutOfBounds)
        },
        Ok(_) => Err(MapError::WrongValueType),
    }
}

/// The float bit pattern at `i` under `k`.
pub open spec fn float_at(m: MapModel, k: Seq<char>, i: int) -> Result<u64, MapError> {
    match lookup(m, k) {
        Err(e) => Err(e),
        Ok(PropValues::Floats(s)) => if 0 <= i < s.len() {
            Ok(s[i])
        } else {
            Err(MapError::IndexOutOfBounds)
        },
        Ok(_) => Err(MapError::WrongValueType),
    }
}

/// The blob at `i` under `k`.
pub open spec fn data_at(m: MapModel, k: Seq<char>, i: int) -> Result<Seq<u8>, MapError> {
    match lookup(m, k) {
        Err(e) => Err(e),
        Ok(PropValues::Data(s)) => if 0 <= i < s.len() {
            Ok(s[i])
        } else {
            Err(MapError::IndexOutOfBounds)
        },
        Ok(_) => Err(MapError::WrongValueType),
    }
}

/// The handle of type `t` (a node, a frame or a function) at `i` under `k`.
pub open spec fn handle_at(m: MapModel, k: Seq<char>, i: int, t: ValueType) -> Result<u64, MapError> {
    match lookup(m, k) {
        Err(e) => Err(e),
        Ok(p) => {
            let s = match p {
                PropValues::Nodes(s) => s,
                PropValues::Frames(s) => s,
                PropValues::Functions(s) => s,
                _ => Seq::empty(),
            };
            if value_type_of(p) != t {
                Err(MapError::WrongValueType)
            } else if 0 <= i < s.len() {
                Ok(s[i])
            } else {
                Err(MapError::IndexOutOfBounds)
            }
        },
    }
}

/// The whole integer sequence under `k`.
pub open spec fn int_array(m: MapModel, k: Seq<char>) -> Result<Seq<i64>, MapError> {
    match lookup(m, k) {
        Err(e) => Err(e),
        Ok(PropValues::Ints(s)) => Ok(s),
        Ok(_) => Err(MapError::WrongValueType),
    }
}

/// The whole float sequence under `k`.
pub open spec fn float_array(m: MapModel, k: Seq<char>) -> Result<Seq<u64>, MapError> {
    match lookup(m, k) {
        Err(e) => Err(e),
        Ok(PropValues::Floats(s)) => Ok(s),
        Ok(_) => Err(MapError::WrongValueType),
    }
}

/// Writing a sequence under a valid key and reading the key back gives that sequence, element by
/// element, for every type of value; a scalar write is the sequence of one.
pub proof fn law_set_then_get(m: MapModel, k: Seq<char>, ints: Seq<i64>, floats: Seq<u64>, data: Seq<Seq<u8>>, handles: Seq<u64>, i: int)
    requires
        valid_key(k),
    ensures
        lookup(after_set(m, k, PropValues::Ints(ints)), k) == Ok::<PropValues, MapError>(PropValues::Ints(ints)),
        int_array(after_set(m, k, PropValues::Ints(ints)), k) == Ok::<Seq<i64>, MapError>(ints),
        float_array(after_set(m, k, PropValues::Floats(floats)), k) == Ok::<Seq<u64>, MapError>(floats),
        0 <= i < ints.len() ==> int_at(after_set(m, k, PropValues::Ints(ints)), k, i) == Ok::<i64, MapError>(ints[i]),
        0 <= i < floats.len() ==> float_at(after_set(m, k, PropValues::Floats(floats)), k, i) == Ok::<u64, MapError>(floats[i]),
        0 <= i < data.len() ==> data_at(after_set(m, k, PropValues::Data(data)), k, i) == Ok::<Seq<u8>, MapError>(data[i]),
        0 <= i < handles.len() ==> handle_at(after_set(m, k, PropValues::Nodes(handles)), k, i, ValueType::Node) == Ok::<u64, MapError>(handles[i]),
        0 <= i < handles.len() ==> handle_at(after_set(m, k, PropValues::Frames(handles)), k, i, ValueType::Frame) == Ok::<u64, MapError>(handles[i]),
        0 <= i < handles.len() ==> handle_at(after_set(m, k, PropValues::Functions(handles)), k, i, ValueType::Function) == Ok::<u64, MapError>(handles[i]),
        after_set(m, k, PropValues::Ints(ints)).error is None,
{
}

/// Appending an integer to a key that holds integers keeps every earlier value at its index and
/// puts the new one at the next index.
pub proof fn law_append_int(m: MapModel, k: Seq<char>, x: i64, i: int)
    requires
        valid_key(k),
        int_array(m, k) is Ok,
    ensures
        after_append(m, k, PropValues::Ints(seq![x])) matches Ok(m2) && {
            let n = int_array(m, k)->Ok_0.len() as int;
            &&& 0 <= i < n ==> int_at(m2, k, i) == int_at(m, k, i)
            &&& int_at(m2, k, n) == Ok::<i64, MapError>(x)
            &&& int_array(m2, k) == Ok::<Seq<i64>, MapError>(int_array(m, k)->Ok_0.push(x))
        },
{
    let s = int_array(m, k)->Ok_0;
    assert(s + seq![x] =~= s.push(x));
}

/// Appending a float to a key that holds floats keeps every earlier value at its index and puts
/// the new one at the next index.
pub proof fn law_append_float(m: MapModel, k: Seq<char>, x: u64, i: int)
    requires
        valid_key(k),
        float_array(m, k) is Ok,
    ensures
        after_append(m, k, PropValues::Floats(seq![x])) matches Ok(m2) && {
            let n = float_array(m, k)->Ok_0.len() as int;
            &&& 0 <= i < n ==> float_at(m2, k, i) == float_at(m, k, i)
            &&& float_at(m2, k, n) == Ok::<u64, MapError>(x)
        },
{
    let s = float_array(m, k)->Ok_0;
    assert(s + seq![x] =~= s.push(x));
}

/// Appending a blob to a key that holds blobs keeps every earlier blob at its index and puts the
/// new one at the next index.
pub proof fn law_append_data(m: MapModel, k: Seq<char>, d: Seq<u8>, i: int)
    requires
        valid_key(k),
        lookup(m, k) matches Ok(PropValues::Data(_)),
    ensures
        after_append(m, k, PropValues::Data(seq![d])) matches Ok(m2) && {
            let n = value_count_of(m.props[k]) as int;
            &&& 0 <= i < n ==> data_at(m2, k, i) == data_at(m, k, i)
            &&& data_at(m2, k, n) == Ok::<Seq<u8>, MapError>(d)
        },
{
    if let PropValues::Data(s) = m.props[k] {
        assert(s + seq![d] =~= s.push(d));
    }
}

/// Appending to a key that does not exist creates it with the one value.
pub proof fn law_append_new_key(m: MapModel, k: Seq<char>, v: PropValues)
    requires
        valid_key(k),
        !m.props.contains_key(k),
    ensures
        after_append(m, k, v) == Ok::<MapModel, MapError>(after_set(m, k, v)),
{
}

/// Reading a key with the accessor of another type fails with `WrongValueType`, whatever the
/// index.
pub proof fn law_wrong_accessor(m: MapModel, k: Seq<char>, i: int, t: ValueType)
    requires
        m.props.contains_key(k),
    ensures
        value_type_of(m.props[k]) != ValueType::Int ==> int_at(m, k, i) == Err::<i64, MapError>(MapError::WrongValueType)
            && int_array(m, k) == Err::<Seq<i64>, MapError>(MapError::WrongValueType),
        value_type_of(m.props[k]) != ValueType::Float ==> float_at(m, k, i) == Err::<u64, MapError>(MapError::WrongValueType)
            && float_array(m, k) == Err::<Seq<u64>, MapError>(MapError::WrongValueType),
        value_type_of(m.props[k]) != ValueType::Data ==> data_at(m, k, i) == Err::<Seq<u8>, MapError>(MapError::WrongValueType),
        value_type_of(m.props[k]) != t ==> handle_at(m, k, i, t) == Err::<u64, MapError>(MapError::WrongValueType),
{
}

/// Deleting a key that is absent fails with `KeyNotFound`; after deleting a present key, reading
/// it, or deleting it again, fails with `KeyNotFound`, and the other keys are unchanged.
pub proof fn law_delete(m: MapModel, k: Seq<char>, other: Seq<char>)
    ensures
        !m.props.contains_key(k) ==> after_delete(m, k) == Err::<MapModel, MapError>(MapError::KeyNotFound),
        m.props.contains_key(k) ==> (after_delete(m, k) matches Ok(m2) && {
            &&& lookup(m2, k) == Err::<PropValues, MapError>(MapError::KeyNotFound)
            &&& after_delete(m2, k) == Err::<MapModel, MapError>(MapError::KeyNotFound)
            &&& other != k ==> lookup(m2, other) == lookup(m, other)
        }),
{
}

struct Entry {
    key: String,
    values: Values,
}

/// A property map that this crate owns.
pub struct OwnedMap {
    entries: Vec<Entry>,
    error: Option<String>,
}

spec fn keys_unique(entries: Seq<Entry>) -> bool {
    forall|i: int, j: int|
        0 <= i < entries.len() && 0 <= j < entries.len() && i != j ==> #[trigger] entries[i].key@
            != #[trigger] entries[j].key@
}

spec fn has_key(entries: Seq<Entry>, k: Seq<char>) -> bool {
    exists|i: int| 0 <= i < entries.len() && #[trigger] entries[i].key@ == k
}

spec fn index_of(entries: Seq<Entry>, k: Seq<char>) -> int {
    choose|i: int| 0 <= i < entries.len() && #[trigger] entries[i].key@ == k
}

spec fn entries_view(entries: Seq<Entry>) -> Map<Seq<char>, PropValues> {
    Map::new(|k: Seq<char>| has_key(entries, k), |k: Seq<char>| entries[index_of(entries, k)].values@)
}

proof fn lemma_index_of(entries: Seq<Entry>, i: int)
    requires
        keys_unique(entries),
        0 <= i < entries.len(),
    ensures
        has_key(entries, entries[i].key@),
        index_of(entries, entries[i].key@) == i,
        entries_view(entries).contains_key(entries[i].key@),
        entries_view(entries)[entries[i].key@] == entries[i].values@,
{
    assert(has_key(entries, entries[i].key@));
}

proof fn lemma_update(entries: Seq<Entry>, i: int, e: Entry)
    requires
        keys_unique(entries),
        0 <= i < entries.len(),
        e.key@ == entries[i].key@,
    ensures
        keys_unique(entries.update(i, e)),
        entries_view(entries.update(i, e)) == entries_view(entries).insert(e.key@, e.values@),
{
    let n = entries.update(i, e);
    assert forall|k: Seq<char>| has_key(n, k) == (has_key(entries, k) || k == e.key@) by {
        if has_key(n, k) {
            let j = index_of(n, k);
            if j != i {
                assert(entries[j].key@ == k);
            }
        }
        if has_key(entries, k) {
            let j = index_of(entries, k);
            assert(n[j].key@ == k);
        }
        if k == e.key@ {
            assert(n[i].key@ == k);
        }
    }
    assert forall|k: Seq<char>| #[trigger] has_key(n, k) && k != e.key@ implies n[index_of(n, k)].values@
        == entries[index_of(entries, k)].values@ by {
        let j = index_of(n, k);
        lemma_index_of(entries, j);
    }
    lemma_index_of(n, i);
    assert(entries_view(n) =~= entries_view(entries).insert(e.key@, e.values@));
}

proof fn lemma_push(entries: Seq<Entry>, e: Entry)
    requires
        keys_unique(entries),
        !has_key(entries, e.key@),
    ensures
        keys_unique(entries.push(e)),
        entries_view(entries.push(e)) == entries_view(entries).insert(e.key@, e.values@),
{
    let n = entries.push(e);
    assert forall|i: int, j: int|
        0 <= i < n.len() && 0 <= j < n.len() && i != j implies #[trigger] n[i].key@ != #[trigger] n[j].key@ by {
        if i == entries.len() as int {
            assert(entries[j].key@ == n[j].key@);
        } else if j == entries.len() as int {
            assert(entries[i].key@ == n[i].key@);
        }
    }
    assert forall|k: Seq<char>| has_key(n, k) == (has_key(entries, k) || k == e.key@) by {
        if has_key(n, k) {
            let j = index_of(n, k);
            if j != entries.len() as int {
                assert(entries[j].key@ == k);
            }
        }
        if has_key(entries, k) {
            let j = index_of(entries, k);
            assert(n[j].key@ == k);
        }
        if k == e.key@ {
            assert(n[entries.len() as int].key@ == k);
        }
    }
    assert forall|k: Seq<char>| #[trigger] has_key(n, k) && k != e.key@ implies n[index_of(n, k)].values@
        == entries[index_of(entries, k)].values@ by {
        let j = index_of(n, k);
        lemma_index_of(entries, j);
    }
    lemma_index_of(n, entries.len() as int);
    assert(entries_view(n) =~= entries_view(entries).insert(e.key@, e.values@));
}

proof fn lemma_remove(entries: Seq<Entry>, i: int)
    requires
        keys_unique(entries),
        0 <= i < entries.len(),
    ensures
        keys_unique(entries.remove(i)),
        entries_view(entries.remove(i)) == entries_view(entries).remove(entries[i].key@),
{
    let n = entries.remove(i);
    let k0 = entries[i].key@;
    assert forall|a: int, b: int|
        0 <= a < n.len() && 0 <= b < n.len() && a != b implies #[trigger] n[a].key@ != #[trigger] n[b].key@ by {
        let a2 = if a < i { a } else { a + 1 };
        let b2 = if b < i { b } else { b + 1 };
        assert(n[a] == entries[a2]);
        assert(n[b] == entries[b2]);
    }
    assert forall|k: Seq<char>| has_key(n, k) == (has_key(entries, k) && k != k0) by {
        if has_key(n, k) {
            let j = index_of(n, k);
            let j2 = if j < i { j } else { j + 1 };
            assert(entries[j2].key@ == k);
        }
        if has_key(entries, k) && k != k0 {
            let j = index_of(entries, k);
            let j2 = if j < i { j } else { j - 1 };
            assert(n[j2].key@ == k);
        }
    }
    assert forall|k: Seq<char>| #[trigger] has_key(n, k) implies n[index_of(n, k)].values@
        == entries[index_of(entries, k)].values@ by {
        let j = index_of(n, k);
        let j2 = if j < i { j } else { j + 1 };
        assert(n[j] == entries[j2]);
        lemma_index_of(entries, j2);
    }
    assert(entries_view(n) =~= entries_view(entries).remove(k0));
}

/// Whether `key` is a valid key.
pub fn is_key_valid(key: &str) -> (r: bool)
    ensures
        r == valid_key(key@),
{
    let n = key.unicode_len();
    if n == 0 {
        return false;
    }
    let first = key.get_char(0);
    if !(('a' <= first && first <= 'z') || ('A' <= first && first <= 'Z') || first == '_') {
        return false;
    }
    let mut i: usize = 1;
    while i < n
        invariant
            1 <= i <= n,
            n == key@.len(),
            is_key_start(key@[0]),
            forall|j: int| 0 < j < i ==> is_key_char(#[trigger] key@[j]),
        decreases n - i,
    {
        let c = key.get_char(i);
        if !(('a' <= c && c <= 'z') || ('A' <= c && c <= 'Z') || c == '_' || ('0' <= c && c <= '9')) {
            return false;
        }
        i = i + 1;
    }
    true
}


/// The type of a single value.
fn type_of_value(v: &Value) -> (r: ValueType)
    ensures
        r == value_type_of(v@),
{
    match v {
        Value::Int(_) => ValueType::Int,
        Value::Float(_) => ValueType::Float,
        Value::Data(_) => ValueType::Data,
        Value::Node(_) => ValueType::Node,
        Value::Frame(_) => ValueType::Frame,
        Value::Function(_) => ValueType::Function,
    }
}

/// The type of the values under one key.
fn type_of_values(v: &Values) -> (r: ValueType)
    ensures
        r == value_type_of(v@),
{
    match v {
        Values::Ints(_) => ValueType::Int,
        Values::Floats(_) => ValueType::Float,
        Values::Data(_) => ValueType::Data,
        Values::Nodes(_) => ValueType::Node,
        Values::Frames(_) => ValueType::Frame,
        Values::Functions(_) => ValueType::Function,
    }
}

/// A sequence of one value.
fn single(v: Value) -> (r: Values)
    ensures
        r@ == v@,
{
    match v {
        Value::Int(x) => {
            let w = vec![x];
            assert(w@ =~= seq![x]);
            Values::Ints(w)
        },
        Value::Float(x) => {
            let w = vec![x];
            assert(w@ =~= seq![x]);
            Values::Floats(w)
        },
        Value::Data(d) => {
            let ghost dv = d@;
            let r = Values::Data(vec![d]);
            assert(r@ == PropValues::Data(seq![dv])) by {
                if let Values::Data(w) = r {
                    assert(w@.map_values(|d: Vec<u8>| d@) =~= seq![dv]);
                }
            }
            r
        },
        Value::Node(x) => {
            let w = vec![x];
            assert(w@ =~= seq![x]);
            Values::Nodes(w)
        },
        Value::Frame(x) => {
            let w = vec![x];
            assert(w@ =~= seq![x]);
            Values::Frames(w)
        },
        Value::Function(x) => {
            let w = vec![x];
            assert(w@ =~= seq![x]);
            Values::Functions(w)
        },
    }
}

/// Adds `v` at the end of `values`, which hold the same type.
fn push_value(values: Values, v: Value) -> (r: Values)
    requires
        value_type_of(values@) == value_type_of(v@),
    ensures
        appended(values@, v@) == Some(r@),
{
    match (values, v) {
        (Values::Ints(mut a), Value::Int(x)) => {
            let ghost old_a = a@;
            a.push(x);
            assert(a@ =~= old_a + seq![x]);
            Values::Ints(a)
        },
        (Values::Floats(mut a), Value::Float(x)) => {
            let ghost old_a = a@;
            a.push(x);
            assert(a@ =~= old_a + seq![x]);
            Values::Floats(a)
        },
        (Values::Data(mut a), Value::Data(d)) => {
            let ghost old_a = a@;
            let ghost dv = d@;
            a.push(d);
            assert(a@.map_values(|d: Vec<u8>| d@) =~= old_a.map_values(|d: Vec<u8>| d@) + seq![dv]);
            Values::Data(a)
        },
        (Values::Nodes(mut a), Value::Node(x)) => {
            let ghost old_a = a@;
            a.push(x);
            assert(a@ =~= old_a + seq![x]);
            Values::Nodes(a)
        },
        (Values::Frames(mut a), Value::Frame(x)) => {
            let ghost old_a = a@;
            a.push(x);
            assert(a@ =~= old_a + seq![x]);
            Values::Frames(a)
        },
        (Values::Functions(mut a), Value::Function(x)) => {
            let ghost old_a = a@;
            a.push(x);
            assert(a@ =~= old_a + seq![x]);
            Values::Functions(a)
        },
        (values, _) => values,
    }
}

impl View for OwnedMap {
    type V = MapModel;

    closed spec fn view(&self) -> MapModel {
        MapModel {
            props: entries_view(self.entries@),
            error: match self.error {
                Some(e) => Some(e@),
                None => None,
            },
        }
    }
}

impl OwnedMap {
    /// The map's internal consistency: no key appears twice.
    pub closed spec fn wf(&self) -> bool {
        keys_unique(self.entries@)
    }

    /// Creates an empty map.
    pub fn new() -> (r: OwnedMap)
        ensures
            r.wf(),
            r@.props.is_empty(),
            r@.error is None,
    {
        let r = OwnedMap { entries: Vec::new(), error: None };
        assert(r@.props =~= Map::empty());
        r
    }

    fn find(&self, key: &String) -> (r: Option<usize>)
        requires
            self.wf(),
        ensures
            r is None ==> !has_key(self.entries@, key@),
            r matches Some(i) ==> i < self.entries@.len() && self.entries@[i as int].key@ == key@,
    {
        let mut i: usize = 0;
        while i < self.entries.len()
            invariant
                i <= self.entries@.len(),
                forall|j: int| 0 <= j < i ==> self.entries@[j].key@ != key@,
            decreases self.entries@.len() - i,
        {
            if self.entries[i].key == *key {
                return Some(i);
            }
            i = i + 1;
        }
        None
    }

    /// Replaces what `key` holds by `values`, clearing the error.
    fn put(&mut self, key: String, values: Values)
        requires
            old(self).wf(),
        ensures
            final(self).wf(),
            final(self)@ == after_set(old(self)@, key@, values@),
    {
        let ghost k = key@;
        let ghost v = values@;
        let found = self.find(&key);
        let e = Entry { key, values };
        match found {
            Some(i) => {
                proof {
                    lemma_update(self.entries@, i as int, e);
                }
                self.entries.set(i, e);
            },
            None => {
                proof {
                    lemma_push(self.entries@, e);
                }
                self.entries.push(e);
            },
        }
        self.error = None;
        assert(self@.props == old(self)@.props.insert(k, v));
    }

    /// The number of keys.
    pub fn key_count(&self) -> (r: usize)
        requires
            self.wf(),
        ensures
            r == self@.props.len(),
    {
        proof {
            self.lemma_key_count();
        }
        self.entries.len()
    }

    proof fn lemma_key_count(&self)
        requires
            self.wf(),
        ensures
            self@.props.dom().finite(),
            self@.props.len() == self.entries@.len(),
    {
        let es = self.entries@;
        let f = |i: int| es[i].key@;
        let idx = vstd::set_lib::set_int_range(0, es.len() as int);
        vstd::set_lib::lemma_int_range(0, es.len() as int);
        assert forall|k: Seq<char>| self@.props.dom().contains(k) <==> idx.map(f).contains(k) by {
            if self@.props.dom().contains(k) {
                let j = index_of(es, k);
                assert(idx.contains(j));
            }
        }
        assert(self@.props.dom() =~= idx.map(f));
        assert(vstd::relations::injective_on(f, idx));
        vstd::set_lib::lemma_map_size(idx, idx.map(f), f);
    }

    /// The key at `index`: each key of the map stands at exactly one index below `key_count`.
    pub fn key(&self, index: usize) -> (r: &str)
        requires
            self.wf(),
            index < self@.props.len(),
        ensures
            self@.props.contains_key(r@),
            forall|j: usize| j < self@.props.len() && j != index ==> #[trigger] self.key_at(j) != r@,
            r@ == self.key_at(index),
    {
        proof {
            self.lemma_key_count();
            lemma_index_of(self.entries@, index as int);
        }
        self.entries[index].key.as_str()
    }

    /// The key at index `i`.
    pub closed spec fn key_at(&self, i: usize) -> Seq<char> {
        self.entries@[i as int].key@
    }

    /// The number of values under `key`.
    pub fn value_count(&self, key: &str) -> (r: Result<usize, MapError>)
        requires
            self.wf(),
        ensures
            match lookup(self@, key@) {
                Ok(p) => r == Ok::<usize, MapError>(value_count_of(p) as usize),
                Err(e) => r == Err::<usize, MapError>(e),
            },
    {
        let k = key.to_owned();
        match self.find(&k) {
            None => Err(MapError::KeyNotFound),
            Some(i) => {
                proof {
                    lemma_index_of(self.entries@, i as int);
                }
                let n = match &self.entries[i].values {
                    Values::Ints(v) => v.len(),
                    Values::Floats(v) => v.len(),
                    Values::Data(v) => v.len(),
                    Values::Nodes(v) => v.len(),
                    Values::Frames(v) => v.len(),
                    Values::Functions(v) => v.len(),
                };
                Ok(n)
            },
        }
    }

    /// The type of the values under `key`.
    pub fn value_type(&self, key: &str) -> (r: Result<ValueType, MapError>)
        requires
            self.wf(),
        ensures
            match lookup(self@, key@) {
                Ok(p) => r == Ok::<ValueType, MapError>(value_type_of(p)),
                Err(e) => r == Err::<ValueType, MapError>(e),
            },
    {
        let k = key.to_owned();
        match self.find(&k) {
            None => Err(MapError::KeyNotFound),
            Some(i) => {
                proof {
                    lemma_index_of(self.entries@, i as int);
                }
                let t = match &self.entries[i].values {
                    Values::Ints(_) => ValueType::Int,
                    Values::Floats(_) => ValueType::Float,
                    Values::Data(_) => ValueType::Data,
                    Values::Nodes(_) => ValueType::Node,
                    Values::Frames(_) => ValueType::Frame,
                    Values::Functions(_) => ValueType::Function,
                };
                Ok(t)
            },
        }
    }

    /// Removes `key` and its values.
    pub fn delete_key(&mut self, key: &str) -> (r: Result<(), MapError>)
        requires
            old(self).wf(),
        ensures
            final(self).wf(),
            match after_delete(old(self)@, key@) {
                Ok(m) => r is Ok && final(self)@ == m,
                Err(e) => r == Err::<(), MapError>(e) && final(self)@ == old(self)@,
            },
    {
        let k = key.to_owned();
        match self.find(&k) {
            None => Err(MapError::KeyNotFound),
            Some(i) => {
                proof {
                    lemma_index_of(self.entries@, i as int);
                    lemma_remove(self.entries@, i as int);
                }
                self.entries.remove(i);
                Ok(())
            },
        }
    }

    /// Removes every key and the error.
    pub fn clear(&mut self)
        ensures
            final(self).wf(),
            final(self)@.props.is_empty(),
            final(self)@.error is None,
    {
        self.entries = Vec::new();
        self.error = None;
        assert(self@.props =~= Map::empty());
    }

    /// The error message, if one is set.
    pub fn error(&self) -> (r: Option<&str>)
        ensures
            r matches Some(s) ==> self@.error == Some(s@),
            r is None ==> self@.error is None,
    {
        match &self.error {
            Some(e) => Some(e.as_str()),
            None => None,
        }
    }

    /// Sets the error message: every key is removed.
    pub fn set_error(&mut self, message: &str)
        ensures
            final(self).wf(),
            final(self)@.props.is_empty(),
            final(self)@.error == Some(message@),
    {
        self.entries = Vec::new();
        self.error = Some(message.to_owned());
        assert(self@.props =~= Map::empty());
    }
    /// Replaces what `key` holds by `values`, when `key` is valid.
    fn set_values(&mut self, key: &str, values: Values) -> (r: Result<(), MapError>)
        requires
            old(self).wf(),
        ensures
            final(self).wf(),
            valid_key(key@) ==> r is Ok && final(self)@ == after_set(old(self)@, key@, values@),
            !valid_key(key@) ==> r == Err::<(), MapError>(MapError::InvalidKey) && final(self)@ == old(self)@,
    {
        if !is_key_valid(key) {
            return Err(MapError::InvalidKey);
        }
        self.put(key.to_owned(), values);
        Ok(())
    }

    /// Adds `v` after the values under `key`.
    fn append_value(&mut self, key: &str, v: Value) -> (r: Result<(), MapError>)
        requires
            old(self).wf(),
        ensures
            final(self).wf(),
            match after_append(old(self)@, key@, v@) {
                Ok(m) => r is Ok && final(self)@ == m,
                Err(e) => r == Err::<(), MapError>(e) && final(self)@ == old(self)@,
            },
    {
        if !is_key_valid(key) {
            return Err(MapError::InvalidKey);
        }
        let k = key.to_owned();
        match self.find(&k) {
            None => {
                self.put(k, single(v));
                Ok(())
            },
            Some(i) => {
                proof {
                    lemma_index_of(self.entries@, i as int);
                }
                if type_of_values(&self.entries[i].values) != type_of_value(&v) {
                    assert(appended(old(self)@.props[key@], v@) is None);
                    return Err(MapError::WrongValueType);
                }
                let ghost es = self.entries@;
                let e = self.entries.remove(i);
                let e2 = Entry { key: e.key, values: push_value(e.values, v) };
                self.entries.insert(i, e2);
                assert(self.entries@ =~= es.update(i as int, e2));
                proof {
                    lemma_update(es, i as int, e2);
                }
                self.error = None;
                Ok(())
            },
        }
    }

    fn values_of(&self, key: &str) -> (r: Result<&Values, MapError>)
        requires
            self.wf(),
        ensures
            match lookup(self@, key@) {
                Ok(p) => r matches Ok(v) && v@ == p,
                Err(e) => r == Err::<&Values, MapError>(e),
            },
    {
        let k = key.to_owned();
        match self.find(&k) {
            None => Err(MapError::KeyNotFound),
            Some(i) => {
                proof {
                    lemma_index_of(self.entries@, i as int);
                }
                Ok(&self.entries[i].values)
            },
        }
    }

    /// The integer at `index` under `key`.
    pub fn get_int_at(&self, key: &str, index: usize) -> (r: Result<i64, MapError>)
        requires
            self.wf(),
        ensures
            r == int_at(self@, key@, index as int),
    {
        match self.values_of(key)? {
            Values::Ints(v) => if index < v.len() {
                Ok(v[index])
            } else {
                Err(MapError::IndexOutOfBounds)
            },
            _ => Err(MapError::WrongValueType),
        }
    }

    /// The first integer under `key`.
    pub fn get_int(&self, key: &str) -> (r: Result<i64, MapError>)
        requires
            self.wf(),
        ensures
            r == int_at(self@, key@, 0),
    {
        self.get_int_at(key, 0)
    }

    /// All the integers under `key`.
    pub fn get_int_array(&self, key: &str) -> (r: Result<&[i64], MapError>)
        requires
            self.wf(),
        ensures
            match int_array(self@, key@) {
                Ok(s) => r matches Ok(a) && a@ == s,
                Err(e) => r == Err::<&[i64], MapError>(e),
            },
    {
        match self.values_of(key)? {
            Values::Ints(v) => Ok(v.as_slice()),
            _ => Err(MapError::WrongValueType),
        }
    }

    /// The float bit pattern at `index` under `key`.
    pub fn get_float_bits_at(&self, key: &str, index: usize) -> (r: Result<u64, MapError>)
        requires
            self.wf(),
        ensures
            r == float_at(self@, key@, index as int),
    {
        match self.values_of(key)? {
            Values::Floats(v) => if index < v.len() {
                Ok(v[index])
            } else {
                Err(MapError::IndexOutOfBounds)
            },
            _ => Err(MapError::WrongValueType),
        }
    }

    /// The first float bit pattern under `key`.
    pub fn get_float_bits(&self, key: &str) -> (r: Result<u64, MapError>)
        requires
            self.wf(),
        ensures
            r == float_at(self@, key@, 0),
    {
        self.get_float_bits_at(key, 0)
    }

    /// All the float bit patterns under `key`.
    pub fn get_float_bits_array(&self, key: &str) -> (r: Result<&[u64], MapError>)
        requires
            self.wf(),
        ensures
            match float_array(self@, key@) {
                Ok(s) => r matches Ok(a) && a@ == s,
                Err(e) => r == Err::<&[u64], MapError>(e),
            },
    {
        match self.values_of(key)? {
            Values::Floats(v) => Ok(v.as_slice()),
            _ => Err(MapError::WrongValueType),
        }
    }

    /// The blob at `index` under `key`.
    pub fn get_data_at(&self, key: &str, index: usize) -> (r: Result<&[u8], MapError>)
        requires
            self.wf(),
        ensures
            match data_at(self@, key@, index as int) {
                Ok(s) => r matches Ok(a) && a@ == s,
                Err(e) => r == Err::<&[u8], MapError>(e),
            },
    {
        match self.values_of(key)? {
            Values::Data(v) => if index < v.len() {
                Ok(v[index].as_slice())
            } else {
                Err(MapError::IndexOutOfBounds)
            },
            _ => Err(MapError::WrongValueType),
        }
    }

    /// The first blob under `key`.
    pub fn get_data(&self, key: &str) -> (r: Result<&[u8], MapError>)
        requires
            self.wf(),
        ensures
            match data_at(self@, key@, 0) {
                Ok(s) => r matches Ok(a) && a@ == s,
                Err(e) => r == Err::<&[u8], MapError>(e),
            },
    {
        self.get_data_at(key, 0)
    }

    fn get_handle_at(&self, key: &str, index: usize, t: ValueType) -> (r: Result<u64, MapError>)
        requires
            self.wf(),
            t == ValueType::Node || t == ValueType::Frame || t == ValueType::Function,
        ensures
            r == handle_at(self@, key@, index as int, t),
    {
        let values = self.values_of(key)?;
        if type_of_values(values) != t {
            return Err(MapError::WrongValueType);
        }
        match values {
            Values::Nodes(v) | Values::Frames(v) | Values::Functions(v) => if index < v.len() {
                Ok(v[index])
            } else {
                Err(MapError::IndexOutOfBounds)
            },
            _ => Err(MapError::WrongValueType),
        }
    }

    /// The node handle at `index` under `key`.
    pub fn get_node_at(&self, key: &str, index: usize) -> (r: Result<u64, MapError>)
        requires
            self.wf(),
        ensures
            r == handle_at(self@, key@, index as int, ValueType::Node),
    {
        self.get_handle_at(key, index, ValueType::Node)
    }

    /// The first node handle under `key`.
    pub fn get_node(&self, key: &str) -> (r: Result<u64, MapError>)
        requires
            self.wf(),
        ensures
            r == handle_at(self@, key@, 0, ValueType::Node),
    {
        self.get_handle_at(key, 0, ValueType::Node)
    }

    /// The frame handle at `index` under `key`.
    pub fn get_frame_at(&self, key: &str, index: usize) -> (r: Result<u64, MapError>)
        requires
            self.wf(),
        ensures
            r == handle_at(self@, key@, index as int, ValueType::Frame),
    {
        self.get_handle_at(key, index, ValueType::Frame)
    }

    /// The first frame handle under `key`.
    pub fn get_frame(&self, key: &str) -> (r: Result<u64, MapError>)
        requires
            self.wf(),
        ensures
            r == handle_at(self@, key@, 0, ValueType::Frame),
    {
        self.get_handle_at(key, 0, ValueType::Frame)
    }

    /// The function handle at `index` under `key`.
    pub fn get_function_at(&self, key: &str, index: usize) -> (r: Result<u64, MapError>)
        requires
            self.wf(),
        ensures
            r == handle_at(self@, key@, index as int, ValueType::Function),
    {
        self.get_handle_at(key, index, ValueType::Function)
    }

    /// The first function handle under `key`.
    pub fn get_function(&self, key: &str) -> (r: Result<u64, MapError>)
        requires
            self.wf(),
        ensures
            r == handle_at(self@, key@, 0, ValueType::Function),
    {
        self.get_handle_at(key, 0, ValueType::Function)
    }

    /// Makes `x` the only value under `key`.
    pub fn set_int(&mut self, key: &str, x: i64) -> (r: Result<(), MapError>)
        requires
            old(self).wf(),
        ensures
            final(self).wf(),
            valid_key(key@) ==> r is Ok && final(self)@ == after_set(old(self)@, key@, Value::Int(x)@),
            !valid_key(key@) ==> r == Err::<(), MapError>(MapError::InvalidKey) && final(self)@ == old(self)@,
    {
        self.set_values(key, single(Value::Int(x)))
    }

    /// Adds `x` after the values under `key`.
    pub fn append_int(&mut self, key: &str, x: i64) -> (r: Result<(), MapError>)
        requires
            old(self).wf(),
        ensures
            final(self).wf(),
            match after_append(old(self)@, key@, Value::Int(x)@) {
                Ok(m) => r is Ok && final(self)@ == m,
                Err(e) => r == Err::<(), MapError>(e) && final(self)@ == old(self)@,
            },
    {
        self.append_value(key, Value::Int(x))
    }

    /// Makes `x` the only value under `key`.
    pub fn set_float_bits(&mut self, key: &str, x: u64) -> (r: Result<(), MapError>)
        requires
            old(self).wf(),
        ensures
            final(self).wf(),
            valid_key(key@) ==> r is Ok && final(self)@ == after_set(old(self)@, key@, Value::Float(x)@),
            !valid_key(key@) ==> r == Err::<(), MapError>(MapError::InvalidKey) && final(self)@ == old(self)@,
    {
        self.set_values(key, single(Value::Float(x)))
    }

    /// Adds `x` after the values under `key`.
    pub fn append_float_bits(&mut self, key: &str, x: u64) -> (r: Result<(), MapError>)
        requires
            old(self).wf(),
        ensures
            final(self).wf(),
            match after_append(old(self)@, key@, Value::Float(x)@) {
                Ok(m) => r is Ok && final(self)@ == m,
                Err(e) => r == Err::<(), MapError>(e) && final(self)@ == old(self)@,
            },
    {
        self.append_value(key, Value::Float(x))
    }

    /// Makes `x` the only value under `key`.
    pub fn set_node(&mut self, key: &str, x: u64) -> (r: Result<(), MapError>)
        requires
            old(self).wf(),
        ensures
            final(self).wf(),
            valid_key(key@) ==> r is Ok && final(self)@ == after_set(old(self)@, key@, Value::Node(x)@),
            !valid_key(key@) ==> r == Err::<(), MapError>(MapError::InvalidKey) && final(self)@ == old(self)@,
    {
        self.set_values(key, single(Value::Node(x)))
    }

    /// Adds `x` after the values under `key`.
    pub fn append_node(&mut self, key: &str, x: u64) -> (r: Result<(), MapError>)
        requires
            old(self).wf(),
        ensures
            final(self).wf(),
            match after_append(old(self)@, key@, Value::Node(x)@) {
                Ok(m) => r is Ok && final(self)@ == m,
                Err(e) => r == Err::<(), MapError>(e) && final(self)@ == old(self)@,
            },
    {
        self.append_value(key, Value::Node(x))
    }

    /// Makes `x` the only value under `key`.
    pub fn set_frame(&mut self, key: &str, x: u64) -> (r: Result<(), MapError>)
        requires
            old(self).wf(),
        ensures
            final(self).wf(),
            valid_key(key@) ==> r is Ok && final(self)@ == after_set(old(self)@, key@, Value::Frame(x)@),
            !valid_key(key@) ==> r == Err::<(), MapError>(MapError::InvalidKey) && final(self)@ == old(self)@,
    {
        self.set_values(key, single(Value::Frame(x)))
    }

    /// Adds `x` after the values under `key`.
    pub fn append_frame(&mut self, key: &str, x: u64) -> (r: Result<(), MapError>)
        requires
            old(self).wf(),
        ensures
            final(self).wf(),
            match after_append(old(self)@, key@, Value::Frame(x)@) {
                Ok(m) => r is Ok && final(self)@ == m,
                Err(e) => r == Err::<(), MapError>(e) && final(self)@ == old(self)@,
            },
    {
        self.append_value(key, Value::Frame(x))
    }

    /// Makes `x` the only value under `key`.
    pub fn set_function(&mut self, key: &str, x: u64) -> (r: Result<(), MapError>)
        requires
            old(self).wf(),
        ensures
            final(self).wf(),
            valid_key(key@) ==> r is Ok && final(self)@ == after_set(old(self)@, key@, Value::Function(x)@),
            !valid_key(key@) ==> r == Err::<(), MapError>(MapError::InvalidKey) && final(self)@ == old(self)@,
    {
        self.set_values(key, single(Value::Function(x)))
    }

    /// Adds `x` after the values under `key`.
    pub fn append_function(&mut self, key: &str, x: u64) -> (r: Result<(), MapError>)
        requires
            old(self).wf(),
        ensures
            final(self).wf(),
            match after_append(old(self)@, key@, Value::Function(x)@) {
                Ok(m) => r is Ok && final(self)@ == m,
                Err(e) => r == Err::<(), MapError>(e) && final(self)@ == old(self)@,
            },
    {
        self.append_value(key, Value::Function(x))
    }

    /// Makes the blob `data` the only value under `key`.
    pub fn set_data(&mut self, key: &str, data: &[u8]) -> (r: Result<(), MapError>)
        requires
            old(self).wf(),
            data@.len() <= i32::MAX,
        ensures
            final(self).wf(),
            valid_key(key@) ==> r is Ok && final(self)@ == after_set(old(self)@, key@, PropValues::Data(seq![data@])),
            !valid_key(key@) ==> r == Err::<(), MapError>(MapError::InvalidKey) && final(self)@ == old(self)@,
    {
        self.set_values(key, single(Value::Data(vstd::slice::slice_to_vec(data))))
    }

    /// Adds the blob `data` after the values under `key`.
    pub fn append_data(&mut self, key: &str, data: &[u8]) -> (r: Result<(), MapError>)
        requires
            old(self).wf(),
            data@.len() <= i32::MAX,
        ensures
            final(self).wf(),
            match after_append(old(self)@, key@, PropValues::Data(seq![data@])) {
                Ok(m) => r is Ok && final(self)@ == m,
                Err(e) => r == Err::<(), MapError>(e) && final(self)@ == old(self)@,
            },
    {
        self.append_value(key, Value::Data(vstd::slice::slice_to_vec(data)))
    }

    /// Makes the integers of `values` the values under `key`.
    pub fn set_int_array(&mut self, key: &str, values: &[i64]) -> (r: Result<(), MapError>)
        requires
            old(self).wf(),
            values@.len() <= i32::MAX,
        ensures
            final(self).wf(),
            valid_key(key@) ==> r is Ok && final(self)@ == after_set(old(self)@, key@, PropValues::Ints(values@)),
            !valid_key(key@) ==> r == Err::<(), MapError>(MapError::InvalidKey) && final(self)@ == old(self)@,
    {
        self.set_values(key, Values::Ints(vstd::slice::slice_to_vec(values)))
    }

    /// Makes the float bit patterns of `values` the values under `key`.
    pub fn set_float_bits_array(&mut self, key: &str, values: &[u64]) -> (r: Result<(), MapError>)
        requires
            old(self).wf(),
            values@.len() <= i32::MAX,
        ensures
            final(self).wf(),
            valid_key(key@) ==> r is Ok && final(self)@ == after_set(old(self)@, key@, PropValues::Floats(values@)),
            !valid_key(key@) ==> r == Err::<(), MapError>(MapError::InvalidKey) && final(self)@ == old(self)@,
    {
        self.set_values(key, Values::Floats(vstd::slice::slice_to_vec(values)))
    }

}

} // verus!
