use vapoursynth::format::{make_video_id, ColorFamily, FormatID, PresetFormat, SampleType};

#[test]
fn preset_ids_match_the_formula() {
    assert_eq!(FormatID::from(PresetFormat::YUV420P8), FormatID(805830913));
    assert_eq!(i32::from(FormatID::from(PresetFormat::RGB24)), 537395200);
    assert_eq!(PresetFormat::Unknown.id(), FormatID(0));
    assert_eq!(make_video_id(ColorFamily::Gray, SampleType::Integer, 8, 0, 0), 268959744);
}
