use vapoursynth::format::{ColorFamily, Format, PresetFormat, SampleType};
use vapoursynth::frame::{green_frame_test, props_test, Frame, FrameError, Framerate, Plane, Property, Resolution, VideoInfo};
use vapoursynth::map::OwnedMap;
use vapoursynth::vsscript::{env_video_var_test, green_test};

fn rgb24() -> Format {
    Format::new(ColorFamily::RGB, SampleType::Integer, 8, 1, 0, 0, 3, "RGB24")
}

fn duration_props(den: i64, num: i64) -> OwnedMap {
    let mut props = OwnedMap::new();
    props.set_int("_DurationDen", den).unwrap();
    props.set_int("_DurationNum", num).unwrap();
    props
}

fn constant_frame(format: Format, width: usize, height: usize, colors: &[u8], props: OwnedMap) -> Frame {
    let planes = colors
        .iter()
        .map(|&c| Plane { width, height, stride: width, data: vec![c; width * height] })
        .collect();
    Frame::new(format, planes, props).unwrap()
}

fn green_frame() -> Frame {
    constant_frame(rgb24(), 1920, 1080, &[0, 255, 0], duration_props(60, 1))
}

#[test]
fn green_clip_frame() {
    let frame = green_frame();
    assert!(green_frame_test(&frame));
    assert!(props_test(&frame, 60));
    assert_eq!(frame.format().name(), "RGB24");
    assert_eq!(frame.plane_count(), 3);
    assert_eq!(frame.resolution(1), Resolution { width: 1920, height: 1080 });
    assert!(frame.data_row(1, 1079).iter().all(|&b| b == 255));
    assert!(frame.data_row(2, 0).iter().all(|&b| b == 0));
    assert_eq!(frame.props().get_int("_DurationDen"), Ok(60));
    assert_eq!(frame.props().get_int("_DurationNum"), Ok(1));
}

#[test]
fn green_clip_outputs() {
    let frame = green_frame();
    let info = VideoInfo::from_raw(rgb24(), 60, 1, 1920, 1080, 100);
    let mut vars = OwnedMap::new();
    vars.set_node("video", 1).unwrap();
    assert!(env_video_var_test(&vars));
    assert!(green_test(&info, false, &frame, &vars));
    assert!(!green_test(&info, true, &frame, &vars));
    let short = VideoInfo::from_raw(rgb24(), 60, 1, 1920, 1080, 99);
    assert!(!green_test(&short, false, &frame, &vars));
}

#[test]
fn not_green_frames() {
    let red = constant_frame(rgb24(), 1920, 1080, &[255, 0, 0], duration_props(60, 1));
    assert!(!green_frame_test(&red));
    let small = constant_frame(rgb24(), 16, 16, &[0, 255, 0], duration_props(60, 1));
    assert!(!green_frame_test(&small));
    let gray = Format::new(ColorFamily::Gray, SampleType::Integer, 8, 1, 0, 0, 1, "Gray8");
    let gray_frame = constant_frame(gray, 1920, 1080, &[255], duration_props(60, 1));
    assert!(!green_frame_test(&gray_frame));
}

#[test]
fn duration_props_are_checked_exactly() {
    let frame = constant_frame(rgb24(), 2, 2, &[0, 255, 0], duration_props(30, 1));
    assert!(props_test(&frame, 30));
    assert!(!props_test(&frame, 60));
    let mut extra = duration_props(60, 1);
    extra.set_int("_Other", 0).unwrap();
    let frame = constant_frame(rgb24(), 2, 2, &[0, 255, 0], extra);
    assert!(!props_test(&frame, 60));
    let mut two = duration_props(60, 1);
    two.append_int("_DurationDen", 60).unwrap();
    let frame = constant_frame(rgb24(), 2, 2, &[0, 255, 0], two);
    assert!(!props_test(&frame, 60));
}

#[test]
fn frame_layout_is_checked() {
    let planes = vec![Plane { width: 4, height: 2, stride: 4, data: vec![0; 8] }];
    assert_eq!(Frame::new(rgb24(), planes, OwnedMap::new()).err(), Some(FrameError::PlaneCount));
    let planes = vec![
        Plane { width: 4, height: 2, stride: 4, data: vec![0; 8] },
        Plane { width: 4, height: 2, stride: 3, data: vec![0; 6] },
        Plane { width: 4, height: 2, stride: 4, data: vec![0; 8] },
    ];
    assert_eq!(Frame::new(rgb24(), planes, OwnedMap::new()).err(), Some(FrameError::PlaneLayout));
    let planes = vec![
        Plane { width: 4, height: 2, stride: 4, data: vec![0; 8] },
        Plane { width: 4, height: 2, stride: 4, data: vec![0; 7] },
        Plane { width: 4, height: 2, stride: 4, data: vec![0; 8] },
    ];
    assert_eq!(Frame::new(rgb24(), planes, OwnedMap::new()).err(), Some(FrameError::PlaneLayout));
}

#[test]
fn padded_rows() {
    let gray16 = Format::new(ColorFamily::Gray, SampleType::Integer, 16, 2, 0, 0, 1, "Gray16");
    let data: Vec<u8> = (0..24).collect();
    let planes = vec![Plane { width: 3, height: 2, stride: 12, data }];
    let frame = Frame::new(gray16, planes, OwnedMap::new()).unwrap();
    assert_eq!(frame.data_row(0, 0), &[0, 1, 2, 3, 4, 5][..]);
    assert_eq!(frame.data_row(0, 1), &[12, 13, 14, 15, 16, 17][..]);
    assert_eq!(frame.plane(0), None);
    assert_eq!(frame.stride(0), 12);
    assert_eq!(frame.width(0), 3);
    assert_eq!(frame.height(0), 2);
    assert!(frame.plane_is_filled(0, 0) == false);
}

#[test]
fn video_info_from_raw() {
    let info = VideoInfo::from_raw(rgb24(), 60, 1, 1920, 1080, 100);
    assert_eq!(info.framerate, Property::Constant(Framerate { numerator: 60, denominator: 1 }));
    assert_eq!(info.resolution, Property::Constant(Resolution { width: 1920, height: 1080 }));
    assert_eq!(info.num_frames, 100);
    let undefined = Format::new(ColorFamily::Undefined, SampleType::Integer, 0, 0, 0, 0, 0, "Undefined");
    let variable = VideoInfo::from_raw(undefined, 0, 0, 0, 0, 200);
    assert_eq!(variable.framerate, Property::Variable);
    assert_eq!(variable.resolution, Property::Variable);
    assert_eq!(variable.format.name(), "Undefined");
    assert_eq!(variable.num_frames, 200);
}

#[test]
fn format_accessors() {
    let f = Format::new(ColorFamily::YUV, SampleType::Integer, 8, 1, 1, 1, 3, "YUV420P8");
    assert_eq!(f.id(), PresetFormat::YUV420P8.into());
    assert_eq!(f.name(), "YUV420P8");
    assert_eq!(f.plane_count(), 3);
    assert_eq!(f.color_family(), ColorFamily::YUV);
    assert_eq!(f.sample_type(), SampleType::Integer);
    assert_eq!(f.bits_per_sample(), 8);
    assert_eq!(f.bytes_per_sample(), 1);
    assert_eq!(f.sub_sampling_w(), 1);
    assert_eq!(f.sub_sampling_h(), 1);
    let g = Format::new(ColorFamily::YUV, SampleType::Integer, 8, 1, 1, 0, 3, "YUV422P8");
    assert_eq!(g.id(), PresetFormat::YUV422P8.into());
    assert_eq!(g.sub_sampling_w(), 1);
    assert_eq!(g.sub_sampling_h(), 0);
}

#[test]
fn formats_compare_by_identifier() {
    let a = Format::new(ColorFamily::RGB, SampleType::Integer, 8, 1, 0, 0, 3, "RGB24");
    let b = Format::new(ColorFamily::RGB, SampleType::Integer, 8, 1, 0, 0, 3, "another name");
    let c = Format::new(ColorFamily::YUV, SampleType::Integer, 8, 1, 0, 0, 3, "YUV444P8");
    assert!(a == b);
    assert!(a != c);
    assert_eq!(c.id(), PresetFormat::YUV444P8.id());
}
