//! Video formats and their identifiers.

use vstd::prelude::*;

verus! {

/// Format color families.
#[derive(Debug, Clone, Copy, PartialEq, Eq, Structural, PartialOrd, Ord, Hash)]
pub enum ColorFamily {
    Undefined,
    Gray,
    RGB,
    YUV,
}

/// Format sample types.
#[derive(Debug, Clone, Copy, PartialEq, Eq, Structural, PartialOrd, Ord, Hash)]
pub enum SampleType {
    Integer,
    Float,
}

/// The engine's numeric code of a color family.
pub open spec fn color_family_code(c: ColorFamily) -> int {
    match c {
        ColorFamily::Undefined => 0,
        ColorFamily::Gray => 1,
        ColorFamily::RGB => 2,
        ColorFamily::YUV => 3,
    }
}

/// The engine's numeric code of a sample type.
pub open spec fn sample_type_code(s: SampleType) -> int {
    match s {
        SampleType::Integer => 0,
        SampleType::Float => 1,
    }
}

impl ColorFamily {
    /// The engine's numeric code of this color family.
    pub fn code(self) -> (r: i32)
        ensures
            r == color_family_code(self),
    {
        match self {
            ColorFamily::Undefined => 0,
            ColorFamily::Gray => 1,
            ColorFamily::RGB => 2,
            ColorFamily::YUV => 3,
        }
    }

    /// The color family with the given engine code, if there is one.
    pub fn from_code(x: i32) -> (r: Option<ColorFamily>)
        ensures
            r matches Some(c) ==> color_family_code(c) == x,
            r is None <==> !(0 <= x <= 3),
    {
        match x {
            0 => Some(ColorFamily::Undefined),
            1 => Some(ColorFamily::Gray),
            2 => Some(ColorFamily::RGB),
            3 => Some(ColorFamily::YUV),
            _ => None,
        }
    }

    /// The printable name of this color family.
    pub fn name(self) -> (r: &'static str)
        ensures
            r@ == color_family_name(self)@,
    {
        match self {
            ColorFamily::Gray => "Gray",
            ColorFamily::RGB => "RGB",
            ColorFamily::YUV => "YUV",
            ColorFamily::Undefined => "Undefined",
        }
    }
}

/// The printable name of a color family.
pub open spec fn color_family_name(c: ColorFamily) -> &'static str {
    match c {
        ColorFamily::Gray => "Gray",
        ColorFamily::RGB => "RGB",
        ColorFamily::YUV => "YUV",
        ColorFamily::Undefined => "Undefined",
    }
}

impl SampleType {
    /// The engine's numeric code of this sample type.
    pub fn code(self) -> (r: i32)
        ensures
            r == sample_type_code(self),
    {
        match self {
            SampleType::Integer => 0,
            SampleType::Float => 1,
        }
    }

    /// The sample type with the given engine code, if there is one.
    pub fn from_code(x: i32) -> (r: Option<SampleType>)
        ensures
            r matches Some(s) ==> sample_type_code(s) == x,
            r is None <==> !(0 <= x <= 1),
    {
        match x {
            0 => Some(SampleType::Integer),
            1 => Some(SampleType::Float),
            _ => None,
        }
    }

    /// The printable name of this sample type.
    pub fn name(self) -> (r: &'static str)
        ensures
            r@ == sample_type_name(self)@,
    {
        match self {
            SampleType::Integer => "Integer",
            SampleType::Float => "Float",
        }
    }
}

/// The printable name of a sample type.
pub open spec fn sample_type_name(s: SampleType) -> &'static str {
    match s {
        SampleType::Integer => "Integer",
        SampleType::Float => "Float",
    }
}

/// The identifier of a format: each component takes its own bit field, the color family in
/// bits 28 and up, the sample type from bit 24, the bits per sample from bit 16 and the two
/// subsampling factors in the lowest two bytes.
pub open spec fn video_id(
    color_family: ColorFamily,
    sample_type: SampleType,
    bits_per_sample: int,
    sub_sampling_w: int,
    sub_sampling_h: int,
) -> int {
    color_family_code(color_family) * 0x1000_0000 + sample_type_code(sample_type) * 0x100_0000
        + bits_per_sample * 0x1_0000 + sub_sampling_w * 0x100 + sub_sampling_h
}

/// Computes a video format identifier from its components.
pub fn make_video_id(
    color_family: ColorFamily,
    sample_type: SampleType,
    bits_per_sample: i32,
    sub_sampling_w: i32,
    sub_sampling_h: i32,
) -> (r: i32)
    requires
        0 <= bits_per_sample < 256,
        0 <= sub_sampling_w < 256,
        0 <= sub_sampling_h < 256,
    ensures
        r == video_id(color_family, sample_type, bits_per_sample as int, sub_sampling_w as int, sub_sampling_h as int),
{
    color_family.code() * 0x1000_0000 + sample_type.code() * 0x100_0000 + bits_per_sample * 0x1_0000
        + sub_sampling_w * 0x100 + sub_sampling_h
}

/// A unique format identifier.
#[derive(Debug, Clone, Copy, PartialEq, Eq, Structural, PartialOrd, Ord, Hash)]
pub struct FormatID(pub i32);


/// Preset formats.
///
/// The presets suffixed with H and S have floating point sample type. The H and S suffixes stand
/// for half precision and single precision, respectively.
#[derive(Debug, Clone, Copy, PartialEq, Eq, Structural, PartialOrd, Ord, Hash)]
pub enum PresetFormat {
    Unknown,
    Gray8,
    Gray9,
    Gray10,
    Gray12,
    Gray14,
    Gray16,
    Gray32,
    GrayH,
    GrayS,
    YUV410P8,
    YUV411P8,
    YUV440P8,
    YUV420P8,
    YUV422P8,
    YUV444P8,
    YUV420P9,
    YUV422P9,
    YUV444P9,
    YUV420P10,
    YUV422P10,
    YUV444P10,
    YUV420P12,
    YUV422P12,
    YUV444P12,
    YUV420P14,
    YUV422P14,
    YUV444P14,
    YUV420P16,
    YUV422P16,
    YUV444P16,
    YUV420PH,
    YUV420PS,
    YUV422PH,
    YUV422PS,
    YUV444PH,
    YUV444PS,
    RGB24,
    RGB27,
    RGB30,
    RGB36,
    RGB42,
    RGB48,
    RGBH,
    RGBS,
}

/// The components of a preset format: color family, sample type, bits per sample and the two
/// subsampling factors. `Unknown` has no components.
pub open spec fn preset_parts(p: PresetFormat) -> Option<(ColorFamily, SampleType, int, int, int)> {
    match p {
        PresetFormat::Unknown => Option::None,
        PresetFormat::Gray8 => Some((ColorFamily::Gray, SampleType::Integer, 8, 0, 0)),
        PresetFormat::Gray9 => Some((ColorFamily::Gray, SampleType::Integer, 9, 0, 0)),
        PresetFormat::Gray10 => Some((ColorFamily::Gray, SampleType::Integer, 10, 0, 0)),
        PresetFormat::Gray12 => Some((ColorFamily::Gray, SampleType::Integer, 12, 0, 0)),
        PresetFormat::Gray14 => Some((ColorFamily::Gray, SampleType::Integer, 14, 0, 0)),
        PresetFormat::Gray16 => Some((ColorFamily::Gray, SampleType::Integer, 16, 0, 0)),
        PresetFormat::Gray32 => Some((ColorFamily::Gray, SampleType::Integer, 32, 0, 0)),
        PresetFormat::GrayH => Some((ColorFamily::Gray, SampleType::Float, 16, 0, 0)),
        PresetFormat::GrayS => Some((ColorFamily::Gray, SampleType::Float, 32, 0, 0)),
        PresetFormat::YUV410P8 => Some((ColorFamily::YUV, SampleType::Integer, 8, 2, 2)),
        PresetFormat::YUV411P8 => Some((ColorFamily::YUV, SampleType::Integer, 8, 2, 0)),
        PresetFormat::YUV440P8 => Some((ColorFamily::YUV, SampleType::Integer, 8, 0, 1)),
        PresetFormat::YUV420P8 => Some((ColorFamily::YUV, SampleType::Integer, 8, 1, 1)),
        PresetFormat::YUV422P8 => Some((ColorFamily::YUV, SampleType::Integer, 8, 1, 0)),
        PresetFormat::YUV444P8 => Some((ColorFamily::YUV, SampleType::Integer, 8, 0, 0)),
        PresetFormat::YUV420P9 => Some((ColorFamily::YUV, SampleType::Integer, 9, 1, 1)),
        PresetFormat::YUV422P9 => Some((ColorFamily::YUV, SampleType::Integer, 9, 1, 0)),
        PresetFormat::YUV444P9 => Some((ColorFamily::YUV, SampleType::Integer, 9, 0, 0)),
        PresetFormat::YUV420P10 => Some((ColorFamily::YUV, SampleType::Integer, 10, 1, 1)),
        PresetFormat::YUV422P10 => Some((ColorFamily::YUV, SampleType::Integer, 10, 1, 0)),
        PresetFormat::YUV444P10 => Some((ColorFamily::YUV, SampleType::Integer, 10, 0, 0)),
        PresetFormat::YUV420P12 => Some((ColorFamily::YUV, SampleType::Integer, 12, 1, 1)),
        PresetFormat::YUV422P12 => Some((ColorFamily::YUV, SampleType::Integer, 12, 1, 0)),
        PresetFormat::YUV444P12 => Some((ColorFamily::YUV, SampleType::Integer, 12, 0, 0)),
        PresetFormat::YUV420P14 => Some((ColorFamily::YUV, SampleType::Integer, 14, 1, 1)),
        PresetFormat::YUV422P14 => Some((ColorFamily::YUV, SampleType::Integer, 14, 1, 0)),
        PresetFormat::YUV444P14 => Some((ColorFamily::YUV, SampleType::Integer, 14, 0, 0)),
        PresetFormat::YUV420P16 => Some((ColorFamily::YUV, SampleType::Integer, 16, 1, 1)),
        PresetFormat::YUV422P16 => Some((ColorFamily::YUV, SampleType::Integer, 16, 1, 0)),
        PresetFormat::YUV444P16 => Some((ColorFamily::YUV, SampleType::Integer, 16, 0, 0)),
        PresetFormat::YUV420PH => Some((ColorFamily::YUV, SampleType::Float, 16, 1, 1)),
        PresetFormat::YUV420PS => Some((ColorFamily::YUV, SampleType::Float, 32, 1, 1)),
        PresetFormat::YUV422PH => Some((ColorFamily::YUV, SampleType::Float, 16, 1, 0)),
        PresetFormat::YUV422PS => Some((ColorFamily::YUV, SampleType::Float, 32, 1, 0)),
        PresetFormat::YUV444PH => Some((ColorFamily::YUV, SampleType::Float, 16, 0, 0)),
        PresetFormat::YUV444PS => Some((ColorFamily::YUV, SampleType::Float, 32, 0, 0)),
        PresetFormat::RGB24 => Some((ColorFamily::RGB, SampleType::Integer, 8, 0, 0)),
        PresetFormat::RGB27 => Some((ColorFamily::RGB, SampleType::Integer, 9, 0, 0)),
        PresetFormat::RGB30 => Some((ColorFamily::RGB, SampleType::Integer, 10, 0, 0)),
        PresetFormat::RGB36 => Some((ColorFamily::RGB, SampleType::Integer, 12, 0, 0)),
        PresetFormat::RGB42 => Some((ColorFamily::RGB, SampleType::Integer, 14, 0, 0)),
        PresetFormat::RGB48 => Some((ColorFamily::RGB, SampleType::Integer, 16, 0, 0)),
        PresetFormat::RGBH => Some((ColorFamily::RGB, SampleType::Float, 16, 0, 0)),
        PresetFormat::RGBS => Some((ColorFamily::RGB, SampleType::Float, 32, 0, 0)),
    }
}

/// The identifier of a preset format: zero for `Unknown`.
pub open spec fn preset_id(p: PresetFormat) -> int {
    match preset_parts(p) {
        Some((c, s, b, w, h)) => video_id(c, s, b, w, h),
        Option::None => 0,
    }
}

impl PresetFormat {
    /// The identifier of this preset.
    pub fn id(self) -> (r: FormatID)
        ensures
            r.0 == preset_id(self),
    {
        let v: i32 = match self {
            PresetFormat::Unknown => 0,
            PresetFormat::Gray8 => make_video_id(ColorFamily::Gray, SampleType::Integer, 8, 0, 0),
            PresetFormat::Gray9 => make_video_id(ColorFamily::Gray, SampleType::Integer, 9, 0, 0),
            PresetFormat::Gray10 => make_video_id(ColorFamily::Gray, SampleType::Integer, 10, 0, 0),
            PresetFormat::Gray12 => make_video_id(ColorFamily::Gray, SampleType::Integer, 12, 0, 0),
            PresetFormat::Gray14 => make_video_id(ColorFamily::Gray, SampleType::Integer, 14, 0, 0),
            PresetFormat::Gray16 => make_video_id(ColorFamily::Gray, SampleType::Integer, 16, 0, 0),
            PresetFormat::Gray32 => make_video_id(ColorFamily::Gray, SampleType::Integer, 32, 0, 0),
            PresetFormat::GrayH => make_video_id(ColorFamily::Gray, SampleType::Float, 16, 0, 0),
            PresetFormat::GrayS => make_video_id(ColorFamily::Gray, SampleType::Float, 32, 0, 0),
            PresetFormat::YUV410P8 => make_video_id(ColorFamily::YUV, SampleType::Integer, 8, 2, 2),
            PresetFormat::YUV411P8 => make_video_id(ColorFamily::YUV, SampleType::Integer, 8, 2, 0),
            PresetFormat::YUV440P8 => make_video_id(ColorFamily::YUV, SampleType::Integer, 8, 0, 1),
            PresetFormat::YUV420P8 => make_video_id(ColorFamily::YUV, SampleType::Integer, 8, 1, 1),
            PresetFormat::YUV422P8 => make_video_id(ColorFamily::YUV, SampleType::Integer, 8, 1, 0),
            PresetFormat::YUV444P8 => make_video_id(ColorFamily::YUV, SampleType::Integer, 8, 0, 0),
            PresetFormat::YUV420P9 => make_video_id(ColorFamily::YUV, SampleType::Integer, 9, 1, 1),
            PresetFormat::YUV422P9 => make_video_id(ColorFamily::YUV, SampleType::Integer, 9, 1, 0),
            PresetFormat::YUV444P9 => make_video_id(ColorFamily::YUV, SampleType::Integer, 9, 0, 0),
            PresetFormat::YUV420P10 => make_video_id(ColorFamily::YUV, SampleType::Integer, 10, 1, 1),
            PresetFormat::YUV422P10 => make_video_id(ColorFamily::YUV, SampleType::Integer, 10, 1, 0),
            PresetFormat::YUV444P10 => make_video_id(ColorFamily::YUV, SampleType::Integer, 10, 0, 0),
            PresetFormat::YUV420P12 => make_video_id(ColorFamily::YUV, SampleType::Integer, 12, 1, 1),
            PresetFormat::YUV422P12 => make_video_id(ColorFamily::YUV, SampleType::Integer, 12, 1, 0),
            PresetFormat::YUV444P12 => make_video_id(ColorFamily::YUV, SampleType::Integer, 12, 0, 0),
            PresetFormat::YUV420P14 => make_video_id(ColorFamily::YUV, SampleType::Integer, 14, 1, 1),
            PresetFormat::YUV422P14 => make_video_id(ColorFamily::YUV, SampleType::Integer, 14, 1, 0),
            PresetFormat::YUV444P14 => make_video_id(ColorFamily::YUV, SampleType::Integer, 14, 0, 0),
            PresetFormat::YUV420P16 => make_video_id(ColorFamily::YUV, SampleType::Integer, 16, 1, 1),
            PresetFormat::YUV422P16 => make_video_id(ColorFamily::YUV, SampleType::Integer, 16, 1, 0),
            PresetFormat::YUV444P16 => make_video_id(ColorFamily::YUV, SampleType::Integer, 16, 0, 0),
            PresetFormat::YUV420PH => make_video_id(ColorFamily::YUV, SampleType::Float, 16, 1, 1),
            PresetFormat::YUV420PS => make_video_id(ColorFamily::YUV, SampleType::Float, 32, 1, 1),
            PresetFormat::YUV422PH => make_video_id(ColorFamily::YUV, SampleType::Float, 16, 1, 0),
            PresetFormat::YUV422PS => make_video_id(ColorFamily::YUV, SampleType::Float, 32, 1, 0),
            PresetFormat::YUV444PH => make_video_id(ColorFamily::YUV, SampleType::Float, 16, 0, 0),
            PresetFormat::YUV444PS => make_video_id(ColorFamily::YUV, SampleType::Float, 32, 0, 0),
            PresetFormat::RGB24 => make_video_id(ColorFamily::RGB, SampleType::Integer, 8, 0, 0),
            PresetFormat::RGB27 => make_video_id(ColorFamily::RGB, SampleType::Integer, 9, 0, 0),
            PresetFormat::RGB30 => make_video_id(ColorFamily::RGB, SampleType::Integer, 10, 0, 0),
            PresetFormat::RGB36 => make_video_id(ColorFamily::RGB, SampleType::Integer, 12, 0, 0),
            PresetFormat::RGB42 => make_video_id(ColorFamily::RGB, SampleType::Integer, 14, 0, 0),
            PresetFormat::RGB48 => make_video_id(ColorFamily::RGB, SampleType::Integer, 16, 0, 0),
            PresetFormat::RGBH => make_video_id(ColorFamily::RGB, SampleType::Float, 16, 0, 0),
            PresetFormat::RGBS => make_video_id(ColorFamily::RGB, SampleType::Float, 32, 0, 0),
        };
        FormatID(v)
    }
}

impl From<PresetFormat> for FormatID {
    fn from(x: PresetFormat) -> (r: FormatID) {
        x.id()
    }
}

impl vstd::std_specs::convert::FromSpecImpl<PresetFormat> for FormatID {
    open spec fn obeys_from_spec() -> bool {
        true
    }

    open spec fn from_spec(x: PresetFormat) -> FormatID {
        FormatID(preset_id(x) as i32)
    }
}

impl From<i32> for FormatID {
    fn from(x: i32) -> (r: FormatID) {
        FormatID(x)
    }
}

impl vstd::std_specs::convert::FromSpecImpl<i32> for FormatID {
    open spec fn obeys_from_spec() -> bool {
        true
    }

    open spec fn from_spec(x: i32) -> FormatID {
        FormatID(x)
    }
}

impl From<FormatID> for i32 {
    fn from(x: FormatID) -> (r: i32) {
        x.0
    }
}

impl vstd::std_specs::convert::FromSpecImpl<FormatID> for i32 {
    open spec fn obeys_from_spec() -> bool {
        true
    }

    open spec fn from_spec(x: FormatID) -> i32 {
        x.0
    }
}


/// What a format describes, as plain values.
pub struct FormatModel {
    pub color_family: ColorFamily,
    pub sample_type: SampleType,
    pub bits_per_sample: nat,
    pub bytes_per_sample: nat,
    pub sub_sampling_w: nat,
    pub sub_sampling_h: nat,
    pub plane_count: nat,
    pub name: Seq<char>,
}

/// Contains information about a video format, as the engine reports it.
#[derive(Debug)]
pub struct Format {
    color_family: ColorFamily,
    sample_type: SampleType,
    bits_per_sample: u8,
    bytes_per_sample: u8,
    sub_sampling_w: u8,
    sub_sampling_h: u8,
    plane_count: u8,
    name: String,
}

impl View for Format {
    type V = FormatModel;

    closed spec fn view(&self) -> FormatModel {
        FormatModel {
            color_family: self.color_family,
            sample_type: self.sample_type,
            bits_per_sample: self.bits_per_sample as nat,
            bytes_per_sample: self.bytes_per_sample as nat,
            sub_sampling_w: self.sub_sampling_w as nat,
            sub_sampling_h: self.sub_sampling_h as nat,
            plane_count: self.plane_count as nat,
            name: self.name@,
        }
    }
}

/// Two formats are equal when their identifiers are.
impl PartialEq for Format {
    fn eq(&self, other: &Format) -> (r: bool) {
        self.id() == other.id()
    }
}

impl vstd::std_specs::cmp::PartialEqSpecImpl for Format {
    open spec fn obeys_eq_spec() -> bool {
        true
    }

    open spec fn eq_spec(&self, other: &Format) -> bool {
        format_id(self@) == format_id(other@)
    }
}

/// The identifier of a format.
pub open spec fn format_id(f: FormatModel) -> int {
    video_id(f.color_family, f.sample_type, f.bits_per_sample as int, f.sub_sampling_w as int, f.sub_sampling_h as int)
}

impl Format {
    /// A format with the given components and printable name.
    pub fn new(
        color_family: ColorFamily,
        sample_type: SampleType,
        bits_per_sample: u8,
        bytes_per_sample: u8,
        sub_sampling_w: u8,
        sub_sampling_h: u8,
        plane_count: u8,
        name: &str,
    ) -> (r: Format)
        ensures
            r@ == (FormatModel {
                color_family,
                sample_type,
                bits_per_sample: bits_per_sample as nat,
                bytes_per_sample: bytes_per_sample as nat,
                sub_sampling_w: sub_sampling_w as nat,
                sub_sampling_h: sub_sampling_h as nat,
                plane_count: plane_count as nat,
                name: name@,
            }),
    {
        Format {
            color_family,
            sample_type,
            bits_per_sample,
            bytes_per_sample,
            sub_sampling_w,
            sub_sampling_h,
            plane_count,
            name: name.to_owned(),
        }
    }

    /// The unique identifier of this format.
    pub fn id(&self) -> (r: FormatID)
        ensures
            r.0 == format_id(self@),
    {
        FormatID(
            make_video_id(
                self.color_family,
                self.sample_type,
                self.bits_per_sample as i32,
                self.sub_sampling_w as i32,
                self.sub_sampling_h as i32,
            ),
        )
    }

    /// The printable name of this format.
    pub fn name(&self) -> (r: &str)
        ensures
            r@ == self@.name,
    {
        self.name.as_str()
    }

    /// The number of planes.
    pub fn plane_count(&self) -> (r: usize)
        ensures
            r == self@.plane_count,
    {
        self.plane_count as usize
    }

    /// The color family.
    pub fn color_family(&self) -> (r: ColorFamily)
        ensures
            r == self@.color_family,
    {
        self.color_family
    }

    /// The sample type.
    pub fn sample_type(&self) -> (r: SampleType)
        ensures
            r == self@.sample_type,
    {
        self.sample_type
    }

    /// The number of significant bits per sample.
    pub fn bits_per_sample(&self) -> (r: u8)
        ensures
            r == self@.bits_per_sample,
    {
        self.bits_per_sample
    }

    /// The number of bytes that one sample takes.
    pub fn bytes_per_sample(&self) -> (r: u8)
        ensures
            r == self@.bytes_per_sample,
    {
        self.bytes_per_sample
    }

    /// The log2 horizontal subsampling factor, applied to the second and third plane.
    pub fn sub_sampling_w(&self) -> (r: u8)
        ensures
            r == self@.sub_sampling_w,
    {
        self.sub_sampling_w
    }

    /// The log2 vertical subsampling factor, applied to the second and third plane.
    pub fn sub_sampling_h(&self) -> (r: u8)
        ensures
            r == self@.sub_sampling_h,
    {
        self.sub_sampling_h
    }
}

} // verus!
