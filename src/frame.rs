//! Frames: pixel planes laid out row by row, with a property map.

use vstd::prelude::*;

use crate::format::{Format, FormatModel};
use crate::map::{int_array, MapError, MapModel, OwnedMap};

verus! {

/// The dimensions of a plane or a clip, in pixels.
#[derive(Debug, Clone, Copy, PartialEq, Eq, Structural)]
pub struct Resolution {
    pub width: usize,
    pub height: usize,
}

/// A frame rate as a fraction.
#[derive(Debug, Clone, Copy, PartialEq, Eq, Structural)]
pub struct Framerate {
    pub numerator: u64,
    pub denominator: u64,
}

/// A clip property that is either the same for every frame or varies between frames.
#[derive(Debug, Clone, Copy, PartialEq, Eq, Structural)]
pub enum Property<T> {
    Variable,
    Constant(T),
}

/// Information about a clip.
#[derive(Debug)]
pub struct VideoInfo {
    pub format: Format,
    pub framerate: Property<Framerate>,
    pub resolution: Property<Resolution>,
    pub num_frames: usize,
}

impl VideoInfo {
    /// Builds clip information from the engine's raw fields, where a zero frame rate or a zero
    /// dimension means that the property varies between frames.
    pub fn from_raw(format: Format, fps_num: u64, fps_den: u64, width: u32, height: u32, num_frames: u32) -> (r: VideoInfo)
        ensures
            r.format@ == format@,
            r.num_frames == num_frames,
            (fps_num == 0 || fps_den == 0) ==> r.framerate == Property::<Framerate>::Variable,
            (fps_num != 0 && fps_den != 0) ==> r.framerate == Property::Constant(
                Framerate { numerator: fps_num, denominator: fps_den },
            ),
            (width == 0 || height == 0) ==> r.resolution == Property::<Resolution>::Variable,
            (width != 0 && height != 0) ==> r.resolution == Property::Constant(
                Resolution { width: width as usize, height: height as usize },
            ),
    {
        let framerate = if fps_num == 0 || fps_den == 0 {
            Property::Variable
        } else {
            Property::Constant(Framerate { numerator: fps_num, denominator: fps_den })
        };
        let resolution = if width == 0 || height == 0 {
            Property::Variable
        } else {
            Property::Constant(Resolution { width: width as usize, height: height as usize })
        };
        VideoInfo { format, framerate, resolution, num_frames: num_frames as usize }
    }
}

/// One plane of pixel data: `height` rows, each starting `stride` bytes after the previous one.
pub struct Plane {
    pub width: usize,
    pub height: usize,
    pub stride: usize,
    pub data: Vec<u8>,
}

/// A plane as plain values.
pub struct PlaneModel {
    pub width: nat,
    pub height: nat,
    pub stride: nat,
    pub data: Seq<u8>,
}

/// A frame as plain values.
pub struct FrameModel {
    pub format: FormatModel,
    pub planes: Seq<PlaneModel>,
    pub props: MapModel,
}

impl View for Plane {
    type V = PlaneModel;

    open spec fn view(&self) -> PlaneModel {
        PlaneModel {
            width: self.width as nat,
            height: self.height as nat,
            stride: self.stride as nat,
            data: self.data@,
        }
    }
}

/// A plane's rows fit its data: each row of `width` samples of `bytes` bytes lies within its
/// stride, and the data holds exactly `height` strides.
pub open spec fn plane_fits(p: PlaneModel, bytes: nat) -> bool {
    &&& p.width * bytes <= p.stride
    &&& p.data.len() == p.stride * p.height
}

/// The bytes of row `row` of plane `p`.
pub open spec fn row_bytes(p: PlaneModel, bytes: nat, row: int) -> Seq<u8> {
    p.data.subrange(row * p.stride, row * p.stride + p.width * bytes)
}

/// Whether a plane's rows fit its data.
fn fits(p: &Plane, bytes: usize) -> (r: bool)
    ensures
        r == plane_fits(p@, bytes as nat),
{
    let len = p.data.len();
    let w = match p.width.checked_mul(bytes) {
        Some(w) => w,
        None => return false,
    };
    if w > p.stride {
        return false;
    }
    match p.stride.checked_mul(p.height) {
        Some(n) => n == len,
        None => false,
    }
}

/// Why the parts of a frame do not fit together.
#[derive(Debug, Clone, Copy, PartialEq, Eq, Structural)]
pub enum FrameError {
    /// The number of planes differs from the format's.
    PlaneCount,
    /// A plane's rows do not fit its stride or its data.
    PlaneLayout,
}

/// A frame: its format, its planes and its properties.
pub struct Frame {
    format: Format,
    planes: Vec<Plane>,
    props: OwnedMap,
}

impl View for Frame {
    type V = FrameModel;

    closed spec fn view(&self) -> FrameModel {
        FrameModel {
            format: self.format@,
            planes: self.planes@.map_values(|p: Plane| p@),
            props: self.props@,
        }
    }
}

/// The parts of a frame fit together.
pub open spec fn frame_fits(f: FrameModel) -> bool {
    &&& f.planes.len() == f.format.plane_count
    &&& forall|i: int| 0 <= i < f.planes.len() ==> plane_fits(#[trigger] f.planes[i], f.format.bytes_per_sample)
}

impl Frame {
    /// The frame's internal consistency.
    pub closed spec fn wf(&self) -> bool {
        &&& frame_fits(self@)
        &&& self.props.wf()
    }

    /// Puts a frame together from its parts, if they fit.
    pub fn new(format: Format, planes: Vec<Plane>, props: OwnedMap) -> (r: Result<Frame, FrameError>)
        requires
            props.wf(),
        ensures
            match r {
                Ok(f) => f.wf() && f@.format == format@ && f@.planes == planes@.map_values(|p: Plane| p@)
                    && f@.props == props@,
                Err(FrameError::PlaneCount) => planes@.len() != format@.plane_count,
                Err(FrameError::PlaneLayout) => planes@.len() == format@.plane_count && exists|i: int|
                    0 <= i < planes@.len() && !plane_fits(#[trigger] planes@[i]@, format@.bytes_per_sample),
            },
    {
        if planes.len() != format.plane_count() {
            return Err(FrameError::PlaneCount);
        }
        let bytes = format.bytes_per_sample() as usize;
        let mut i: usize = 0;
        while i < planes.len()
            invariant
                i <= planes@.len(),
                bytes == format@.bytes_per_sample,
                planes@.len() == format@.plane_count,
                forall|j: int| 0 <= j < i ==> plane_fits(#[trigger] planes@[j]@, bytes as nat),
            decreases planes@.len() - i,
        {
            if !fits(&planes[i], bytes) {
                assert(!plane_fits(planes@[i as int]@, format@.bytes_per_sample));
                return Err(FrameError::PlaneLayout);
            }
            i = i + 1;
        }
        let f = Frame { format, planes, props };
        assert(frame_fits(f@));
        Ok(f)
    }

    /// The frame's format.
    pub fn format(&self) -> (r: &Format)
        ensures
            r@ == self@.format,
    {
        &self.format
    }

    /// The frame's properties.
    pub fn props(&self) -> (r: &OwnedMap)
        requires
            self.wf(),
        ensures
            r@ == self@.props,
            r.wf(),
    {
        &self.props
    }

    /// The number of planes.
    pub fn plane_count(&self) -> (r: usize)
        requires
            self.wf(),
        ensures
            r == self@.planes.len(),
    {
        self.planes.len()
    }

    /// The width of a plane, in pixels.
    pub fn width(&self, plane: usize) -> (r: usize)
        requires
            plane < self@.planes.len(),
        ensures
            r == self@.planes[plane as int].width,
    {
        self.planes[plane].width
    }

    /// The height of a plane, in pixels.
    pub fn height(&self, plane: usize) -> (r: usize)
        requires
            plane < self@.planes.len(),
        ensures
            r == self@.planes[plane as int].height,
    {
        self.planes[plane].height
    }

    /// The resolution of a plane.
    pub fn resolution(&self, plane: usize) -> (r: Resolution)
        requires
            plane < self@.planes.len(),
        ensures
            r.width == self@.planes[plane as int].width,
            r.height == self@.planes[plane as int].height,
    {
        Resolution { width: self.planes[plane].width, height: self.planes[plane].height }
    }

    /// The distance in bytes between the starts of two consecutive rows of a plane.
    pub fn stride(&self, plane: usize) -> (r: usize)
        requires
            plane < self@.planes.len(),
        ensures
            r == self@.planes[plane as int].stride,
    {
        self.planes[plane].stride
    }

    /// The bytes of one row of a plane: its width times the bytes per sample.
    pub fn data_row(&self, plane: usize, row: usize) -> (r: &[u8])
        requires
            self.wf(),
            plane < self@.planes.len(),
            row < self@.planes[plane as int].height,
        ensures
            r@ == row_bytes(self@.planes[plane as int], self@.format.bytes_per_sample, row as int),
    {
        let p = &self.planes[plane];
        let bytes = self.format.bytes_per_sample() as usize;
        let _len = p.data.len();
        proof {
            assert(plane_fits(self@.planes[plane as int], bytes as nat));
            assert(p@ == self@.planes[plane as int]);
            assert(row * p.stride + p.width * bytes <= p.data@.len()) by (nonlinear_arith)
                requires
                    row < p.height,
                    p.width * bytes <= p.stride,
                    p.data@.len() == p.stride * p.height,
            {}
            assert(row * p.stride <= row * p.stride + p.width * bytes) by (nonlinear_arith)
                requires
                    p.width * bytes >= 0,
            {}
        }
        let start = row * p.stride;
        let end = start + p.width * bytes;
        vstd::slice::slice_subrange(p.data.as_slice(), start, end)
    }

    /// All the bytes of a plane, when its rows follow each other with no padding.
    pub fn plane(&self, plane: usize) -> (r: Option<&[u8]>)
        requires
            self.wf(),
            plane < self@.planes.len(),
        ensures
            r matches Some(d) ==> d@ == self@.planes[plane as int].data,
            r is Some <==> self@.planes[plane as int].stride == self@.planes[plane as int].width
                * self@.format.bytes_per_sample,
    {
        let p = &self.planes[plane];
        let bytes = self.format.bytes_per_sample() as usize;
        proof {
            assert(plane_fits(self@.planes[plane as int], bytes as nat));
        }
        if p.width * bytes == p.stride {
            Some(p.data.as_slice())
        } else {
            None
        }
    }

    /// Whether every sample byte of every row of a plane equals `value`.
    pub fn plane_is_filled(&self, plane: usize, value: u8) -> (r: bool)
        requires
            self.wf(),
            plane < self@.planes.len(),
        ensures
            r == plane_filled(self@.planes[plane as int], self@.format.bytes_per_sample, value),
    {
        let height = self.planes[plane].height;
        let mut row: usize = 0;
        while row < height
            invariant
                self.wf(),
                plane < self@.planes.len(),
                height == self@.planes[plane as int].height,
                row <= height,
                forall|r: int, c: int|
                    0 <= r < row && 0 <= c < row_bytes(self@.planes[plane as int], self@.format.bytes_per_sample, r).len()
                        ==> #[trigger] row_bytes(self@.planes[plane as int], self@.format.bytes_per_sample, r)[c] == value,
            decreases height - row,
        {
            let bytes = self.data_row(plane, row);
            let mut c: usize = 0;
            while c < bytes.len()
                invariant
                    self.wf(),
                    plane < self@.planes.len(),
                    height == self@.planes[plane as int].height,
                    row < height,
                    bytes@ == row_bytes(self@.planes[plane as int], self@.format.bytes_per_sample, row as int),
                    c <= bytes@.len(),
                    forall|k: int| 0 <= k < c ==> bytes@[k] == value,
                decreases bytes@.len() - c,
            {
                if bytes[c] != value {
                    assert(row_bytes(self@.planes[plane as int], self@.format.bytes_per_sample, row as int)[c as int]
                        != value);
                    return false;
                }
                c = c + 1;
            }
            row = row + 1;
        }
        true
    }
}

/// Every sample byte of every row of plane `p` equals `value`.
pub open spec fn plane_filled(p: PlaneModel, bytes: nat, value: u8) -> bool {
    forall|r: int, c: int|
        0 <= r < p.height && 0 <= c < row_bytes(p, bytes, r).len() ==> #[trigger] row_bytes(p, bytes, r)[c] == value
}

/// The frame of a constant green clip of 1920 by 1080 pixels in 8-bit RGB: the green plane is
/// all 255 and the other two are all 0.
pub open spec fn is_green_frame(f: FrameModel) -> bool {
    &&& f.format.name == "RGB24"@
    &&& f.format.bytes_per_sample == 1
    &&& f.planes.len() == 3
    &&& forall|i: int| 0 <= i < 3 ==> (#[trigger] f.planes[i]).width == 1920 && f.planes[i].height == 1080
        && plane_filled(f.planes[i], 1, if i == 1 { 255u8 } else { 0u8 })
}

/// The properties of a frame of a clip at `fps_num` frames per second: exactly two keys, each
/// with one integer, the frame duration `1 / fps_num` as `_DurationNum` = 1 and `_DurationDen` =
/// `fps_num`.
pub open spec fn has_duration_props(m: MapModel, fps_num: i64) -> bool {
    &&& m.props.len() == 2
    &&& int_array(m, "_DurationDen"@) == Ok::<Seq<i64>, MapError>(seq![fps_num])
    &&& int_array(m, "_DurationNum"@) == Ok::<Seq<i64>, MapError>(seq![1i64])
}

/// Whether `frame` is the frame of a constant green clip of 1920 by 1080 pixels in 8-bit RGB.
pub fn green_frame_test(frame: &Frame) -> (r: bool)
    requires
        frame.wf(),
    ensures
        r == is_green_frame(frame@),
{
    let format = frame.format();
    if format.name().to_owned() != "RGB24".to_owned() {
        return false;
    }
    if format.bytes_per_sample() != 1 || frame.plane_count() != 3 {
        return false;
    }
    let mut i: usize = 0;
    while i < 3
        invariant
            frame.wf(),
            i <= 3,
            frame@.planes.len() == 3,
            frame@.format.bytes_per_sample == 1,
            forall|j: int| 0 <= j < i ==> (#[trigger] frame@.planes[j]).width == 1920 && frame@.planes[j].height == 1080
                && plane_filled(frame@.planes[j], 1, if j == 1 { 255u8 } else { 0u8 }),
        decreases 3 - i,
    {
        let value: u8 = if i == 1 { 255 } else { 0 };
        if frame.width(i) != 1920 || frame.height(i) != 1080 || !frame.plane_is_filled(i, value) {
            return false;
        }
        i = i + 1;
    }
    true
}

/// Whether `frame` carries exactly the duration properties of a clip at `fps_num` frames per
/// second.
pub fn props_test(frame: &Frame, fps_num: i64) -> (r: bool)
    requires
        frame.wf(),
    ensures
        r == has_duration_props(frame@.props, fps_num),
{
    let props = frame.props();
    if props.key_count() != 2 {
        return false;
    }
    let den = match props.get_int_array("_DurationDen") {
        Ok(a) => a,
        Err(_) => return false,
    };
    let num = match props.get_int_array("_DurationNum") {
        Ok(a) => a,
        Err(_) => return false,
    };
    let r = den.len() == 1 && den[0] == fps_num && num.len() == 1 && num[0] == 1;
    proof {
        if r {
            assert(den@ =~= seq![fps_num]);
            assert(num@ =~= seq![1i64]);
        }
    }
    r
}

} // verus!
