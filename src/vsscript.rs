//! The decisions of the script environment: the interface version check, evaluation flags, the
//! outputs and variables that a script leaves, and the checks of a script's green clip.

use vstd::prelude::*;

use crate::api::{after_resolve, c_string_bytes, c_string_of, EntryPointCache, NulError};
use crate::node::{c_prefix, message_from_buffer};
use crate::frame::{green_frame_test, has_duration_props, is_green_frame, props_test, Frame, FrameModel, Framerate, Property, Resolution, VideoInfo};
use crate::map::{handle_at, MapModel, OwnedMap, ValueType};

verus! {

/// The major version of the script interface that this crate speaks.
pub const SCRIPT_API_MAJOR: u32 = 4;

/// The lowest minor version of the script interface that this crate accepts.
pub const SCRIPT_API_MINOR: u32 = 1;

/// Script file evaluation flags.
#[derive(Debug, Clone, Copy, PartialEq, Eq, Structural)]
pub enum EvalFlags {
    Nothing,
    /// The working directory is changed to the script's directory for the evaluation.
    SetWorkingDir,
}

impl EvalFlags {
    /// Whether the evaluation runs in the script's directory: the flag is set before the
    /// evaluation and cleared after it.
    pub fn sets_working_dir(self) -> (r: bool)
        ensures
            r == (self == EvalFlags::SetWorkingDir),
    {
        match self {
            EvalFlags::Nothing => false,
            EvalFlags::SetWorkingDir => true,
        }
    }
}

/// Errors of the script environment.
#[derive(Debug)]
pub enum ScriptError {
    /// The script interface is missing, or its version is not one this crate speaks.
    UnsupportedVersion { major: u32, minor: u32 },
    /// The engine could not create a script environment.
    ScriptCreationFailed,
    /// The path of a script file is not valid UTF-8.
    PathInvalidUnicode,
    /// A string holds a NUL byte.
    CStringConversion(NulError),
    /// The evaluation failed with this message.
    Evaluation(Vec<u8>),
    /// The engine's entry points could not be had.
    NoAPI,
    /// No node is set for output at the index.
    NoOutput,
    /// The environment has no core.
    NoCore,
    /// The variable does not exist.
    NoSuchVariable,
}

/// The script interface version `v` is accepted: the same major version and a minor version at
/// least this crate's.
pub open spec fn script_version_ok(v: u32) -> bool {
    v / 0x1_0000 == SCRIPT_API_MAJOR && v % 0x1_0000 >= SCRIPT_API_MINOR
}

/// Checks the version that the script interface reports; anything but a compatible version is
/// refused.
pub fn check_script_api_version(v: i32) -> (r: Result<(), ScriptError>)
    ensures
        script_version_ok(v as u32) ==> r is Ok,
        !script_version_ok(v as u32) ==> (r matches Err(ScriptError::UnsupportedVersion { major, minor })
            && major == (v as u32) / 0x1_0000 && minor == (v as u32) % 0x1_0000),
{
    let u = v as u32;
    let major = u / 0x1_0000;
    let minor = u % 0x1_0000;
    if major != SCRIPT_API_MAJOR || minor < SCRIPT_API_MINOR {
        Err(ScriptError::UnsupportedVersion { major, minor })
    } else {
        Ok(())
    }
}

/// Makes sure that the script interface is initialized: a cached table is kept; otherwise
/// `fetched`, the table that the foreign lookup gave with the version it reports, is checked and
/// cached. Fails when the lookup gave nothing or an unsupported version.
pub fn maybe_initialize(cache: &mut EntryPointCache, fetched: Option<(u64, i32)>) -> (r: Result<u64, ScriptError>)
    ensures
        old(cache)@.table matches Some(t) ==> r matches Ok(u) && u == t && final(cache)@ == old(cache)@,
        old(cache)@.table is None ==> match fetched {
            None => r matches Err(ScriptError::NoAPI) && final(cache)@ == old(cache)@,
            Some((h, v)) => if script_version_ok(v as u32) {
                r matches Ok(u) && u == h && final(cache)@ == after_resolve(old(cache)@, Some(h))
            } else {
                r matches Err(ScriptError::UnsupportedVersion { .. }) && final(cache)@ == old(cache)@
            },
        },
{
    if let Some(t) = cache.cached() {
        return Ok(t);
    }
    match fetched {
        None => Err(ScriptError::NoAPI),
        Some((h, v)) => {
            check_script_api_version(v)?;
            cache.resolve(Some(h));
            Ok(h)
        },
    }
}

/// What a script evaluation reads: a script held in a string, or a script file.
#[derive(Debug, Clone, Copy)]
pub enum ScriptSource<'a> {
    Script(&'a str),
    File(&'a str, EvalFlags),
}

/// The engine call that evaluates a script, with its arguments as NUL-terminated strings.
#[derive(Debug)]
pub enum Evaluation {
    /// Evaluate `script`, reporting errors against the file name `BUFFER_NAME`.
    Buffer { script: Vec<u8> },
    /// Evaluate the file at `path`, in its directory when `set_working_dir` holds: the flag is set
    /// before the call and cleared after it.
    File { path: Vec<u8>, set_working_dir: bool },
}

/// The name under which a script held in a string is evaluated.
pub const BUFFER_NAME: &'static str = "<string>";

/// The evaluation of `source`, or the NUL byte that prevents it.
pub fn plan_evaluation(source: ScriptSource) -> (r: Result<Evaluation, ScriptError>)
    ensures
        match source {
            ScriptSource::Script(s) => match c_string_of(s) {
                Some(b) => r matches Ok(Evaluation::Buffer { script }) && script@ == b,
                None => r matches Err(ScriptError::CStringConversion(_)),
            },
            ScriptSource::File(p, flags) => match c_string_of(p) {
                Some(b) => r matches Ok(Evaluation::File { path, set_working_dir }) && path@ == b
                    && set_working_dir == (flags == EvalFlags::SetWorkingDir),
                None => r matches Err(ScriptError::CStringConversion(_)),
            },
        },
{
    match source {
        ScriptSource::Script(s) => {
            let script = match c_string_bytes(s) {
                Ok(b) => b,
                Err(e) => return Err(ScriptError::CStringConversion(e)),
            };
            Ok(Evaluation::Buffer { script })
        },
        ScriptSource::File(p, flags) => {
            let path = match c_string_bytes(p) {
                Ok(b) => b,
                Err(e) => return Err(ScriptError::CStringConversion(e)),
            };
            Ok(Evaluation::File { path, set_working_dir: flags.sets_working_dir() })
        },
    }
}

/// The outcome of an evaluation that returned `status`: zero for success, else the failure with
/// the message that the engine reports.
pub fn evaluation_result(status: i32, message: &[u8]) -> (r: Result<(), ScriptError>)
    ensures
        status == 0 ==> r is Ok,
        status != 0 ==> (r matches Err(ScriptError::Evaluation(m)) && m@ == c_prefix(message@)),
{
    if status != 0 {
        Err(ScriptError::Evaluation(message_from_buffer(message)))
    } else {
        Ok(())
    }
}

/// The outputs at one index: the node, which must be there, and the alpha node, if any.
pub fn output_nodes(node: Option<u64>, alpha: Option<u64>) -> (r: Result<(u64, Option<u64>), ScriptError>)
    ensures
        node is None ==> r matches Err(ScriptError::NoOutput),
        node matches Some(n) ==> r matches Ok(p) && p.0 == n && p.1 == alpha,
{
    match node {
        None => Err(ScriptError::NoOutput),
        Some(n) => Ok((n, alpha)),
    }
}

/// The outcome of a variable lookup whose status code is `status`: zero for success.
pub fn variable_status(status: i32) -> (r: Result<(), ScriptError>)
    ensures
        status == 0 ==> r is Ok,
        status != 0 ==> r matches Err(ScriptError::NoSuchVariable),
{
    if status != 0 {
        Err(ScriptError::NoSuchVariable)
    } else {
        Ok(())
    }
}

/// The variables read from a script that set the clip `video`: exactly one key, `video`, holding
/// a node.
pub open spec fn has_video_variable(m: MapModel) -> bool {
    &&& m.props.len() == 1
    &&& m.props.contains_key("video"@)
    &&& handle_at(m, "video"@, 0, ValueType::Node) is Ok
}

/// Whether `vars` holds exactly the clip variable `video`, as a node.
pub fn env_video_var_test(vars: &OwnedMap) -> (r: bool)
    requires
        vars.wf(),
    ensures
        r == has_video_variable(vars@),
{
    if vars.key_count() != 1 {
        return false;
    }
    match vars.get_node("video") {
        Ok(_) => true,
        Err(_) => false,
    }
}

/// The outputs of a script that makes a constant green clip: no alpha node; a clip of 100 frames
/// of 1920 by 1080 pixels in 8-bit RGB at 60 frames per second; a first frame that is green with
/// the duration properties of that rate; and the clip in the variable `video`.
pub open spec fn is_green_output(info: &VideoInfo, has_alpha: bool, frame: FrameModel, vars: MapModel) -> bool {
    &&& !has_alpha
    &&& info.format@.name == "RGB24"@
    &&& info.framerate == Property::Constant(Framerate { numerator: 60, denominator: 1 })
    &&& info.resolution == Property::Constant(Resolution { width: 1920, height: 1080 })
    &&& info.num_frames == 100
    &&& is_green_frame(frame)
    &&& has_duration_props(frame.props, 60)
    &&& has_video_variable(vars)
}

/// Whether a script's outputs are those of the constant green clip: its clip information, whether
/// it set an alpha node, its first frame and its variables.
pub fn green_test(info: &VideoInfo, has_alpha: bool, frame: &Frame, vars: &OwnedMap) -> (r: bool)
    requires
        frame.wf(),
        vars.wf(),
    ensures
        r == is_green_output(info, has_alpha, frame@, vars@),
{
    if has_alpha {
        return false;
    }
    if info.format.name().to_owned() != "RGB24".to_owned() {
        return false;
    }
    let rate_ok = match info.framerate {
        Property::Constant(f) => f.numerator == 60 && f.denominator == 1,
        Property::Variable => false,
    };
    let size_ok = match info.resolution {
        Property::Constant(s) => s.width == 1920 && s.height == 1080,
        Property::Variable => false,
    };
    rate_ok && size_ok && info.num_frames == 100 && green_frame_test(frame) && props_test(frame, 60)
        && env_video_var_test(vars)
}

} // verus!
