//! The filter bridge: the two-phase frame request protocol, the messages that report a filter's
//! failure to the engine, and the values that configure a plugin and register its filters.

use vstd::prelude::*;

use crate::api::{api_version, c_string_bytes, c_string_of, NulError, API_MAJOR, API_MINOR};

verus! {

/// Why the engine calls a filter's frame function.
#[derive(Debug, Clone, Copy, PartialEq, Eq, Structural)]
pub enum Activation {
    /// First call for a frame: produce it at once, or request the upstream frames it needs.
    Initial,
    /// Every requested upstream frame is available.
    AllFramesReady,
    /// An upstream request failed.
    Error,
}

/// The activation with the engine's code `x`.
pub open spec fn activation_of(x: int) -> Option<Activation> {
    if x == 0 {
        Some(Activation::Initial)
    } else if x == 1 {
        Some(Activation::AllFramesReady)
    } else if x == -1 {
        Some(Activation::Error)
    } else {
        None
    }
}

impl Activation {
    /// The activation with the engine's code `x`, if there is one.
    pub fn from_code(x: i32) -> (r: Option<Activation>)
        ensures
            r == activation_of(x as int),
    {
        match x {
            0 => Some(Activation::Initial),
            1 => Some(Activation::AllFramesReady),
            -1 => Some(Activation::Error),
            _ => None,
        }
    }
}

/// An upstream frame: a node and a frame index.
#[derive(Debug, Clone, Copy, PartialEq, Eq, Structural)]
pub struct FrameKey {
    pub node: u64,
    pub index: usize,
}

/// A token for one call of a filter's frame function; it records the upstream frames that the
/// filter requests during the initial phase and may not outlive that call.
pub struct FrameContext {
    activation: Activation,
    requested: Vec<FrameKey>,
}

impl FrameContext {
    /// The token of a call made for `activation`.
    pub fn new(activation: Activation) -> (r: FrameContext)
        ensures
            r.activation() == activation,
            r.requested() == Seq::<FrameKey>::empty(),
    {
        FrameContext { activation, requested: Vec::new() }
    }

    /// Why the call was made.
    pub fn reason(&self) -> (r: Activation)
        ensures
            r == self.activation(),
    {
        self.activation
    }

    /// Why the call was made.
    pub closed spec fn activation(&self) -> Activation {
        self.activation
    }

    /// The upstream frames requested so far, in order.
    pub closed spec fn requested(&self) -> Seq<FrameKey> {
        self.requested@
    }

    /// The index of the output whose frame is requested. The engine's interface has a single
    /// output per filter, so this is always zero.
    pub fn output_index(&self) -> (r: usize)
        ensures
            r == 0,
    {
        0
    }

    /// Requests an upstream frame; allowed in the initial phase only.
    pub fn request_frame_filter(&mut self, node: u64, index: usize)
        requires
            old(self).activation() == Activation::Initial,
        ensures
            final(self).activation() == Activation::Initial,
            final(self).requested() == old(self).requested().push(FrameKey { node, index }),
    {
        self.requested.push(FrameKey { node, index });
    }

    /// Hands over the requested upstream frames.
    pub fn into_requested(self) -> (r: Vec<FrameKey>)
        ensures
            r@ == self.requested(),
    {
        self.requested
    }
}

/// Where the computation of one output frame stands.
#[derive(Debug)]
pub enum RequestState {
    /// The filter has not been called for the frame.
    NotStarted,
    /// The filter requested these upstream frames and waits for them.
    Waiting(Vec<FrameKey>),
    /// The filter produced this frame.
    Produced(u64),
    /// The filter failed with this message.
    Failed(String),
}

/// What the bridge does on an activation.
#[derive(Debug, Clone, Copy, PartialEq, Eq, Structural)]
pub enum Phase {
    /// Call the filter's initial phase.
    CallInitial,
    /// Call the filter's final phase.
    CallAllFramesReady,
    /// Call nothing and hand no frame back.
    Ignore,
}

/// The phase to run for `activation` in state `s`: the initial phase runs once, on a frame not
/// yet started; the final phase only once every requested frame is there.
pub open spec fn phase_of(s: RequestState, activation: Option<Activation>) -> Phase {
    match (s, activation) {
        (RequestState::NotStarted, Some(Activation::Initial)) => Phase::CallInitial,
        (RequestState::Waiting(_), Some(Activation::AllFramesReady)) => Phase::CallAllFramesReady,
        _ => Phase::Ignore,
    }
}

/// Decides what to do when the engine calls the frame function with `activation_code`.
pub fn dispatch(state: &RequestState, activation_code: i32) -> (r: Phase)
    ensures
        r == phase_of(*state, activation_of(activation_code as int)),
{
    match (state, Activation::from_code(activation_code)) {
        (RequestState::NotStarted, Some(Activation::Initial)) => Phase::CallInitial,
        (RequestState::Waiting(_), Some(Activation::AllFramesReady)) => Phase::CallAllFramesReady,
        _ => Phase::Ignore,
    }
}

/// What the bridge hands back to the engine after a phase.
#[derive(Debug)]
pub enum FilterAction {
    /// Return this frame, whose reference passes to the engine.
    ReturnFrame(u64),
    /// Return no frame: the filter waits for its requests.
    ReturnNothing,
    /// Report this message on the frame context and return no frame.
    ReportError(String),
}

/// `s` with every NUL character written as the two characters `\0`, so that it survives the
/// trip through a C string.
pub open spec fn escape_nul(s: Seq<char>) -> Seq<char>
    decreases s.len(),
{
    if s.len() == 0 {
        Seq::empty()
    } else {
        escape_nul(s.drop_last()) + if s.last() == '\0' {
            "\\0"@
        } else {
            seq![s.last()]
        }
    }
}

/// Writes every NUL character of `s` as `\0`.
pub fn escape_nul_chars(s: &str) -> (r: String)
    ensures
        r@ == escape_nul(s@),
{
    let n = s.unicode_len();
    let mut out = String::new();
    let mut i: usize = 0;
    while i < n
        invariant
            n == s@.len(),
            i <= n,
            out@ == escape_nul(s@.subrange(0, i as int)),
        decreases n - i,
    {
        let c = s.get_char(i);
        let ghost before = out@;
        if c == '\0' {
            out.append("\\0");
        } else {
            out.append(s.substring_char(i, i + 1));
        }
        proof {
            let t = s@.subrange(0, i + 1);
            assert(t.drop_last() =~= s@.subrange(0, i as int));
            assert(t.last() == c);
            if c != '\0' {
                assert(s@.subrange(i as int, i + 1) =~= seq![c]);
            }
        }
        i = i + 1;
    }
    assert(s@.subrange(0, n as int) =~= s@);
    out
}

/// The message reported when the initial phase fails with `e`.
pub open spec fn initial_error_message(e: Seq<char>) -> Seq<char> {
    "Error in Filter::get_frame_initial(): "@ + escape_nul(e)
}

/// The message reported when creating a filter named `name` fails with `e`.
pub open spec fn create_error_message(name: Seq<char>, e: Seq<char>) -> Seq<char> {
    "Error in Filter::create() of "@ + name + ": "@ + escape_nul(e)
}

/// The message reported when creating the filter `name` fails with `error`.
pub fn create_error(name: &str, error: &str) -> (r: String)
    ensures
        r@ == create_error_message(name@, error@),
{
    let mut out = String::from_str("Error in Filter::create() of ");
    out.append(name);
    out.append(": ");
    let escaped = escape_nul_chars(error);
    out.append(escaped.as_str());
    out
}

/// The frame `f` was produced and is handed back.
pub open spec fn is_produced(r: (RequestState, FilterAction), f: u64) -> bool {
    match r {
        (RequestState::Produced(g), FilterAction::ReturnFrame(h)) => g == f && h == f,
        _ => false,
    }
}

/// The filter waits for the upstream frames `keys` and hands nothing back.
pub open spec fn is_waiting(r: (RequestState, FilterAction), keys: Seq<FrameKey>) -> bool {
    match r {
        (RequestState::Waiting(k), FilterAction::ReturnNothing) => k@ == keys,
        _ => false,
    }
}

/// The computation failed with `msg`, which is reported once.
pub open spec fn is_failed(r: (RequestState, FilterAction), msg: Seq<char>) -> bool {
    match r {
        (RequestState::Failed(m), FilterAction::ReportError(m2)) => m@ == msg && m2@ == msg,
        _ => false,
    }
}

/// What the bridge does after a filter's creation gave its result.
#[derive(Debug)]
pub enum CreateOutcome<F> {
    /// Register this filter instance with the engine.
    Register(F),
    /// The function returned no filter: nothing to register.
    Nothing,
    /// Write this message into the output map as its error.
    ReportError(String),
}

/// The outcome of creating the filter `name`, whose creation function gave `result`.
pub fn after_create<F>(name: &str, result: Result<Option<F>, &str>) -> (r: CreateOutcome<F>)
    ensures
        match result {
            Ok(Some(f)) => r == CreateOutcome::Register(f),
            Ok(None) => r is Nothing,
            Err(e) => r matches CreateOutcome::ReportError(m) && m@ == create_error_message(name@, e@),
        },
{
    match result {
        Ok(Some(f)) => CreateOutcome::Register(f),
        Ok(None) => CreateOutcome::Nothing,
        Err(e) => CreateOutcome::ReportError(create_error(name, e)),
    }
}

/// The state and the action after the initial phase gave `result`, where `context` recorded the
/// requests that the filter made: a frame at once, a wait for the requested frames, or a failure
/// reported with its message.
pub fn after_initial(result: Result<Option<u64>, &str>, context: FrameContext) -> (r: (RequestState, FilterAction))
    ensures
        match result {
            Ok(Some(f)) => is_produced(r, f),
            Ok(None) => is_waiting(r, context.requested()),
            Err(e) => is_failed(r, initial_error_message(e@)),
        },
{
    match result {
        Ok(Some(f)) => (RequestState::Produced(f), FilterAction::ReturnFrame(f)),
        Ok(None) => (RequestState::Waiting(context.into_requested()), FilterAction::ReturnNothing),
        Err(e) => {
            let mut m = String::from_str("Error in Filter::get_frame_initial(): ");
            let escaped = escape_nul_chars(e);
            m.append(escaped.as_str());
            let m2 = m.clone();
            (RequestState::Failed(m), FilterAction::ReportError(m2))
        },
    }
}

/// The state and the action after the final phase gave `result`: the frame, or a failure
/// reported with its message.
pub fn after_all_frames_ready(result: Result<u64, &str>) -> (r: (RequestState, FilterAction))
    ensures
        match result {
            Ok(f) => is_produced(r, f),
            Err(e) => is_failed(r, escape_nul(e@)),
        },
{
    match result {
        Ok(f) => (RequestState::Produced(f), FilterAction::ReturnFrame(f)),
        Err(e) => {
            let m = escape_nul_chars(e);
            let m2 = m.clone();
            (RequestState::Failed(m), FilterAction::ReportError(m2))
        },
    }
}

/// Whether the final phase may fetch `key`: only a frame that the initial phase requested.
pub fn fetch_allowed(state: &RequestState, key: FrameKey) -> (r: bool)
    ensures
        r == (state matches RequestState::Waiting(k) && k@.contains(key)),
{
    match state {
        RequestState::Waiting(k) => {
            let mut i: usize = 0;
            while i < k.len()
                invariant
                    *state == RequestState::Waiting(*k),
                    i <= k@.len(),
                    forall|j: int| 0 <= j < i ==> k@[j] != key,
                decreases k@.len() - i,
            {
                if k[i] == key {
                    assert(k@[i as int] == key);
                    return true;
                }
                i = i + 1;
            }
            false
        },
        _ => false,
    }
}

/// A frame that was produced or failed stays so: no later activation runs a phase again, and
/// the initial phase runs only on a frame not yet started.
pub proof fn law_terminal_states_absorb(f: u64, m: String, keys: Vec<FrameKey>, a: Option<Activation>)
    ensures
        phase_of(RequestState::Produced(f), a) == Phase::Ignore,
        phase_of(RequestState::Failed(m), a) == Phase::Ignore,
        phase_of(RequestState::Waiting(keys), a) != Phase::CallInitial,
        phase_of(RequestState::NotStarted, a) != Phase::CallAllFramesReady,
{
}

/// Escaping keeps a string without NUL characters as it is.
pub proof fn law_escape_without_nul(s: Seq<char>)
    requires
        forall|i: int| 0 <= i < s.len() ==> s[i] != '\0',
    ensures
        escape_nul(s) == s,
    decreases s.len(),
{
    if s.len() > 0 {
        law_escape_without_nul(s.drop_last());
        assert(s.drop_last() + seq![s.last()] =~= s);
    }
}

/// A plugin's identity as its entry point declares it.
#[derive(Debug, Clone, Copy)]
pub struct Metadata {
    pub identifier: &'static str,
    pub namespace: &'static str,
    pub name: &'static str,
    pub read_only: bool,
}

/// The engine's flag for a plugin that may register functions after loading.
pub const PLUGIN_MODIFIABLE: i32 = 1;

/// The values handed to the engine's plugin configuration: NUL-terminated strings, the plugin
/// version, the interface version and the flags.
#[derive(Debug)]
pub struct PluginConfig {
    pub identifier: Vec<u8>,
    pub namespace: Vec<u8>,
    pub name: Vec<u8>,
    pub plugin_version: i32,
    pub api_version: i32,
    pub flags: i32,
}

/// The configuration of a plugin with `metadata`: a read-only plugin has no flags, another is
/// modifiable. Fails when one of the strings holds a NUL byte.
pub fn plugin_config(metadata: &Metadata) -> (r: Result<PluginConfig, NulError>)
    ensures
        r is Ok <==> (c_string_of(metadata.identifier) is Some && c_string_of(metadata.namespace) is Some
            && c_string_of(metadata.name) is Some),
        r matches Ok(c) ==> {
            &&& Some(c.identifier@) == c_string_of(metadata.identifier)
            &&& Some(c.namespace@) == c_string_of(metadata.namespace)
            &&& Some(c.name@) == c_string_of(metadata.name)
            &&& c.plugin_version == 1
            &&& c.api_version == API_MAJOR * 0x1_0000 + API_MINOR
            &&& c.flags == (if metadata.read_only { 0 } else { PLUGIN_MODIFIABLE })
        },
{
    let identifier = c_string_bytes(metadata.identifier)?;
    let namespace = c_string_bytes(metadata.namespace)?;
    let name = c_string_bytes(metadata.name)?;
    let flags = if metadata.read_only {
        0
    } else {
        PLUGIN_MODIFIABLE
    };
    Ok(PluginConfig { identifier, namespace, name, plugin_version: 1, api_version: api_version(), flags })
}

/// The strings that register a filter: its name, its argument signature and its return
/// signature, each NUL-terminated.
#[derive(Debug)]
pub struct FilterRegistration {
    pub name: Vec<u8>,
    pub args: Vec<u8>,
    pub return_type: Vec<u8>,
}

/// The registration of a filter, or the NUL byte that prevents it.
pub fn filter_registration(name: &str, args: &str, return_type: &str) -> (r: Result<FilterRegistration, NulError>)
    ensures
        r is Ok <==> (c_string_of(name) is Some && c_string_of(args) is Some && c_string_of(return_type) is Some),
        r matches Ok(f) ==> {
            &&& Some(f.name@) == c_string_of(name)
            &&& Some(f.args@) == c_string_of(args)
            &&& Some(f.return_type@) == c_string_of(return_type)
        },
{
    let name = c_string_bytes(name)?;
    let args = c_string_bytes(args)?;
    let return_type = c_string_bytes(return_type)?;
    Ok(FilterRegistration { name, args, return_type })
}

} // verus!
