//! Log message types, the conversion of strings for the foreign side, and the process-wide cache
//! of the engine's entry-point table.

use vstd::prelude::*;
use vstd::string::StringSliceAdditionalSpecFns;

verus! {

/// The major version of the engine's interface that this crate speaks.
pub const API_MAJOR: u32 = 4;

/// The minor version of the engine's interface that this crate speaks.
pub const API_MINOR: u32 = 0;

/// The interface version asked of the engine: the major version in the high 16 bits, the minor
/// version in the low ones.
pub fn api_version() -> (r: i32)
    ensures
        r == API_MAJOR * 0x1_0000 + API_MINOR,
{
    (API_MAJOR * 0x1_0000 + API_MINOR) as i32
}

/// Log message types.
#[derive(Debug, Clone, Copy, PartialEq, Eq, Structural, PartialOrd, Ord, Hash)]
pub enum MessageType {
    Debug,
    Warning,
    Critical,
    /// The process will abort after the message handler returns.
    Fatal,
}

/// The engine's code of a message type.
pub open spec fn message_type_code(t: MessageType) -> int {
    match t {
        MessageType::Debug => 0,
        MessageType::Warning => 2,
        MessageType::Critical => 3,
        MessageType::Fatal => 4,
    }
}

impl MessageType {
    /// The engine's code of this message type.
    pub fn ffi_type(self) -> (r: i32)
        ensures
            r == message_type_code(self),
    {
        match self {
            MessageType::Debug => 0,
            MessageType::Warning => 2,
            MessageType::Critical => 3,
            MessageType::Fatal => 4,
        }
    }

    /// The message type with the engine's code `x`, if this crate has one.
    pub fn from_ffi_type(x: i32) -> (r: Option<MessageType>)
        ensures
            r == message_type_from_code(x as int),
    {
        match x {
            0 => Some(MessageType::Debug),
            2 => Some(MessageType::Warning),
            3 => Some(MessageType::Critical),
            4 => Some(MessageType::Fatal),
            _ => None,
        }
    }
}

/// The message type with the engine's code `x`, if this crate has one.
pub open spec fn message_type_from_code(x: int) -> Option<MessageType> {
    if x == 0 {
        Some(MessageType::Debug)
    } else if x == 2 {
        Some(MessageType::Warning)
    } else if x == 3 {
        Some(MessageType::Critical)
    } else if x == 4 {
        Some(MessageType::Fatal)
    } else {
        None
    }
}

/// Converting a message type to the engine's code and back gives the message type.
pub proof fn law_message_type_round_trip(t: MessageType)
    ensures
        message_type_from_code(message_type_code(t)) == Some(t),
{
}

/// ID of a registered message handler. The engine's interface no longer registers handlers;
/// the type stays for its users.
#[derive(Debug, Clone, Copy, PartialEq, Eq, Hash)]
pub struct MessageHandlerId(pub ());

/// A string could not be handed to the foreign side: it holds a NUL byte at `position`.
#[derive(Debug, Clone, Copy, PartialEq, Eq, Structural)]
pub struct NulError {
    pub position: usize,
}

/// The bytes of a NUL-terminated copy of `s`, when `s` holds no NUL byte.
pub open spec fn c_string_of(s: &str) -> Option<Seq<u8>> {
    if forall|i: int| 0 <= i < s.spec_bytes().len() ==> s.spec_bytes()[i] != 0 {
        Some(s.spec_bytes().push(0))
    } else {
        None
    }
}

/// The bytes of a NUL-terminated copy of `s`, or the position of the first NUL byte in it.
pub fn c_string_bytes(s: &str) -> (r: Result<Vec<u8>, NulError>)
    ensures
        match r {
            Ok(v) => c_string_of(s) == Some(v@),
            Err(e) => c_string_of(s) is None && e.position < s.spec_bytes().len()
                && s.spec_bytes()[e.position as int] == 0
                && forall|i: int| 0 <= i < e.position ==> s.spec_bytes()[i] != 0,
        },
{
    let bytes = s.as_bytes();
    let mut out: Vec<u8> = Vec::new();
    let mut i: usize = 0;
    while i < bytes.len()
        invariant
            bytes@ == s.spec_bytes(),
            i <= bytes@.len(),
            out@ == bytes@.subrange(0, i as int),
            forall|j: int| 0 <= j < i ==> bytes@[j] != 0,
        decreases bytes@.len() - i,
    {
        if bytes[i] == 0 {
            return Err(NulError { position: i });
        }
        out.push(bytes[i]);
        i = i + 1;
    }
    out.push(0);
    assert(out@ =~= s.spec_bytes().push(0));
    Ok(out)
}

/// The cache of the engine's entry-point table, as plain values.
pub struct CacheModel {
    /// The cached table, by address; none until resolved.
    pub table: Option<u64>,
    /// The number of live script sessions that use the table.
    pub sessions: u64,
}

/// The process-wide cache of the engine's entry-point table.
///
/// The table is resolved once and then served from the cache. It is dropped only when the last
/// script session ends, so that a later session resolves it afresh and no stale table survives
/// between independent sessions.
pub struct EntryPointCache {
    table: Option<u64>,
    sessions: u64,
}

impl View for EntryPointCache {
    type V = CacheModel;

    closed spec fn view(&self) -> CacheModel {
        CacheModel { table: self.table, sessions: self.sessions }
    }
}

/// The cache after a resolution whose foreign lookup gave `fetched`: a cached table stays, and
/// an empty cache takes what was fetched.
pub open spec fn after_resolve(c: CacheModel, fetched: Option<u64>) -> CacheModel {
    if c.table is Some {
        c
    } else {
        CacheModel { table: fetched, ..c }
    }
}

/// The cache after a session ends: at zero sessions the table is dropped.
pub open spec fn after_end_session(c: CacheModel) -> CacheModel {
    if c.sessions <= 1 {
        CacheModel { table: None, sessions: 0 }
    } else {
        CacheModel { sessions: (c.sessions - 1) as u64, ..c }
    }
}

impl EntryPointCache {
    /// An empty cache with no sessions.
    pub fn new() -> (r: EntryPointCache)
        ensures
            r@ == (CacheModel { table: None, sessions: 0 }),
    {
        EntryPointCache { table: None, sessions: 0 }
    }

    /// The cached table, if it was resolved.
    pub fn cached(&self) -> (r: Option<u64>)
        ensures
            r == self@.table,
    {
        self.table
    }

    /// Resolves the table, given what the foreign lookup returned: the cached table when there
    /// is one, else `fetched`, which is cached when it is a table. Returns the table or none.
    pub fn resolve(&mut self, fetched: Option<u64>) -> (r: Option<u64>)
        ensures
            final(self)@ == after_resolve(old(self)@, fetched),
            r == final(self)@.table,
    {
        if self.table.is_none() {
            self.table = fetched;
        }
        self.table
    }

    /// The number of live script sessions.
    pub fn sessions(&self) -> (r: u64)
        ensures
            r == self@.sessions,
    {
        self.sessions
    }

    /// Records the start of a script session.
    pub fn begin_session(&mut self)
        requires
            old(self)@.sessions < u64::MAX,
        ensures
            final(self)@ == (CacheModel { sessions: (old(self)@.sessions + 1) as u64, ..old(self)@ }),
    {
        self.sessions = self.sessions + 1;
    }

    /// Records the end of a script session. Returns whether the table was dropped, which happens
    /// when no session is left.
    pub fn end_session(&mut self) -> (r: bool)
        requires
            old(self)@.sessions > 0,
        ensures
            final(self)@ == after_end_session(old(self)@),
            r == (old(self)@.sessions == 1),
    {
        if self.sessions <= 1 {
            self.sessions = 0;
            self.table = None;
            true
        } else {
            self.sessions = self.sessions - 1;
            false
        }
    }
}

/// Once a table is cached, every later resolution returns that table, whatever the foreign
/// lookup gives, until the last session ends.
pub proof fn law_resolve_idempotent(c: CacheModel, first: Option<u64>, later: Option<u64>)
    requires
        after_resolve(c, first).table is Some,
    ensures
        after_resolve(after_resolve(c, first), later) == after_resolve(c, first),
{
}

/// The table is dropped only when the session count reaches zero, and never while a session is
/// live.
pub proof fn law_reset_only_at_zero(c: CacheModel)
    requires
        c.sessions > 0,
    ensures
        after_end_session(c).table is None <==> (c.sessions == 1 || c.table is None),
        c.sessions > 1 ==> after_end_session(c).table == c.table,
{
}

} // verus!
