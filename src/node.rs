//! Frame pulls from a node: the range check, the engine's bounded error buffer and the
//! correlation of asynchronous completions.

use vstd::prelude::*;

use crate::handles::{after_complete, after_submit, ledger_inv, refs_of, wrapper_held, PendingRequest, RefLedger};

verus! {

/// The size of the buffer that the engine writes the error message of a synchronous pull into.
pub const ERROR_BUF_CAPACITY: usize = 32 * 1024;

/// Why a frame could not be had.
#[derive(Debug)]
pub enum GetFrameError {
    /// The requested index is not below the node's frame count.
    BeyondLastFrame,
    /// The engine failed, with this message.
    Engine(Vec<u8>),
}

/// The bytes of a message held in a C buffer: those before the first NUL byte, or all of them
/// when there is none, so that a full buffer is truncated and never overrun.
pub open spec fn c_prefix(b: Seq<u8>) -> Seq<u8>
    decreases b.len(),
{
    if b.len() == 0 {
        Seq::empty()
    } else if b[0] == 0 {
        Seq::empty()
    } else {
        seq![b[0]] + c_prefix(b.drop_first())
    }
}

proof fn lemma_c_prefix_step(b: Seq<u8>, i: int)
    requires
        0 <= i < b.len(),
        forall|j: int| 0 <= j < i ==> b[j] != 0,
    ensures
        c_prefix(b) == b.subrange(0, i) + c_prefix(b.subrange(i, b.len() as int)),
    decreases i,
{
    if i > 0 {
        let t = b.drop_first();
        assert forall|j: int| 0 <= j < i - 1 implies t[j] != 0 by {
            assert(t[j] == b[j + 1]);
        }
        lemma_c_prefix_step(t, i - 1);
        assert(t.subrange(i - 1, t.len() as int) =~= b.subrange(i, b.len() as int));
        assert(seq![b[0]] + t.subrange(0, i - 1) =~= b.subrange(0, i));
    } else {
        assert(b.subrange(0, 0) + c_prefix(b) =~= c_prefix(b));
        assert(b.subrange(0, b.len() as int) =~= b);
    }
}

/// Reads the message that the engine left in `buf`.
pub fn message_from_buffer(buf: &[u8]) -> (r: Vec<u8>)
    ensures
        r@ == c_prefix(buf@),
{
    let mut out: Vec<u8> = Vec::new();
    let mut i: usize = 0;
    while i < buf.len()
        invariant
            i <= buf@.len(),
            out@ == buf@.subrange(0, i as int),
            forall|j: int| 0 <= j < i ==> buf@[j] != 0,
        decreases buf@.len() - i,
    {
        if buf[i] == 0 {
            proof {
                lemma_c_prefix_step(buf@, i as int);
                assert(c_prefix(buf@.subrange(i as int, buf@.len() as int)) =~= Seq::empty());
                assert(out@ + Seq::<u8>::empty() =~= out@);
            }
            return out;
        }
        out.push(buf[i]);
        i = i + 1;
    }
    proof {
        if buf@.len() > 0 {
            lemma_c_prefix_step(buf@, buf@.len() - 1);
            let last = buf@.subrange(buf@.len() - 1, buf@.len() as int);
            assert(last.drop_first() =~= Seq::<u8>::empty());
            assert(c_prefix(last.drop_first()) =~= Seq::<u8>::empty());
            assert(last[0] == buf@[buf@.len() - 1]);
            assert(last[0] != 0);
            assert(c_prefix(last) =~= seq![buf@[buf@.len() - 1]]);
        }
        assert(out@ =~= c_prefix(buf@));
    }
    out
}

/// The outcome of a synchronous pull of frame `n` from a node of `num_frames` frames, before the
/// engine is asked: the index to hand to the engine, or why it is not asked.
pub open spec fn request_check(n: usize, num_frames: usize) -> Result<i32, ()> {
    if n < num_frames {
        Ok(n as i32)
    } else {
        Err(())
    }
}

/// `r` is the engine's failure with message `msg`.
pub open spec fn is_engine_error(r: Result<u64, GetFrameError>, msg: Seq<u8>) -> bool {
    match r {
        Err(GetFrameError::Engine(m)) => m@ == msg,
        _ => false,
    }
}

/// `r` is the failure of a pull beyond the last frame.
pub open spec fn is_beyond_last(r: Result<u64, GetFrameError>) -> bool {
    r matches Err(GetFrameError::BeyondLastFrame)
}

/// Checks a pull of frame `n` from a node of `num_frames` frames; an index beyond the last frame
/// fails before the engine is asked.
pub fn frame_request(n: usize, num_frames: usize) -> (r: Result<i32, GetFrameError>)
    requires
        num_frames <= i32::MAX,
    ensures
        match request_check(n, num_frames) {
            Ok(i) => r == Ok::<i32, GetFrameError>(i),
            Err(_) => r matches Err(GetFrameError::BeyondLastFrame),
        },
{
    if n >= num_frames {
        Err(GetFrameError::BeyondLastFrame)
    } else {
        Ok(n as i32)
    }
}

/// What a pull gives: the engine's frame, or, when it gave none, the message it left.
pub fn engine_outcome(frame: Option<u64>, error: &[u8]) -> (r: Result<u64, GetFrameError>)
    ensures
        frame matches Some(f) ==> r == Ok::<u64, GetFrameError>(f),
        frame is None ==> is_engine_error(r, c_prefix(error@)),
{
    match frame {
        Some(f) => Ok(f),
        None => Err(GetFrameError::Engine(message_from_buffer(error))),
    }
}

/// A frame pull fails before the engine is asked exactly when the index is beyond the last frame,
/// synchronously and asynchronously alike (both decide by `request_check`; the asynchronous
/// failure carries the requested index), and a pull within range reaches the engine with its own
/// index.
pub proof fn law_beyond_last_frame(n: usize, num_frames: usize)
    requires
        num_frames <= i32::MAX,
    ensures
        n >= num_frames <==> request_check(n, num_frames) is Err,
        n < num_frames ==> request_check(n, num_frames) == Ok::<i32, ()>(n as i32),
{
}

/// The completion of an asynchronous pull: the node it was made on (with the request's
/// reference), the requested index, and the frame or the failure.
#[derive(Debug)]
pub struct Completion {
    pub node: u64,
    pub index: usize,
    pub result: Result<u64, GetFrameError>,
}

/// Starts an asynchronous pull of frame `n` through a wrapper of `node`, which has `num_frames`
/// frames. Within range the request is recorded and its ticket returned; beyond the last frame
/// nothing is recorded and the completion to deliver at once is returned, with the requested
/// index.
pub fn submit_request(ledger: &mut RefLedger, node: u64, n: usize, num_frames: usize) -> (r: Result<u64, Completion>)
    requires
        old(ledger).wf(),
        wrapper_held(old(ledger)@, node),
        refs_of(old(ledger)@, node) < u64::MAX,
        old(ledger)@.next_ticket < u64::MAX,
        num_frames <= i32::MAX,
    ensures
        final(ledger).wf(),
        ledger_inv(final(ledger)@),
        request_check(n, num_frames) is Ok ==> r == Ok::<u64, Completion>(old(ledger)@.next_ticket)
            && final(ledger)@ == after_submit(old(ledger)@, node, n),
        request_check(n, num_frames) is Err ==> final(ledger)@ == old(ledger)@ && r is Err && r->Err_0.node
            == node && r->Err_0.index == n && is_beyond_last(r->Err_0.result),
{
    proof {
        ledger.lemma_wf_inv();
    }
    match frame_request(n, num_frames) {
        Ok(_) => Ok(ledger.submit(node, n)),
        Err(e) => Err(Completion { node, index: n, result: Err(e) }),
    }
}

/// Completes the asynchronous pull with `ticket`, given what the engine delivered: the frame,
/// or none and the message it left. Returns `None` for a ticket that is not in flight.
pub fn complete_request(ledger: &mut RefLedger, ticket: u64, frame: Option<u64>, error: &[u8]) -> (r: Option<Completion>)
    requires
        old(ledger).wf(),
    ensures
        final(ledger).wf(),
        ledger_inv(final(ledger)@),
        !old(ledger)@.pending.contains_key(ticket) ==> r is None && final(ledger)@ == old(ledger)@,
        old(ledger)@.pending.contains_key(ticket) ==> final(ledger)@ == after_complete(old(ledger)@, ticket)
            && r is Some && r->Some_0.node == old(ledger)@.pending[ticket].node
            && r->Some_0.index == old(ledger)@.pending[ticket].index
            && (frame is Some ==> r->Some_0.result == Ok::<u64, GetFrameError>(frame->Some_0))
            && (frame is None ==> is_engine_error(r->Some_0.result, c_prefix(error@))),
{
    match ledger.complete(ticket) {
        None => None,
        Some(PendingRequest { node, index }) => Some(
            Completion { node, index, result: engine_outcome(frame, error) },
        ),
    }
}

} // verus!
