use vapoursynth::handles::{PendingRequest, RefLedger};
use vapoursynth::node::{complete_request, engine_outcome, frame_request, message_from_buffer, submit_request, GetFrameError, ERROR_BUF_CAPACITY};

#[test]
fn clone_drop_cycles_are_balanced() {
    let mut ledger = RefLedger::new();
    ledger.acquire(5);
    for _ in 0..10_000 {
        ledger.clone_ref(5);
        assert_eq!(ledger.refs(5), 2);
        assert!(!ledger.release(5));
        assert_eq!(ledger.refs(5), 1);
    }
    assert!(ledger.release(5));
    assert_eq!(ledger.refs(5), 0);
}

#[test]
fn get_frame_async() {
    let node = 7;
    let mut ledger = RefLedger::new();
    ledger.acquire(node);
    let mut tickets = Vec::new();
    for i in 0..10 {
        tickets.push(submit_request(&mut ledger, node, i, 100).ok().unwrap());
    }
    assert_eq!(ledger.refs(node), 11);

    // The submitter drops its node before any completion.
    assert!(!ledger.release(node));
    assert_eq!(ledger.refs(node), 10);

    let mut seen = Vec::new();
    for (i, &t) in tickets.iter().enumerate().rev() {
        let c = complete_request(&mut ledger, t, Some(1000 + i as u64), &[]).unwrap();
        assert_eq!(c.index, i);
        assert_eq!(c.node, node);
        assert!(matches!(c.result, Ok(f) if f == 1000 + i as u64));
        seen.push(c.index);
        // The completion's node is dropped after the callback.
        let freed = ledger.release(c.node);
        assert_eq!(freed, i == 0);
    }
    seen.sort();
    assert_eq!(seen, (0..10).collect::<Vec<_>>());
    assert_eq!(ledger.refs(node), 0);
    // Every ticket completes once.
    assert!(complete_request(&mut ledger, tickets[3], None, &[]).is_none());
}

#[test]
fn get_frame_async_error() {
    let node = 3;
    let mut ledger = RefLedger::new();
    ledger.acquire(node);
    // The clip only has 100 frames, so requesting the 101th one produces an error.
    let c = submit_request(&mut ledger, node, 100, 100).err().unwrap();
    assert_eq!(c.index, 100);
    assert_eq!(c.node, node);
    assert!(matches!(c.result, Err(GetFrameError::BeyondLastFrame)));
    assert_eq!(ledger.refs(node), 1);
}

#[test]
fn engine_failure_reaches_the_completion() {
    let mut ledger = RefLedger::new();
    ledger.acquire(9);
    let t = submit_request(&mut ledger, 9, 4, 10).ok().unwrap();
    let c = complete_request(&mut ledger, t, None, b"boom\0junk").unwrap();
    assert_eq!(c.index, 4);
    match c.result {
        Err(GetFrameError::Engine(m)) => assert_eq!(m, b"boom".to_vec()),
        other => panic!("unexpected {:?}", other),
    }
}

#[test]
fn sync_pull_range() {
    assert_eq!(frame_request(0, 100).ok(), Some(0));
    assert_eq!(frame_request(99, 100).ok(), Some(99));
    assert!(matches!(frame_request(100, 100), Err(GetFrameError::BeyondLastFrame)));
    assert!(matches!(frame_request(usize::MAX, 100), Err(GetFrameError::BeyondLastFrame)));
    assert!(matches!(frame_request(0, 0), Err(GetFrameError::BeyondLastFrame)));
}

#[test]
fn error_buffer_is_read_up_to_nul_or_end() {
    assert_eq!(message_from_buffer(b"oops\0rest"), b"oops".to_vec());
    assert_eq!(message_from_buffer(b"\0"), Vec::<u8>::new());
    assert_eq!(message_from_buffer(b""), Vec::<u8>::new());
    let full = vec![b'x'; ERROR_BUF_CAPACITY];
    assert_eq!(message_from_buffer(&full).len(), ERROR_BUF_CAPACITY);
    assert!(matches!(engine_outcome(Some(4), b"ignored"), Ok(4)));
    match engine_outcome(None, b"bad frame\0") {
        Err(GetFrameError::Engine(m)) => assert_eq!(m, b"bad frame".to_vec()),
        other => panic!("unexpected {:?}", other),
    }
}

#[test]
fn pending_request_fields() {
    let mut ledger = RefLedger::new();
    ledger.acquire(1);
    let t = ledger.submit(1, 42);
    assert_eq!(ledger.complete(t), Some(PendingRequest { node: 1, index: 42 }));
    assert_eq!(ledger.complete(t), None);
}
