use cosi::manager::Handoff;

#[test]
fn handoff_delivers_whole_payload_at_once() {
    let payload = b"unix:/run/engine.sock".to_vec();
    let mut handoff = Handoff::new(payload.clone());
    assert!(!handoff.is_complete());
    let rest = handoff.pending();
    assert_eq!(rest, payload);
    handoff.advance(rest.len());
    assert!(handoff.is_complete());
    assert!(handoff.pending().is_empty());
}

#[test]
fn handoff_resumes_after_partial_writes() {
    // A child that accepts the address a few bytes at a time still observes
    // it exactly once, byte for byte: the pending suffix always picks up
    // where the last accepted byte stopped.
    let payload = b"runtime.sock".to_vec();
    let mut handoff = Handoff::new(payload.clone());
    let mut observed: Vec<u8> = Vec::new();

    let chunks = [3usize, 1, 5, 0, 3];
    for take in chunks {
        let rest = handoff.pending();
        assert!(take <= rest.len());
        observed.extend_from_slice(&rest[..take]);
        handoff.advance(take);
    }

    assert!(handoff.is_complete());
    assert_eq!(observed, payload);
    assert!(handoff.pending().is_empty());
}

#[test]
fn handoff_retry_after_complete_writes_nothing() {
    let payload = b"a".to_vec();
    let mut handoff = Handoff::new(payload);
    let rest = handoff.pending();
    handoff.advance(rest.len());
    assert!(handoff.is_complete());
    // A retried attempt sees nothing pending and so repeats no byte.
    assert_eq!(handoff.pending().len(), 0);
    handoff.advance(0);
    assert!(handoff.is_complete());
}

#[test]
fn handoff_of_empty_payload_is_complete_at_once() {
    let handoff = Handoff::new(Vec::new());
    assert!(handoff.is_complete());
    assert!(handoff.pending().is_empty());
}
