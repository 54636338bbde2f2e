use picacg::batch::BatchCounters;
use picacg::transfer::FailureKind;
use picacg::transfer::TransferAction;
use picacg::transfer::TransferEvent;
use picacg::transfer::TransferMachine;
use picacg::transfer::TransferPhase;
use picacg::transfer::gives_up_redownload;
use picacg::transfer::is_transient;

/// A pretend remote resource of `len` bytes with recognizable contents.
fn remote_bytes(len: usize) -> Vec<u8> {
    let mut v = Vec::new();
    let mut i: usize = 0;
    while i < len {
        v.push((i % 251) as u8);
        i += 1;
    }
    v
}

/// Feed one chunk of `len` bytes into the machine, appending to `file` from
/// `remote` exactly when the action says to write.
fn feed_chunk(
    m: &TransferMachine,
    remote: &[u8],
    file: &mut Vec<u8>,
    len: u64,
) -> (TransferMachine, TransferAction, picacg::batch::CounterDelta) {
    let (m2, a, d) = m.step(TransferEvent::Chunk { len });
    match a {
        TransferAction::Append | TransferAction::AppendThenFinish => {
            let start = file.len();
            file.extend_from_slice(&remote[start..start + len as usize]);
        }
        _ => {}
    }
    (m2, a, d)
}

#[test]
fn fresh_download_two_chunks() {
    // Destination absent, remote length 1000 delivered as 600 then 400.
    let remote = remote_bytes(1000);
    let mut file: Vec<u8> = Vec::new();
    let mut counters = BatchCounters::new(1);

    let (m, a) = TransferMachine::start(0, 3, 10, 1000);
    assert_eq!(a, TransferAction::Probe);

    let (m, a, d) = m.step(TransferEvent::ProbeOk { length: 1000 });
    assert_eq!(a, TransferAction::Request { start: 0 });
    assert_eq!(d.add_total_bytes, 1000);
    assert_eq!(d.add_completed_bytes, 0);
    counters.apply(&d);

    let (m, a, d) = feed_chunk(&m, &remote, &mut file, 600);
    assert_eq!(a, TransferAction::Append);
    assert_eq!(d.add_completed_bytes, 600);
    assert_eq!(d.add_completed_count, 0);
    counters.apply(&d);

    let (m, a, d) = feed_chunk(&m, &remote, &mut file, 400);
    // The transfer reports completion exactly once, on this last chunk.
    assert_eq!(a, TransferAction::AppendThenFinish);
    assert_eq!(d.add_completed_bytes, 400);
    assert_eq!(d.add_completed_count, 1);
    counters.apply(&d);

    assert!(matches!(m.phase, TransferPhase::Completed));
    assert_eq!(m.completed_length, 1000);
    assert_eq!(file.len(), 1000);
    assert_eq!(file, remote);
    assert_eq!(counters.completed_bytes, 1000);
    assert!(counters.is_complete());

    // Any further event is ignored: no second completion.
    let (_, a, d) = m.step(TransferEvent::Chunk { len: 1 });
    assert_eq!(a, TransferAction::Ignore);
    assert_eq!(d.add_completed_count, 0);
}

#[test]
fn resume_from_partial_file() {
    // Destination already holds 400 bytes of 1000: the only request issued
    // carries a range start of 400, and the final file is complete.
    let remote = remote_bytes(1000);
    let mut file: Vec<u8> = remote[..400].to_vec();

    let (m, a) = TransferMachine::start(400, 3, 10, 1000);
    assert_eq!(a, TransferAction::Probe);

    let (m, a, d) = m.step(TransferEvent::ProbeOk { length: 1000 });
    assert_eq!(a, TransferAction::Request { start: 400 });
    // The pre-existing bytes are published once, at probe time.
    assert_eq!(d.add_completed_bytes, 400);

    let (m, a, _) = feed_chunk(&m, &remote, &mut file, 600);
    assert_eq!(a, TransferAction::AppendThenFinish);
    assert!(matches!(m.phase, TransferPhase::Completed));
    assert_eq!(file.len(), 1000);
    assert_eq!(file, remote);
}

#[test]
fn timeout_then_success() {
    // The first range request fails with a timeout; the second succeeds.
    // The final file is identical to the no-failure case, with no byte
    // written twice.
    let remote = remote_bytes(1000);
    let mut file: Vec<u8> = Vec::new();

    let (m, _) = TransferMachine::start(0, 3, 10, 1000);
    let (m, a, _) = m.step(TransferEvent::ProbeOk { length: 1000 });
    assert_eq!(a, TransferAction::Request { start: 0 });

    let (m, a, d) = m.step(TransferEvent::Failed { kind: FailureKind::Timeout });
    assert_eq!(a, TransferAction::Retry { delay_ms: 10, start: 0 });
    assert_eq!(d.add_completed_bytes, 0);

    let (m, a, _) = feed_chunk(&m, &remote, &mut file, 1000);
    assert_eq!(a, TransferAction::AppendThenFinish);
    assert!(matches!(m.phase, TransferPhase::Completed));
    assert_eq!(file, remote);
}

#[test]
fn timeout_mid_stream_resumes_where_it_stopped() {
    // A transient fault after 600 bytes: the retry's range request starts at
    // 600, the bytes already written are left alone.
    let remote = remote_bytes(1000);
    let mut file: Vec<u8> = Vec::new();

    let (m, _) = TransferMachine::start(0, 3, 10, 1000);
    let (m, _, _) = m.step(TransferEvent::ProbeOk { length: 1000 });
    let (m, _, _) = feed_chunk(&m, &remote, &mut file, 600);
    let before = file.clone();

    let (m, a, _) = m.step(TransferEvent::Failed { kind: FailureKind::Connect });
    assert_eq!(a, TransferAction::Retry { delay_ms: 10, start: 600 });
    assert_eq!(file, before);

    let (m, a, _) = feed_chunk(&m, &remote, &mut file, 400);
    assert_eq!(a, TransferAction::AppendThenFinish);
    assert!(matches!(m.phase, TransferPhase::Completed));
    assert_eq!(file, remote);
}

#[test]
fn idempotent_completion() {
    // The file already holds exactly the probed length: completion is
    // immediate, with no range request.
    let (m, _) = TransferMachine::start(1000, 3, 10, 1000);
    let (m, a, d) = m.step(TransferEvent::ProbeOk { length: 1000 });
    assert_eq!(a, TransferAction::Finish);
    assert!(matches!(m.phase, TransferPhase::Completed));
    assert_eq!(d.add_total_bytes, 1000);
    assert_eq!(d.add_completed_bytes, 1000);
    assert_eq!(d.add_completed_count, 1);
}

#[test]
fn oversized_file_completes_without_truncation() {
    // The file holds more than the resource: the transfer completes at once,
    // publishes at most the probed length, and never truncates.
    let (m, _) = TransferMachine::start(1200, 3, 10, 1000);
    let (m, a, d) = m.step(TransferEvent::ProbeOk { length: 1000 });
    assert_eq!(a, TransferAction::Finish);
    assert!(matches!(m.phase, TransferPhase::Completed));
    assert_eq!(m.completed_length, 1200);
    assert_eq!(d.add_completed_bytes, 1000);
}

#[test]
fn backoff_doubles_and_caps_and_budget_runs_out() {
    let (m, _) = TransferMachine::start(0, 2, 10, 15);
    let (m, _, _) = m.step(TransferEvent::ProbeOk { length: 100 });

    let (m, a, _) = m.step(TransferEvent::Failed { kind: FailureKind::Timeout });
    assert_eq!(a, TransferAction::Retry { delay_ms: 10, start: 0 });

    // Doubled to 20 but capped at 15.
    let (m, a, _) = m.step(TransferEvent::Failed { kind: FailureKind::Timeout });
    assert_eq!(a, TransferAction::Retry { delay_ms: 15, start: 0 });

    // The retry budget is exhausted: the next transient fault is fatal.
    let (m, a, _) = m.step(TransferEvent::Failed { kind: FailureKind::Timeout });
    assert_eq!(a, TransferAction::Abort);
    assert!(matches!(m.phase, TransferPhase::Failed));
}

#[test]
fn backoff_resets_after_progress() {
    let (m, _) = TransferMachine::start(0, 5, 10, 1000);
    let (m, _, _) = m.step(TransferEvent::ProbeOk { length: 100 });
    let (m, a, _) = m.step(TransferEvent::Failed { kind: FailureKind::Timeout });
    assert_eq!(a, TransferAction::Retry { delay_ms: 10, start: 0 });
    let (m, a, _) = m.step(TransferEvent::Failed { kind: FailureKind::Timeout });
    assert_eq!(a, TransferAction::Retry { delay_ms: 20, start: 0 });
    // A chunk arrives: the next transient fault backs off from the start
    // again.
    let (m, _, _) = m.step(TransferEvent::Chunk { len: 10 });
    let (_, a, _) = m.step(TransferEvent::Failed { kind: FailureKind::Timeout });
    assert_eq!(a, TransferAction::Retry { delay_ms: 10, start: 10 });
}

#[test]
fn probe_failure_is_retried_then_fatal_aborts() {
    let (m, _) = TransferMachine::start(0, 3, 10, 1000);
    let (m, a, _) = m.step(TransferEvent::Failed { kind: FailureKind::Connect });
    assert_eq!(a, TransferAction::RetryProbe { delay_ms: 10 });
    assert!(matches!(m.phase, TransferPhase::Probing));
    let (m, a, _) = m.step(TransferEvent::Failed { kind: FailureKind::Decode });
    assert_eq!(a, TransferAction::Abort);
    assert!(matches!(m.phase, TransferPhase::Failed));
}

#[test]
fn fatal_decode_aborts_and_keeps_partial_file() {
    let remote = remote_bytes(1000);
    let mut file: Vec<u8> = Vec::new();
    let (m, _) = TransferMachine::start(0, 3, 10, 1000);
    let (m, _, _) = m.step(TransferEvent::ProbeOk { length: 1000 });
    let (m, _, _) = feed_chunk(&m, &remote, &mut file, 300);
    let (m, a, d) = m.step(TransferEvent::Failed { kind: FailureKind::Decode });
    assert_eq!(a, TransferAction::Abort);
    assert!(matches!(m.phase, TransferPhase::Failed));
    assert_eq!(d.add_completed_count, 0);
    // The partial file stays in place, a clean prefix for a later resume.
    assert_eq!(file, remote[..300].to_vec());
    assert_eq!(m.completed_length, 300);
}

#[test]
fn premature_stream_end_is_retried() {
    let remote = remote_bytes(1000);
    let mut file: Vec<u8> = Vec::new();
    let (m, _) = TransferMachine::start(0, 3, 10, 1000);
    let (m, _, _) = m.step(TransferEvent::ProbeOk { length: 1000 });
    let (m, _, _) = feed_chunk(&m, &remote, &mut file, 600);
    let (m, a, _) = m.step(TransferEvent::StreamEnded);
    assert_eq!(a, TransferAction::Retry { delay_ms: 10, start: 600 });
    let (m, a, _) = feed_chunk(&m, &remote, &mut file, 400);
    assert_eq!(a, TransferAction::AppendThenFinish);
    assert!(matches!(m.phase, TransferPhase::Completed));
    assert_eq!(file, remote);
}

#[test]
fn oversized_chunk_is_a_protocol_anomaly() {
    let (m, _) = TransferMachine::start(0, 3, 10, 1000);
    let (m, _, _) = m.step(TransferEvent::ProbeOk { length: 100 });
    let (m, _, _) = m.step(TransferEvent::Chunk { len: 90 });
    // 20 more bytes than the resource has: not written, fatal.
    let (m, a, d) = m.step(TransferEvent::Chunk { len: 20 });
    assert_eq!(a, TransferAction::Abort);
    assert!(matches!(m.phase, TransferPhase::Failed));
    assert_eq!(d.add_completed_bytes, 0);
    assert_eq!(m.completed_length, 90);
}

#[test]
fn failure_classification() {
    assert!(is_transient(FailureKind::Timeout));
    assert!(is_transient(FailureKind::Connect));
    assert!(is_transient(FailureKind::Request));
    assert!(!is_transient(FailureKind::Body));
    assert!(!is_transient(FailureKind::Decode));
    assert!(!is_transient(FailureKind::Builder));
    assert!(!is_transient(FailureKind::Other));
}

#[test]
fn redownload_abandonment_classification() {
    assert!(gives_up_redownload(FailureKind::Body));
    assert!(gives_up_redownload(FailureKind::Decode));
    assert!(gives_up_redownload(FailureKind::Builder));
    assert!(gives_up_redownload(FailureKind::Connect));
    assert!(!gives_up_redownload(FailureKind::Timeout));
    assert!(!gives_up_redownload(FailureKind::Request));
    assert!(!gives_up_redownload(FailureKind::Other));
}
