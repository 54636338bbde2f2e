//! The resumable transfer state machine.
//!
//! One `TransferMachine` drives the download of one remote resource into one
//! local file. The caller performs the probes, range requests, chunk reads,
//! sleeps and file appends that the returned `TransferAction`s ask for, and
//! feeds every outcome back in as a `TransferEvent`; the machine decides what
//! happens next and what to publish into the batch counters.
//!
//! Conventions the machine holds throughout:
//! - the length probe reports the full length of the remote resource, and
//!   `total_length` records exactly that;
//! - every range request starts at `completed_length`, so bytes already on
//!   disk are never fetched or written again;
//! - transient faults (timeout, connection failure, request-construction
//!   failure) are retried with capped exponential backoff until a bounded
//!   retry budget runs out; every other fault is fatal and leaves the
//!   partially written file in place for a later resume.

use vstd::prelude::*;

use crate::batch::CounterDelta;

verus! {

/// How the transport classified a failed request or stream, reduced to the
/// classes the retry policy distinguishes.
#[derive(Clone, Copy, PartialEq, Eq, Structural, Debug)]
pub enum FailureKind {
    /// The request timed out.
    Timeout,
    /// The connection could not be established or broke.
    Connect,
    /// The outbound request failed before or while being sent.
    Request,
    /// The response body could not be read.
    Body,
    /// The response could not be decoded.
    Decode,
    /// The request could not be built at all.
    Builder,
    /// Any other transport failure.
    Other,
}

/// The transient class: faults that are retried without losing progress.
/// Everything else is fatal.
pub open spec fn is_transient_spec(k: FailureKind) -> bool {
    k is Timeout || k is Connect || k is Request
}

/// Decides whether a failure is transient (retry the current request) or
/// fatal (abort the transfer).
pub fn is_transient(k: FailureKind) -> (r: bool)
    ensures
        r == is_transient_spec(k),
{
    match k {
        FailureKind::Timeout => true,
        FailureKind::Connect => true,
        FailureKind::Request => true,
        _ => false,
    }
}

/// Whether a failed batch download is not worth starting over from the top:
/// body, decode and builder errors will recur, and a broken connection is
/// reported to the user instead of being hammered.
pub open spec fn gives_up_redownload_spec(k: FailureKind) -> bool {
    k is Body || k is Decode || k is Builder || k is Connect
}

/// Decides whether the caller's outer "download the whole set again" loop
/// should stop retrying after this failure.
pub fn gives_up_redownload(k: FailureKind) -> (r: bool)
    ensures
        r == gives_up_redownload_spec(k),
{
    match k {
        FailureKind::Body => true,
        FailureKind::Decode => true,
        FailureKind::Builder => true,
        FailureKind::Connect => true,
        _ => false,
    }
}

/// One downloadable resource: where it comes from, where it goes, and the
/// referer header the request must carry, if any. Immutable once built.
#[derive(Clone, Debug)]
pub struct TransferTarget {
    pub source_url: String,
    pub destination_path: String,
    pub referer_header: Option<String>,
}

/// Where one transfer stands.
#[derive(Clone, Copy, PartialEq, Eq, Structural, Debug)]
pub enum TransferPhase {
    /// Waiting for the length probe of the remote resource.
    Probing,
    /// Streaming the remaining bytes into the destination file.
    Downloading,
    /// All bytes are on disk.
    Completed,
    /// A fatal fault ended the transfer; the partial file is left in place.
    Failed,
}

/// What the machine observed: the outcome of the probe, range request or
/// chunk read that the previous action asked for.
#[derive(Clone, Copy, PartialEq, Eq, Structural, Debug)]
pub enum TransferEvent {
    /// The length probe succeeded; `length` is the full length of the remote
    /// resource.
    ProbeOk { length: u64 },
    /// One chunk of `len` bytes arrived on the response stream.
    Chunk { len: u64 },
    /// The response stream ended.
    StreamEnded,
    /// The probe, request or stream failed, classified by the transport.
    Failed { kind: FailureKind },
}

/// What the caller must do next. After a `Chunk` event the chunk is written
/// to the file exactly when the action says so (`Append`,
/// `AppendThenFinish`); no other action writes anything.
#[derive(Clone, Copy, PartialEq, Eq, Structural, Debug)]
pub enum TransferAction {
    /// Issue the length probe.
    Probe,
    /// Open the destination for append and issue a range request for bytes
    /// from `start` to the end of the resource.
    Request { start: u64 },
    /// Append the chunk just delivered to the file, then read the next chunk.
    Append,
    /// Append the chunk just delivered; the transfer is then complete.
    AppendThenFinish,
    /// The transfer is complete without any further request or write.
    Finish,
    /// Sleep `delay_ms`, then issue a range request for bytes from `start`.
    Retry { delay_ms: u64, start: u64 },
    /// Sleep `delay_ms`, then issue the length probe again.
    RetryProbe { delay_ms: u64 },
    /// The transfer failed fatally; report it and stop.
    Abort,
    /// The event arrived in a phase that does not expect it; do nothing.
    Ignore,
}

/// The state of one resumable transfer.
#[derive(Clone, Copy, Debug)]
pub struct TransferMachine {
    pub phase: TransferPhase,
    /// Bytes already in the destination file when the transfer began.
    pub existing_bytes: u64,
    /// Bytes now in the destination file.
    pub completed_length: u64,
    /// Full length of the remote resource, once probed.
    pub total_length: Option<u64>,
    /// How many more transient faults will be retried.
    pub retries_left: u32,
    /// The next backoff delay, in milliseconds.
    pub backoff_ms: u64,
    /// The first backoff delay; restored whenever a chunk arrives.
    pub initial_backoff_ms: u64,
    /// The backoff delay never grows beyond this.
    pub max_backoff_ms: u64,
}

impl TransferMachine {
    /// Internal consistency of a machine state.
    pub open spec fn wf(self) -> bool {
        &&& 1 <= self.initial_backoff_ms <= self.max_backoff_ms
        &&& 1 <= self.backoff_ms <= self.max_backoff_ms
        &&& self.existing_bytes <= self.completed_length
        &&& match self.phase {
            TransferPhase::Probing => self.total_length is None && self.completed_length
                == self.existing_bytes,
            TransferPhase::Downloading => self.total_length is Some && self.completed_length
                < self.total_length->0,
            TransferPhase::Completed => self.total_length is Some && self.completed_length
                >= self.total_length->0,
            TransferPhase::Failed => self.total_length is Some ==> self.completed_length
                <= self.total_length->0,
        }
    }

    /// The machine a fresh transfer starts in: probing, with the bytes found
    /// on disk counted as already complete. A zero backoff is raised to one
    /// millisecond and the cap is raised to the starting delay, so the
    /// backoff is always a positive, bounded delay.
    pub open spec fn start_spec(
        existing_bytes: u64,
        max_retries: u32,
        initial_backoff_ms: u64,
        max_backoff_ms: u64,
    ) -> TransferMachine {
        let first = if initial_backoff_ms == 0 {
            1u64
        } else {
            initial_backoff_ms
        };
        let cap = if max_backoff_ms < first {
            first
        } else {
            max_backoff_ms
        };
        TransferMachine {
            phase: TransferPhase::Probing,
            existing_bytes,
            completed_length: existing_bytes,
            total_length: None,
            retries_left: max_retries,
            backoff_ms: first,
            initial_backoff_ms: first,
            max_backoff_ms: cap,
        }
    }

    /// Begin a transfer of a resource whose destination file already holds
    /// `existing_bytes` bytes. The first action is always the length probe.
    pub fn start(
        existing_bytes: u64,
        max_retries: u32,
        initial_backoff_ms: u64,
        max_backoff_ms: u64,
    ) -> (r: (TransferMachine, TransferAction))
        ensures
            r.0 == TransferMachine::start_spec(
                existing_bytes,
                max_retries,
                initial_backoff_ms,
                max_backoff_ms,
            ),
            r.0.wf(),
            r.1 is Probe,
    {
        let first: u64 = if initial_backoff_ms == 0 {
            1
        } else {
            initial_backoff_ms
        };
        let cap: u64 = if max_backoff_ms < first {
            first
        } else {
            max_backoff_ms
        };
        let m = TransferMachine {
            phase: TransferPhase::Probing,
            existing_bytes,
            completed_length: existing_bytes,
            total_length: None,
            retries_left: max_retries,
            backoff_ms: first,
            initial_backoff_ms: first,
            max_backoff_ms: cap,
        };
        (m, TransferAction::Probe)
    }
}

/// The backoff delay after one more transient fault: doubled, capped.
pub open spec fn next_backoff_spec(backoff_ms: u64, max_backoff_ms: u64) -> u64 {
    if 2 * backoff_ms > max_backoff_ms {
        max_backoff_ms
    } else {
        (2 * backoff_ms) as u64
    }
}

/// What a transient fault turns the machine into: one retry spent, backoff
/// doubled up to the cap.
pub open spec fn after_transient_spec(m: TransferMachine) -> TransferMachine {
    TransferMachine {
        retries_left: (m.retries_left - 1) as u32,
        backoff_ms: next_backoff_spec(m.backoff_ms, m.max_backoff_ms),
        ..m
    }
}

/// The transition function of the transfer machine: from a state and an
/// observed event to the next state, the caller's next action, and the
/// increments to publish into the batch counters.
pub open spec fn step_spec(m: TransferMachine, e: TransferEvent) -> (
    TransferMachine,
    TransferAction,
    CounterDelta,
) {
    match m.phase {
        TransferPhase::Probing => match e {
            TransferEvent::ProbeOk { length } => {
                if m.completed_length >= length {
                    // Everything (or more) is already on disk: complete
                    // immediately, without a range request. The file is
                    // never truncated, and at most the probed length is
                    // published as completed bytes.
                    (
                        TransferMachine {
                            phase: TransferPhase::Completed,
                            total_length: Some(length),
                            ..m
                        },
                        TransferAction::Finish,
                        CounterDelta {
                            add_total_bytes: length,
                            add_completed_bytes: length,
                            add_completed_count: 1,
                        },
                    )
                } else {
                    (
                        TransferMachine {
                            phase: TransferPhase::Downloading,
                            total_length: Some(length),
                            ..m
                        },
                        TransferAction::Request { start: m.completed_length },
                        CounterDelta {
                            add_total_bytes: length,
                            add_completed_bytes: m.completed_length,
                            add_completed_count: 0,
                        },
                    )
                }
            },
            TransferEvent::Failed { kind } => {
                if is_transient_spec(kind) {
                    if m.retries_left == 0 {
                        (
                            TransferMachine { phase: TransferPhase::Failed, ..m },
                            TransferAction::Abort,
                            CounterDelta::zero_spec(),
                        )
                    } else {
                        (
                            after_transient_spec(m),
                            TransferAction::RetryProbe { delay_ms: m.backoff_ms },
                            CounterDelta::zero_spec(),
                        )
                    }
                } else {
                    (
                        TransferMachine { phase: TransferPhase::Failed, ..m },
                        TransferAction::Abort,
                        CounterDelta::zero_spec(),
                    )
                }
            },
            _ => (m, TransferAction::Ignore, CounterDelta::zero_spec()),
        },
        TransferPhase::Downloading => match e {
            TransferEvent::Chunk { len } => {
                let total = m.total_length->0;
                if len <= total - m.completed_length {
                    let done = m.completed_length + len == total;
                    (
                        TransferMachine {
                            phase: if done {
                                TransferPhase::Completed
                            } else {
                                TransferPhase::Downloading
                            },
                            completed_length: (m.completed_length + len) as u64,
                            backoff_ms: m.initial_backoff_ms,
                            ..m
                        },
                        if done {
                            TransferAction::AppendThenFinish
                        } else {
                            TransferAction::Append
                        },
                        CounterDelta {
                            add_total_bytes: 0,
                            add_completed_bytes: len,
                            add_completed_count: if done {
                                1u64
                            } else {
                                0u64
                            },
                        },
                    )
                } else {
                    // The stream delivered more bytes than the resource has:
                    // a protocol anomaly. The chunk is not written, so the
                    // file stays a clean prefix for a later resume.
                    (
                        TransferMachine { phase: TransferPhase::Failed, ..m },
                        TransferAction::Abort,
                        CounterDelta::zero_spec(),
                    )
                }
            },
            TransferEvent::StreamEnded => {
                // The stream ended before the resource was complete: treat
                // it like a transient fault and re-request the remainder.
                if m.retries_left == 0 {
                    (
                        TransferMachine { phase: TransferPhase::Failed, ..m },
                        TransferAction::Abort,
                        CounterDelta::zero_spec(),
                    )
                } else {
                    (
                        after_transient_spec(m),
                        TransferAction::Retry { delay_ms: m.backoff_ms, start: m.completed_length },
                        CounterDelta::zero_spec(),
                    )
                }
            },
            TransferEvent::Failed { kind } => {
                if is_transient_spec(kind) {
                    if m.retries_left == 0 {
                        (
                            TransferMachine { phase: TransferPhase::Failed, ..m },
                            TransferAction::Abort,
                            CounterDelta::zero_spec(),
                        )
                    } else {
                        (
                            after_transient_spec(m),
                            TransferAction::Retry {
                                delay_ms: m.backoff_ms,
                                start: m.completed_length,
                            },
                            CounterDelta::zero_spec(),
                        )
                    }
                } else {
                    (
                        TransferMachine { phase: TransferPhase::Failed, ..m },
                        TransferAction::Abort,
                        CounterDelta::zero_spec(),
                    )
                }
            },
            _ => (m, TransferAction::Ignore, CounterDelta::zero_spec()),
        },
        TransferPhase::Completed => (m, TransferAction::Ignore, CounterDelta::zero_spec()),
        TransferPhase::Failed => (m, TransferAction::Ignore, CounterDelta::zero_spec()),
    }
}

impl TransferMachine {
    /// Feed one observed event in; get the next state, the next action, and
    /// the counter increments to publish.
    pub fn step(&self, event: TransferEvent) -> (r: (
        TransferMachine,
        TransferAction,
        CounterDelta,
    ))
        requires
            self.wf(),
        ensures
            r == step_spec(*self, event),
            r.0.wf(),
            r.0.completed_length >= self.completed_length,
            r.0.existing_bytes == self.existing_bytes,
    {
        match self.phase {
            TransferPhase::Probing => match event {
                TransferEvent::ProbeOk { length } => {
                    if self.completed_length >= length {
                        (
                            TransferMachine {
                                phase: TransferPhase::Completed,
                                total_length: Some(length),
                                ..*self
                            },
                            TransferAction::Finish,
                            CounterDelta {
                                add_total_bytes: length,
                                add_completed_bytes: length,
                                add_completed_count: 1,
                            },
                        )
                    } else {
                        (
                            TransferMachine {
                                phase: TransferPhase::Downloading,
                                total_length: Some(length),
                                ..*self
                            },
                            TransferAction::Request { start: self.completed_length },
                            CounterDelta {
                                add_total_bytes: length,
                                add_completed_bytes: self.completed_length,
                                add_completed_count: 0,
                            },
                        )
                    }
                },
                TransferEvent::Failed { kind } => {
                    if is_transient(kind) {
                        if self.retries_left == 0 {
                            (self.fail(), TransferAction::Abort, CounterDelta::zero())
                        } else {
                            let delay = self.backoff_ms;
                            (
                                self.after_transient(),
                                TransferAction::RetryProbe { delay_ms: delay },
                                CounterDelta::zero(),
                            )
                        }
                    } else {
                        (self.fail(), TransferAction::Abort, CounterDelta::zero())
                    }
                },
                _ => (*self, TransferAction::Ignore, CounterDelta::zero()),
            },
            TransferPhase::Downloading => match event {
                TransferEvent::Chunk { len } => {
                    let total = match self.total_length {
                        Some(t) => t,
                        None => 0,
                    };
                    if len <= total - self.completed_length {
                        let new_completed = self.completed_length + len;
                        let done = new_completed == total;
                        (
                            TransferMachine {
                                phase: if done {
                                    TransferPhase::Completed
                                } else {
                                    TransferPhase::Downloading
                                },
                                completed_length: new_completed,
                                backoff_ms: self.initial_backoff_ms,
                                ..*self
                            },
                            if done {
                                TransferAction::AppendThenFinish
                            } else {
                                TransferAction::Append
                            },
                            CounterDelta {
                                add_total_bytes: 0,
                                add_completed_bytes: len,
                                add_completed_count: if done {
                                    1
                                } else {
                                    0
                                },
                            },
                        )
                    } else {
                        (self.fail(), TransferAction::Abort, CounterDelta::zero())
                    }
                },
                TransferEvent::StreamEnded => {
                    if self.retries_left == 0 {
                        (self.fail(), TransferAction::Abort, CounterDelta::zero())
                    } else {
                        let delay = self.backoff_ms;
                        let start = self.completed_length;
                        (
                            self.after_transient(),
                            TransferAction::Retry { delay_ms: delay, start },
                            CounterDelta::zero(),
                        )
                    }
                },
                TransferEvent::Failed { kind } => {
                    if is_transient(kind) {
                        if self.retries_left == 0 {
                            (self.fail(), TransferAction::Abort, CounterDelta::zero())
                        } else {
                            let delay = self.backoff_ms;
                            let start = self.completed_length;
                            (
                                self.after_transient(),
                                TransferAction::Retry { delay_ms: delay, start },
                                CounterDelta::zero(),
                            )
                        }
                    } else {
                        (self.fail(), TransferAction::Abort, CounterDelta::zero())
                    }
                },
                _ => (*self, TransferAction::Ignore, CounterDelta::zero()),
            },
            TransferPhase::Completed => (*self, TransferAction::Ignore, CounterDelta::zero()),
            TransferPhase::Failed => (*self, TransferAction::Ignore, CounterDelta::zero()),
        }
    }

    /// The same machine, fatally failed.
    fn fail(&self) -> (r: TransferMachine)
        ensures
            r == (TransferMachine { phase: TransferPhase::Failed, ..*self }),
    {
        TransferMachine { phase: TransferPhase::Failed, ..*self }
    }

    /// One retry spent, backoff doubled up to the cap.
    fn after_transient(&self) -> (r: TransferMachine)
        requires
            self.retries_left > 0,
            self.backoff_ms <= self.max_backoff_ms,
        ensures
            r == after_transient_spec(*self),
    {
        let doubled: u64 = if self.backoff_ms > self.max_backoff_ms / 2 {
            self.max_backoff_ms
        } else {
            self.backoff_ms * 2
        };
        proof {
            assert(doubled == next_backoff_spec(self.backoff_ms, self.max_backoff_ms));
        }
        TransferMachine { retries_left: self.retries_left - 1, backoff_ms: doubled, ..*self }
    }
}

/// The actions that write the chunk just delivered to the destination file.
pub open spec fn appends_chunk(a: TransferAction) -> bool {
    a is Append || a is AppendThenFinish
}

/// The destination file after acting: the chunk's bytes are appended exactly
/// when the action says to write them; nothing is ever overwritten.
pub open spec fn apply_file(file: Seq<u8>, a: TransferAction, data: Seq<u8>) -> Seq<u8> {
    if appends_chunk(a) {
        file + data
    } else {
        file
    }
}

/// A well-behaved remote holding the bytes `remote`: the probe reports the
/// resource's full length, and a chunk delivered while `m.completed_length`
/// bytes are complete carries exactly the resource's bytes at that offset.
pub open spec fn event_consistent(
    remote: Seq<u8>,
    m: TransferMachine,
    e: TransferEvent,
    data: Seq<u8>,
) -> bool {
    match e {
        TransferEvent::ProbeOk { length } => length == remote.len() && data.len() == 0,
        TransferEvent::Chunk { len } => {
            &&& data.len() == len
            &&& m.completed_length + len <= remote.len()
            &&& data == remote.subrange(
                m.completed_length as int,
                m.completed_length + len as int,
            )
        },
        _ => data.len() == 0,
    }
}

/// The machine's view of the transfer agrees with the file on disk and with
/// the remote resource: the file is exactly the first `completed_length`
/// bytes of the resource, and `total_length`, once probed, is its full
/// length.
pub open spec fn file_inv(remote: Seq<u8>, m: TransferMachine, file: Seq<u8>) -> bool {
    &&& m.wf()
    &&& m.completed_length <= remote.len()
    &&& file == remote.take(m.completed_length as int)
    &&& (m.total_length is Some ==> m.total_length->0 == remote.len())
}

/// One step against a well-behaved remote keeps the file a clean prefix of
/// the resource, never touches bytes already written, and, when it
/// completes, has written the resource exactly.
pub proof fn lemma_step_preserves_file_inv(
    remote: Seq<u8>,
    m: TransferMachine,
    file: Seq<u8>,
    e: TransferEvent,
    data: Seq<u8>,
)
    requires
        file_inv(remote, m, file),
        event_consistent(remote, m, e, data),
    ensures
        ({
            let (m2, a, d) = step_spec(m, e);
            let file2 = apply_file(file, a, data);
            &&& file_inv(remote, m2, file2)
            &&& file2.len() >= file.len()
            &&& file2.take(file.len() as int) == file
            &&& (m2.phase is Completed ==> file2 == remote)
        }),
{
    let (m2, a, d) = step_spec(m, e);
    let file2 = apply_file(file, a, data);
    if appends_chunk(a) {
        let len = e->Chunk_len;
        assert(file2 =~= remote.take(m.completed_length + len as int));
        assert(file2.take(file.len() as int) =~= file);
    } else {
        assert(file2.take(file.len() as int) =~= file);
    }
    if m2.phase is Completed {
        assert(m2.completed_length == remote.len());
        assert(file2 =~= remote);
    }
}

/// A run of the machine: fold the trace of observed events (with the chunk
/// bytes each carried) through `step_spec` and `apply_file`.
pub open spec fn run_trace(
    m: TransferMachine,
    file: Seq<u8>,
    trace: Seq<(TransferEvent, Seq<u8>)>,
) -> (TransferMachine, Seq<u8>)
    decreases trace.len(),
{
    if trace.len() == 0 {
        (m, file)
    } else {
        let (e, data) = trace[0];
        let (m2, a, d) = step_spec(m, e);
        run_trace(m2, apply_file(file, a, data), trace.drop_first())
    }
}

/// Every event of the trace is consistent with the remote resource at the
/// machine state it arrives in.
pub open spec fn trace_consistent(
    remote: Seq<u8>,
    m: TransferMachine,
    trace: Seq<(TransferEvent, Seq<u8>)>,
) -> bool
    decreases trace.len(),
{
    if trace.len() == 0 {
        true
    } else {
        let (e, data) = trace[0];
        &&& event_consistent(remote, m, e, data)
        &&& trace_consistent(remote, step_spec(m, e).0, trace.drop_first())
    }
}

/// Resume correctness: however a transfer against a well-behaved remote
/// unfolds — chunks, transient faults, retries — the bytes already in the
/// destination file are never written again, the file always stays a clean
/// prefix of the remote resource, and if the machine reaches `Completed`
/// the file is byte-identical to the whole resource, exactly as a fresh,
/// uninterrupted download would have left it.
pub proof fn lemma_resume_correctness(
    remote: Seq<u8>,
    m: TransferMachine,
    file: Seq<u8>,
    trace: Seq<(TransferEvent, Seq<u8>)>,
)
    requires
        file_inv(remote, m, file),
        trace_consistent(remote, m, trace),
    ensures
        ({
            let (m2, file2) = run_trace(m, file, trace);
            &&& file_inv(remote, m2, file2)
            &&& file2.len() >= file.len()
            &&& file2.take(file.len() as int) == file
            &&& (m2.phase is Completed ==> file2 == remote)
        }),
    decreases trace.len(),
{
    if trace.len() == 0 {
    } else {
        let (e, data) = trace[0];
        let (m1, a, d) = step_spec(m, e);
        let file1 = apply_file(file, a, data);
        lemma_step_preserves_file_inv(remote, m, file, e, data);
        lemma_resume_correctness(remote, m1, file1, trace.drop_first());
        let (m2, file2) = run_trace(m1, file1, trace.drop_first());
        assert(file2.take(file.len() as int) =~= file) by {
            assert(file2.take(file1.len() as int) == file1);
            assert(file1.take(file.len() as int) == file);
            assert forall|i: int| 0 <= i < file.len() implies file2[i] == file[i] by {
                assert(file2.take(file1.len() as int)[i] == file1[i]);
                assert(file1.take(file.len() as int)[i] == file[i]);
            }
        }
    }
}

/// Resume correctness for a fresh resume: starting a transfer over a
/// destination file that already holds the resource's first
/// `existing_bytes` bytes, nothing before `existing_bytes` is ever written
/// again, and a completed run leaves the file byte-identical to the
/// resource.
pub proof fn lemma_resume_from_partial_file(
    remote: Seq<u8>,
    existing_bytes: u64,
    max_retries: u32,
    initial_backoff_ms: u64,
    max_backoff_ms: u64,
    trace: Seq<(TransferEvent, Seq<u8>)>,
)
    requires
        existing_bytes <= remote.len(),
        trace_consistent(
            remote,
            TransferMachine::start_spec(
                existing_bytes,
                max_retries,
                initial_backoff_ms,
                max_backoff_ms,
            ),
            trace,
        ),
    ensures
        ({
            let m = TransferMachine::start_spec(
                existing_bytes,
                max_retries,
                initial_backoff_ms,
                max_backoff_ms,
            );
            let (m2, file2) = run_trace(m, remote.take(existing_bytes as int), trace);
            &&& file2.take(existing_bytes as int) == remote.take(existing_bytes as int)
            &&& (m2.phase is Completed ==> file2 == remote)
        }),
{
    let m = TransferMachine::start_spec(
        existing_bytes,
        max_retries,
        initial_backoff_ms,
        max_backoff_ms,
    );
    lemma_resume_correctness(remote, m, remote.take(existing_bytes as int), trace);
}

/// Every range request the machine ever asks for resumes exactly at the
/// bytes already on disk: no byte below `completed_length` (in particular
/// none below `existing_bytes`) is ever requested again.
pub proof fn lemma_requests_resume_at_completed(m: TransferMachine, e: TransferEvent)
    requires
        m.wf(),
    ensures
        ({
            let (m2, a, d) = step_spec(m, e);
            match a {
                TransferAction::Request { start } => start == m2.completed_length
                    && start >= m.existing_bytes,
                TransferAction::Retry { delay_ms, start } => start == m2.completed_length
                    && start >= m.existing_bytes,
                _ => true,
            }
        }),
{
}

/// How many bytes this transfer has published into the batch's `total_bytes`
/// counter so far: the resource's full length, once probed.
pub open spec fn published_total(m: TransferMachine) -> int {
    if m.total_length is Some {
        m.total_length->0 as int
    } else {
        0
    }
}

/// How many bytes this transfer has published into the batch's
/// `completed_bytes` counter so far: the bytes on disk, capped at the
/// resource's length, once probed.
pub open spec fn published_completed(m: TransferMachine) -> int {
    if m.total_length is Some {
        if m.completed_length <= m.total_length->0 {
            m.completed_length as int
        } else {
            m.total_length->0 as int
        }
    } else {
        0
    }
}

/// How much this transfer has published into the batch's `completed_count`
/// counter so far: one, once complete.
pub open spec fn published_count(m: TransferMachine) -> int {
    if m.phase is Completed {
        1
    } else {
        0
    }
}

/// The machine after a sequence of events (the chunk bytes do not matter to
/// the machine, only the lengths the events carry).
pub open spec fn run_events(m: TransferMachine, events: Seq<TransferEvent>) -> TransferMachine
    decreases events.len(),
{
    if events.len() == 0 {
        m
    } else {
        run_events(step_spec(m, events[0]).0, events.drop_first())
    }
}

/// The counter deltas a sequence of events makes the machine publish, in
/// order.
pub open spec fn event_deltas(m: TransferMachine, events: Seq<TransferEvent>) -> Seq<CounterDelta>
    decreases events.len(),
{
    if events.len() == 0 {
        Seq::empty()
    } else {
        seq![step_spec(m, events[0]).2] + event_deltas(
            step_spec(m, events[0]).0,
            events.drop_first(),
        )
    }
}

/// Each step publishes exactly the change of what the machine has published:
/// the delta of every event accounts precisely for the probe's length, the
/// chunk's bytes, and completion, never more and never twice.
pub proof fn lemma_step_delta_accounting(m: TransferMachine, e: TransferEvent)
    requires
        m.wf(),
    ensures
        ({
            let (m2, a, d) = step_spec(m, e);
            &&& d.add_total_bytes == published_total(m2) - published_total(m)
            &&& d.add_completed_bytes == published_completed(m2) - published_completed(m)
            &&& d.add_completed_count == published_count(m2) - published_count(m)
        }),
{
}

/// Over a whole trace, the published deltas sum to the change of what the
/// machine has published.
pub proof fn lemma_trace_delta_sums(m: TransferMachine, events: Seq<TransferEvent>)
    requires
        m.wf(),
    ensures
        ({
            let m2 = run_events(m, events);
            let ds = event_deltas(m, events);
            &&& m2.wf()
            &&& crate::batch::sum_total_bytes(ds) == published_total(m2) - published_total(m)
            &&& crate::batch::sum_completed_bytes(ds) == published_completed(m2)
                - published_completed(m)
            &&& crate::batch::sum_completed_count(ds) == published_count(m2) - published_count(m)
        }),
    decreases events.len(),
{
    if events.len() == 0 {
    } else {
        let (m1, a, d) = step_spec(m, events[0]);
        lemma_step_delta_accounting(m, events[0]);
        assert(step_spec(m, events[0]).0.wf()) by {
            lemma_step_wf(m, events[0]);
        }
        lemma_trace_delta_sums(m1, events.drop_first());
        let ds = event_deltas(m, events);
        assert(ds.drop_first() =~= event_deltas(m1, events.drop_first()));
    }
}

/// Stepping a well-formed machine yields a well-formed machine.
pub proof fn lemma_step_wf(m: TransferMachine, e: TransferEvent)
    requires
        m.wf(),
    ensures
        step_spec(m, e).0.wf(),
{
}

/// A transfer that starts fresh and runs to completion publishes, in total,
/// exactly the resource's full length into both byte counters and exactly
/// one completed item — whatever faults and retries happened on the way.
pub proof fn lemma_completed_transfer_accounting(m: TransferMachine, events: Seq<TransferEvent>)
    requires
        m.wf(),
        m.phase is Probing,
        run_events(m, events).phase is Completed,
    ensures
        ({
            let m2 = run_events(m, events);
            let ds = event_deltas(m, events);
            &&& m2.total_length is Some
            &&& crate::batch::sum_total_bytes(ds) == m2.total_length->0
            &&& crate::batch::sum_completed_bytes(ds) == m2.total_length->0
            &&& crate::batch::sum_completed_count(ds) == 1
        }),
{
    lemma_trace_delta_sums(m, events);
}

/// Progress is never lost: over any events whatsoever, the bytes counted as
/// complete only grow, and never fall below what the destination file held
/// when the transfer began.
pub proof fn lemma_progress_monotone(m: TransferMachine, events: Seq<TransferEvent>)
    requires
        m.wf(),
    ensures
        run_events(m, events).completed_length >= m.completed_length,
        run_events(m, events).existing_bytes == m.existing_bytes,
    decreases events.len(),
{
    if events.len() == 0 {
    } else {
        lemma_step_wf(m, events[0]);
        lemma_progress_monotone(step_spec(m, events[0]).0, events.drop_first());
    }
}

/// The retry budget is honored: a transfer never retries more than
/// `retries_left` times in a row. Once more transient faults arrive than the
/// budget allows, the machine has failed — it does not hammer the remote
/// endpoint forever.
pub proof fn lemma_retry_budget_is_bounded(m: TransferMachine, events: Seq<TransferEvent>)
    requires
        m.wf(),
        events.len() > m.retries_left,
        forall|i: int|
            0 <= i < events.len() ==> ((#[trigger] events[i]) matches TransferEvent::Failed {
                kind,
            } && is_transient_spec(kind)),
    ensures
        (m.phase is Probing || m.phase is Downloading) ==> run_events(m, events).phase is Failed,
        (m.phase is Completed || m.phase is Failed) ==> run_events(m, events) == m,
    decreases events.len(),
{
    if m.phase is Completed || m.phase is Failed {
        lemma_terminal_state_is_absorbing(m, events);
    } else {
        let m1 = step_spec(m, events[0]).0;
        lemma_step_wf(m, events[0]);
        if m.retries_left == 0 {
            lemma_terminal_state_is_absorbing(m1, events.drop_first());
        } else {
            assert(forall|i: int|
                0 <= i < events.drop_first().len() ==> (#[trigger] events.drop_first()[i])
                    == events[i + 1]);
            lemma_retry_budget_is_bounded(m1, events.drop_first());
        }
    }
}

/// A completed or failed transfer never moves again: every further event is
/// ignored.
pub proof fn lemma_terminal_state_is_absorbing(m: TransferMachine, events: Seq<TransferEvent>)
    requires
        m.phase is Completed || m.phase is Failed,
    ensures
        run_events(m, events) == m,
    decreases events.len(),
{
    if events.len() == 0 {
    } else {
        lemma_terminal_state_is_absorbing(m, events.drop_first());
    }
}

/// Idempotent completion: when the destination file already holds exactly
/// the probed length, the probe's outcome completes the transfer at once —
/// the action is `Finish`, not a range request — and the transfer counts as
/// one completed item of the probed size.
pub proof fn lemma_idempotent_completion(m: TransferMachine, length: u64)
    requires
        m.wf(),
        m.phase is Probing,
        m.completed_length == length,
    ensures
        ({
            let (m2, a, d) = step_spec(m, TransferEvent::ProbeOk { length });
            &&& m2.phase is Completed
            &&& a is Finish
            &&& d.add_completed_count == 1
            &&& d.add_completed_bytes == length
            &&& d.add_total_bytes == length
        }),
{
}

} // verus!
