use crate::backoff::{backoff_ms, backoff_wait};
use vstd::prelude::*;

verus! {

/// Why one delivery attempt, or the whole delivery of a record, failed.
#[derive(Debug, Clone)]
pub enum Error {
    WriteFailed(String),
    ReadFailed(String),
    AckUnmatched(String, String),
    MaxRetriesExceeded,
    ConnectionClosed,
}

/// The text that describes an error.
pub open spec fn error_text(e: Error) -> Seq<char> {
    match e {
        Error::WriteFailed(s) => s@,
        Error::ReadFailed(s) => s@,
        Error::AckUnmatched(_, _) => "request chunk and response ack did not match"@,
        Error::MaxRetriesExceeded => "max retries exceeded"@,
        Error::ConnectionClosed => "connection closed"@,
    }
}

impl Error {
    /// The text that describes this error.
    pub fn message(&self) -> (r: String)
        ensures
            r@ == error_text(*self),
    {
        match self {
            Error::WriteFailed(s) => s.clone(),
            Error::ReadFailed(s) => s.clone(),
            Error::AckUnmatched(_, _) => "request chunk and response ack did not match".to_owned(),
            Error::MaxRetriesExceeded => "max retries exceeded".to_owned(),
            Error::ConnectionClosed => "connection closed".to_owned(),
        }
    }
}

/// One log event: a tag, a time in seconds since the epoch, the payload (a
/// MessagePack map, already encoded) and the options sent along with it.
#[derive(Clone, Debug)]
pub struct Record {
    pub tag: String,
    pub timestamp: i64,
    pub record: Vec<u8>,
    pub options: Options,
}

/// Options of a record: the chunk identifier that the server echoes back.
#[derive(Clone, Debug)]
pub struct Options {
    pub chunk: String,
}

/// What travels through the delivery queue.
#[derive(Clone)]
pub enum Message {
    Record(Record),
    Terminate,
}

/// A record in its wire form, with the chunk that its ack must carry.
#[derive(Debug)]
pub struct SerializedRecord {
    pub record: Vec<u8>,
    pub chunk: String,
}

/// How the delivery of one record is retried.
pub struct RetryConfig {
    pub initial_wait: u64,
    pub max: u32,
    pub max_wait: u64,
}

/// What the delivery loop does next.
pub enum RetryAction {
    /// Sleep `wait_ms` milliseconds, then run one write-then-verify cycle.
    Attempt { wait_ms: u64 },
    /// Stop and report this result.
    Finish(Result<(), Error>),
}

/// What one write-then-verify cycle means for the delivery loop.
pub enum CycleVerdict {
    /// Delivery is over, with this result.
    Finished(Result<(), Error>),
    /// Go on with `next_attempt`, after `wait_ms` milliseconds.
    Retry { next_attempt: u32, wait_ms: u64 },
}

/// The verdict on attempt `attempt` (counting from zero) whose cycle ended in
/// `outcome`: success and a closed connection end the delivery at once; any
/// other failure is retried after the backoff wait.
pub open spec fn cycle_verdict(cfg: RetryConfig, attempt: nat, outcome: Result<(), Error>) -> CycleVerdict {
    match outcome {
        Ok(()) => CycleVerdict::Finished(Ok(())),
        Err(Error::ConnectionClosed) => CycleVerdict::Finished(Err(Error::ConnectionClosed)),
        Err(_) => CycleVerdict::Retry {
            next_attempt: (attempt + 1) as u32,
            wait_ms: backoff_ms(cfg.initial_wait as nat, cfg.max_wait as nat, attempt) as u64,
        },
    }
}

impl RetryConfig {
    /// The wait after attempt `attempt` failed.
    pub fn wait_after(&self, attempt: u32) -> (r: u64)
        ensures
            r == backoff_ms(self.initial_wait as nat, self.max_wait as nat, attempt as nat),
    {
        backoff_wait(self.initial_wait, self.max_wait, attempt)
    }

    /// What to do before attempt `attempt`, given the wait that the previous
    /// failure asked for (zero before the first attempt).
    pub fn next_action(&self, attempt: u32, wait_ms: u64) -> (r: RetryAction)
        ensures
            attempt < self.max ==> r == (RetryAction::Attempt { wait_ms }),
            attempt >= self.max ==> r == RetryAction::Finish(Err(Error::MaxRetriesExceeded)),
    {
        if attempt < self.max {
            RetryAction::Attempt { wait_ms }
        } else {
            RetryAction::Finish(Err(Error::MaxRetriesExceeded))
        }
    }

    /// The verdict on attempt `attempt`, whose cycle ended in `outcome`.
    pub fn on_cycle(&self, attempt: u32, outcome: Result<(), Error>) -> (r: CycleVerdict)
        requires
            attempt < self.max,
        ensures
            r == cycle_verdict(*self, attempt as nat, outcome),
    {
        match outcome {
            Ok(()) => CycleVerdict::Finished(Ok(())),
            Err(Error::ConnectionClosed) => CycleVerdict::Finished(Err(Error::ConnectionClosed)),
            Err(_) => CycleVerdict::Retry {
                next_attempt: attempt + 1,
                wait_ms: self.wait_after(attempt),
            },
        }
    }
}

/// What one read from the stream means while an ack is awaited: a transport
/// error fails the read, zero bytes mean the peer closed, anything else means
/// keep reading.
pub open spec fn read_verdict(read: Result<usize, String>) -> Option<Error> {
    match read {
        Err(e) => Some(Error::ReadFailed(e)),
        Ok(n) => if n == 0 {
            Some(Error::ConnectionClosed)
        } else {
            None
        },
    }
}

/// The verdict on a read made while waiting for an ack.
pub fn after_read(read: Result<usize, String>) -> (r: Option<Error>)
    ensures
        r == read_verdict(read),
{
    match read {
        Err(e) => Some(Error::ReadFailed(e)),
        Ok(n) => if n == 0 {
            Some(Error::ConnectionClosed)
        } else {
            None
        },
    }
}

/// The result of a cycle whose ack carried `ack`, for a record sent with `chunk`.
pub open spec fn ack_verdict(ack: String, chunk: String) -> Result<(), Error> {
    if ack@ == chunk@ {
        Ok(())
    } else {
        Err(Error::AckUnmatched(ack, chunk))
    }
}

/// Compares the ack that came back with the chunk that was sent.
pub fn check_ack(ack: String, chunk: &String) -> (r: Result<(), Error>)
    ensures
        r == ack_verdict(ack, *chunk),
{
    if ack == *chunk {
        Ok(())
    } else {
        Err(Error::AckUnmatched(ack, chunk.clone()))
    }
}

/// An ack that does not match the chunk fails the cycle with `AckUnmatched`,
/// and the delivery loop goes on with the next attempt.
pub proof fn lemma_mismatch_is_retried(cfg: RetryConfig, attempt: nat, ack: String, chunk: String)
    requires
        ack@ != chunk@,
        attempt < cfg.max,
    ensures
        ack_verdict(ack, chunk) == Err::<(), Error>(Error::AckUnmatched(ack, chunk)),
        cycle_verdict(cfg, attempt, ack_verdict(ack, chunk)) == (CycleVerdict::Retry {
            next_attempt: (attempt + 1) as u32,
            wait_ms: backoff_ms(cfg.initial_wait as nat, cfg.max_wait as nat, attempt) as u64,
        }),
{
}

/// A read of zero bytes before an ack fails the cycle with `ConnectionClosed`,
/// and the delivery loop ends at once, whatever attempts are left.
pub proof fn lemma_closed_ends_delivery(cfg: RetryConfig, attempt: nat)
    ensures
        read_verdict(Ok(0usize)) == Some(Error::ConnectionClosed),
        cycle_verdict(cfg, attempt, Err(Error::ConnectionClosed)) == CycleVerdict::Finished(
            Err(Error::ConnectionClosed),
        ),
{
}

/// The delivery of one record from attempt `attempt` on, where the cycle of
/// attempt `k` ends in `outcomes[k]`: the result, and how many cycles ran in
/// all. This is the loop that `next_action` and `on_cycle` drive.
pub open spec fn delivery(cfg: RetryConfig, attempt: nat, outcomes: Seq<Result<(), Error>>) -> (
    Result<(), Error>,
    nat,
)
    decreases cfg.max - attempt,
{
    if attempt >= cfg.max {
        (Err(Error::MaxRetriesExceeded), attempt)
    } else {
        match cycle_verdict(cfg, attempt, outcomes[attempt as int]) {
            CycleVerdict::Finished(r) => (r, attempt + 1),
            CycleVerdict::Retry { .. } => delivery(cfg, attempt + 1, outcomes),
        }
    }
}

/// A record whose first cycle is acknowledged is delivered with one cycle and
/// no retry.
pub proof fn lemma_acked_at_once(cfg: RetryConfig, outcomes: Seq<Result<(), Error>>)
    requires
        cfg.max > 0,
        outcomes.len() > 0,
        outcomes[0] == Ok::<(), Error>(()),
    ensures
        delivery(cfg, 0, outcomes) == (Ok::<(), Error>(()), 1nat),
{
}

/// A record whose first cycle finds the connection closed is given up after
/// that one cycle, whatever attempts are left.
pub proof fn lemma_closed_at_once(cfg: RetryConfig, outcomes: Seq<Result<(), Error>>)
    requires
        cfg.max > 0,
        outcomes.len() > 0,
        outcomes[0] == Err::<(), Error>(Error::ConnectionClosed),
    ensures
        delivery(cfg, 0, outcomes) == (Err::<(), Error>(Error::ConnectionClosed), 1nat),
{
}

/// When every cycle fails with a retryable error (a failed write or read, a
/// mismatched ack), every attempt is used and the record is given up with
/// `MaxRetriesExceeded`.
pub proof fn lemma_all_attempts_used(
    cfg: RetryConfig,
    attempt: nat,
    outcomes: Seq<Result<(), Error>>,
)
    requires
        attempt <= cfg.max,
        outcomes.len() >= cfg.max,
        forall|k: int|
            attempt <= k < cfg.max ==> (#[trigger] outcomes[k]) is Err && !(outcomes[k]->Err_0 is ConnectionClosed),
    ensures
        delivery(cfg, attempt, outcomes) == (Err::<(), Error>(Error::MaxRetriesExceeded), cfg.max as nat),
    decreases cfg.max - attempt,
{
    if attempt < cfg.max {
        lemma_all_attempts_used(cfg, attempt + 1, outcomes);
    }
}

/// What the worker got from its queue.
pub enum Received {
    Message(Message),
    /// Every sender is gone.
    Closed,
    /// The worker fell behind and some messages were dropped.
    Lagged,
}

/// What the worker does with what it got.
pub enum WorkerAction {
    Deliver(Record),
    Stop,
    Skip,
}

/// The worker's main loop, one step: deliver a record, stop on `Terminate` or
/// on a closed queue, and go on past dropped messages.
pub fn on_received(r: Received) -> (a: WorkerAction)
    ensures
        match r {
            Received::Message(Message::Record(rec)) => a == WorkerAction::Deliver(rec),
            Received::Message(Message::Terminate) => a == WorkerAction::Stop,
            Received::Closed => a == WorkerAction::Stop,
            Received::Lagged => a == WorkerAction::Skip,
        },
{
    match r {
        Received::Message(Message::Record(rec)) => WorkerAction::Deliver(rec),
        Received::Message(Message::Terminate) => WorkerAction::Stop,
        Received::Closed => WorkerAction::Stop,
        Received::Lagged => WorkerAction::Skip,
    }
}

/// Whether the connection is due for renewal: only when a lifetime is set
/// (non-zero) and the time since the last connect has reached it. Both are
/// in nanoseconds.
pub fn lifetime_reached(lifetime: u128, elapsed: u128) -> (r: bool)
    ensures
        r == (lifetime != 0 && elapsed >= lifetime),
{
    lifetime != 0 && elapsed >= lifetime
}

} // verus!
