use crate::codec::new_record;
use crate::worker::{Message, RetryConfig};
use tokio::sync::broadcast::Sender;
use vstd::prelude::*;

verus! {

#[verifier::external_type_specification]
#[verifier::external_body]
#[verifier::reject_recursive_types(T)]
pub struct ExSender<T>(Sender<T>);

/// Relies on `tokio::sync::broadcast::Sender::send`: enqueues the message and
/// returns `true`, or returns `false` when no receiver is left.
#[verifier::external_body]
fn enqueue(sender: &Sender<Message>, m: Message) -> (r: bool)
    opens_invariants none
    no_unwind
{
    sender.send(m).is_ok()
}

/// Relies on `chrono::Local::now().timestamp()`: the current time in seconds.
#[verifier::external_body]
fn now_seconds() -> i64 {
    chrono::Local::now().timestamp()
}

/// The queue refused a message: the worker has exited.
#[derive(Debug, Clone)]
pub struct SendError {
    pub source: String,
}

impl SendError {
    /// The text that describes this error.
    pub fn message(&self) -> (r: String)
        ensures
            r@ == self.source@,
    {
        self.source.clone()
    }
}

/// Configuration of a client.
#[derive(Debug, Clone)]
pub struct Config {
    /// How long to wait for a connection to the server, in milliseconds
    /// (default 3000).
    pub timeout: u64,
    /// The base wait between retries, in milliseconds (default 500).
    pub retry_wait: u64,
    /// How many attempts one record gets (default 10).
    pub max_retry: u32,
    /// The ceiling of the wait between retries, in milliseconds (default 60000).
    pub max_retry_wait: u64,
    /// How long a connection is used before it is renewed, in milliseconds;
    /// zero never renews it (the default). Renewal is checked only when a
    /// record is sent.
    pub max_connection_lifetime: u64,
}

impl Default for Config {
    fn default() -> (r: Self)
        ensures
            r.timeout == 3000,
            r.retry_wait == 500,
            r.max_retry == 10,
            r.max_retry_wait == 60000,
            r.max_connection_lifetime == 0,
    {
        Config {
            timeout: 3000,
            retry_wait: 500,
            max_retry: 10,
            max_retry_wait: 60000,
            max_connection_lifetime: 0,
        }
    }
}

impl Config {
    /// The retry policy of the worker that this configuration sets up.
    pub fn retry_config(&self) -> (r: RetryConfig)
        ensures
            r.initial_wait == self.retry_wait,
            r.max == self.max_retry,
            r.max_wait == self.max_retry_wait,
    {
        RetryConfig {
            initial_wait: self.retry_wait,
            max: self.max_retry,
            max_wait: self.max_retry_wait,
        }
    }
}

/// What every client offers: send a record, and stop.
pub trait FluentClient {
    fn send(&self, tag: &str, record: Vec<u8>) -> Result<(), SendError>;

    fn stop(self) -> Result<(), SendError> where Self: std::marker::Sized;
}

/// The sending side of a client: records go onto the worker's queue.
pub struct Client {
    sender: Sender<Message>,
}

/// The result of handing a message to the queue: success exactly when the
/// queue took it, and otherwise the closed-queue error.
pub fn queue_outcome(accepted: bool) -> (r: Result<(), SendError>)
    ensures
        r is Ok <==> accepted,
        r matches Err(e) ==> e.source@ == "channel closed"@,
{
    if accepted {
        Ok(())
    } else {
        Err(SendError { source: "channel closed".to_owned() })
    }
}

/// The message that asks the worker to stop.
pub fn stop_message() -> (m: Message)
    ensures
        m == Message::Terminate,
    opens_invariants none
    no_unwind
{
    Message::Terminate
}

impl Client {
    /// A client that feeds the queue behind `sender`.
    pub fn with_sender(sender: Sender<Message>) -> (r: Client) {
        Client { sender }
    }

    /// Sends a record stamped with `timestamp` and a fresh chunk. Fails only
    /// when the queue is closed.
    pub fn send_with_time(&self, tag: &str, record: Vec<u8>, timestamp: i64) -> (r: Result<
        (),
        SendError,
    >)
        ensures
            r matches Err(e) ==> e.source@ == "channel closed"@,
    {
        let rec = new_record(tag, record, timestamp);
        let accepted = enqueue(&self.sender, Message::Record(rec));
        queue_outcome(accepted)
    }

    /// Asks the worker to stop, without waiting for it.
    pub fn request_stop(&self) -> (r: Result<(), SendError>)
        ensures
            r matches Err(e) ==> e.source@ == "channel closed"@,
    {
        let accepted = enqueue(&self.sender, stop_message());
        queue_outcome(accepted)
    }
}

/// A dropped client still asks the worker to stop, on a best-effort basis.
impl Drop for Client {
    fn drop(&mut self)
        opens_invariants none
        no_unwind
    {
        let _ = enqueue(&self.sender, stop_message());
    }
}

impl FluentClient for Client {
    /// Sends a record stamped with the current time.
    fn send(&self, tag: &str, record: Vec<u8>) -> (r: Result<(), SendError>)
        ensures
            r matches Err(e) ==> e.source@ == "channel closed"@,
    {
        self.send_with_time(tag, record, now_seconds())
    }

    /// Stops the worker.
    fn stop(self) -> (r: Result<(), SendError>)
        ensures
            r matches Err(e) ==> e.source@ == "channel closed"@,
    {
        self.request_stop()
    }
}

/// A client that sends nothing.
#[derive(Debug, Clone)]
pub struct NopClient;

impl FluentClient for NopClient {
    fn send(&self, tag: &str, record: Vec<u8>) -> (r: Result<(), SendError>)
        ensures
            r is Ok,
    {
        Ok(())
    }

    fn stop(self) -> (r: Result<(), SendError>)
        ensures
            r is Ok,
    {
        Ok(())
    }
}

} // verus!
