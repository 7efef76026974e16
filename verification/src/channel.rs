use vstd::prelude::*;
use crate::errors::SubmissionError;
use crate::request::FileReadRequest;

verus! {

#[verifier::external_type_specification]
#[verifier::external_body]
#[verifier::reject_recursive_types(T)]
pub struct ExSender<T>(std::sync::mpsc::Sender<T>);

#[verifier::external_type_specification]
#[verifier::external_body]
#[verifier::reject_recursive_types(T)]
pub struct ExReceiver<T>(std::sync::mpsc::Receiver<T>);

/// What one non-blocking poll of the request channel produced.
pub enum PollOutcome<R> {
    /// A request was waiting.
    Ready(FileReadRequest<R>),
    /// No request was waiting, but senders still exist.
    Empty,
    /// Every sender is gone; the engine can stop.
    Disconnected,
}

/// Relies on std::sync::mpsc::channel: creates a connected sender/receiver
/// pair for read requests.
#[verifier::external_body]
pub(crate) fn request_channel<R>() -> (std::sync::mpsc::Sender<FileReadRequest<R>>, std::sync::mpsc::Receiver<FileReadRequest<R>>) {
    std::sync::mpsc::channel()
}

/// Relies on std::sync::mpsc::Sender::send: queues the request for the
/// engine; it fails when the receiving engine has stopped, and the request
/// (with its unresolved reply sink) is then dropped.
#[verifier::external_body]
pub(crate) fn send_request<R>(
    tx: &std::sync::mpsc::Sender<FileReadRequest<R>>,
    req: FileReadRequest<R>,
) -> (r: Result<(), SubmissionError>) {
    match tx.send(req) {
        Ok(()) => Ok(()),
        Err(_) => Err(SubmissionError),
    }
}

/// Relies on std::sync::mpsc::Receiver::try_recv: polls without blocking and
/// tells a waiting request apart from an empty and from a closed channel.
#[verifier::external_body]
pub(crate) fn poll_request<R>(rx: &std::sync::mpsc::Receiver<FileReadRequest<R>>) -> (r:
    PollOutcome<R>) {
    match rx.try_recv() {
        Ok(req) => PollOutcome::Ready(req),
        Err(std::sync::mpsc::TryRecvError::Empty) => PollOutcome::Empty,
        Err(std::sync::mpsc::TryRecvError::Disconnected) => PollOutcome::Disconnected,
    }
}

/// Relies on std::sync::mpsc::Receiver::recv: blocks until a request arrives
/// (Some) or every sender is gone (None).
#[verifier::external_body]
pub(crate) fn wait_request<R>(rx: &std::sync::mpsc::Receiver<FileReadRequest<R>>) -> (r: Option<
    FileReadRequest<R>,
>) {
    match rx.recv() {
        Ok(req) => Some(req),
        Err(_) => None,
    }
}

} // verus!
