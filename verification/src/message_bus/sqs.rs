//! Messages and errors of the SQS queues.

use vstd::prelude::*;
use vstd::string::*;

verus! {

/// A message for a queue: its body and, for a FIFO queue, its group.
#[derive(Debug)]
pub struct SQSMessage {
    pub body: String,
    pub group: Option<String>,
}

/// A failed queue operation.
#[derive(Debug, Clone)]
pub struct SQSError {
    pub message: String,
}

impl SQSError {
    /// A queue error with the given message.
    pub fn new(message: String) -> (r: SQSError)
        ensures
            r.message == message,
    {
        SQSError { message }
    }
}

} // verus!
