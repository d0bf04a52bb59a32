//! What travels through the job queue.

use vstd::prelude::*;

verus! {

/// One item of the job queue: a unit of work, or the signal that tells the
/// worker that receives it to stop.
#[derive(Debug, PartialEq, Eq)]
pub enum Message<J> {
    NewJob(J),
    Terminate,
}

/// The error of a queue operation whose other side is gone.
#[derive(Debug, Clone, Copy, PartialEq, Eq)]
pub struct Closed;

} // verus!
