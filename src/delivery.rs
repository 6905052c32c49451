//! The decisions of a download: what each event on a record's live feed
//! leads to, and how the store's errors reach a client.
use vstd::prelude::*;

use bytes::Bytes;

verus! {

/// The ways a request on the store can fail.
#[derive(Clone, Copy, Debug, PartialEq, Eq, Structural)]
pub enum StoreError {
    /// No resource is stored at the path (or under the prefix).
    NotFound,
    /// The listing route was reached with another verb.
    MethodNotAllowed,
    /// A download fell further behind its feed than the feed holds; the
    /// client must start the download again.
    Lagged,
}

impl StoreError {
    /// The HTTP status that reports this error.
    pub fn status_code(&self) -> (r: u16)
        ensures
            *self == StoreError::NotFound ==> r == 404,
            *self == StoreError::MethodNotAllowed ==> r == 405,
            *self == StoreError::Lagged ==> r == 500,
    {
        match self {
            StoreError::NotFound => 404,
            StoreError::MethodNotAllowed => 405,
            StoreError::Lagged => 500,
        }
    }
}

/// What a download's wait on the live feed came back with.
pub enum FeedEvent {
    /// The next chunk of the resource.
    Chunk(Bytes),
    /// Chunks were dropped before this reader took them.
    Lagged(u64),
    /// The upload ended and every chunk sent has been read.
    Closed,
}

/// What a download does next.
pub enum FeedStep {
    /// Hand the chunk to the client and wait on the feed again.
    Emit(Bytes),
    /// End the response with this error.
    Fail(StoreError),
    /// End the response successfully.
    Finish,
}

/// Decides a download's next step from one event on its feed: a chunk goes
/// out as it came, a lag ends the download with an error rather than a
/// silent gap, and the feed's close ends it cleanly.
pub fn next_step(event: FeedEvent) -> (r: FeedStep)
    ensures
        event is Chunk ==> r == FeedStep::Emit(event->Chunk_0),
        event is Lagged ==> r == FeedStep::Fail(StoreError::Lagged),
        event is Closed ==> r == FeedStep::Finish,
{
    match event {
        FeedEvent::Chunk(c) => FeedStep::Emit(c),
        FeedEvent::Lagged(_) => FeedStep::Fail(StoreError::Lagged),
        FeedEvent::Closed => FeedStep::Finish,
    }
}

} // verus!
