//! The worker that reads the image file and feeds it to the loader: what it
//! does next, given what has just happened.

use vstd::prelude::*;
use crate::error::Error;

verus! {

/// Size of the buffer into which the file is read.
pub const BUF_SIZE: usize = 65535;

/// Where the worker stands.
#[derive(Debug)]
pub enum WorkerState {
    /// Nothing was read yet.
    Start,
    /// The first bytes are being read.
    ReadingHead,
    /// The first bytes are read and published; the loader's end of the pipe
    /// is awaited.
    AwaitingWriter { head: Vec<u8> },
    /// The pipe is there and everything read so far is written; more is
    /// being read.
    Reading,
    /// What was read last is being written.
    Writing,
    /// The worker is done.
    Finished,
}

/// What has just happened.
#[derive(Debug)]
pub enum WorkerEvent {
    /// The worker was started.
    Started,
    /// A read gave these bytes; none at the end of the file.
    Read(Vec<u8>),
    /// The first bytes were published.
    HeadPublished,
    /// Nobody waits for the first bytes or for the worker any more.
    Abandoned,
    /// The pipe to the loader is there.
    WriterConnected,
    /// A write is done.
    Written,
    /// Reading or writing has failed.
    Failed(Error),
}

/// What the worker does next.
#[derive(Debug)]
pub enum WorkerAction {
    /// Read up to `BUF_SIZE` bytes.
    Read,
    /// Publish these first bytes.
    PublishHead(Vec<u8>),
    /// Wait for the pipe to the loader.
    AwaitWriter,
    /// Write these bytes to the pipe.
    Write(Vec<u8>),
    /// End, and report this result.
    Finish(Result<(), Error>),
}

impl WorkerState {
    /// The state and the action that follow `event` in `self`.
    ///
    /// The first bytes are read and published, and written once the pipe is
    /// there. Then the worker reads and writes in turn until a read gives
    /// nothing. Whatever is written is what was read last. A failure ends
    /// the worker with its error, and so does being abandoned, with the
    /// error of a cancelled communication. An event that does not fit the
    /// state ends the worker with that error too.
    pub open spec fn after(self, event: WorkerEvent) -> (WorkerState, WorkerAction) {
        match (self, event) {
            (WorkerState::Finished, _) => (
                WorkerState::Finished,
                WorkerAction::Finish(Err(Error::InternalCommunicationCanceled)),
            ),
            (_, WorkerEvent::Failed(err)) => (WorkerState::Finished, WorkerAction::Finish(Err(err))),
            (_, WorkerEvent::Abandoned) => (
                WorkerState::Finished,
                WorkerAction::Finish(Err(Error::InternalCommunicationCanceled)),
            ),
            (WorkerState::Start, WorkerEvent::Started) => (
                WorkerState::ReadingHead,
                WorkerAction::Read,
            ),
            (WorkerState::ReadingHead, WorkerEvent::Read(bytes)) => (
                WorkerState::AwaitingWriter { head: bytes },
                WorkerAction::PublishHead(bytes),
            ),
            (WorkerState::AwaitingWriter { head }, WorkerEvent::HeadPublished) => (
                WorkerState::AwaitingWriter { head },
                WorkerAction::AwaitWriter,
            ),
            (WorkerState::AwaitingWriter { head }, WorkerEvent::WriterConnected) => (
                WorkerState::Writing,
                WorkerAction::Write(head),
            ),
            (WorkerState::Writing, WorkerEvent::Written) => (WorkerState::Reading, WorkerAction::Read),
            (WorkerState::Reading, WorkerEvent::Read(bytes)) => if bytes@.len() == 0 {
                (WorkerState::Finished, WorkerAction::Finish(Ok(())))
            } else {
                (WorkerState::Writing, WorkerAction::Write(bytes))
            },
            _ => (
                WorkerState::Finished,
                WorkerAction::Finish(Err(Error::InternalCommunicationCanceled)),
            ),
        }
    }

    /// The state before anything has happened.
    pub fn new() -> (state: Self)
        ensures
            state is Start,
    {
        WorkerState::Start
    }

    /// What the worker does after `event`, and the state it is in then.
    pub fn step(self, event: WorkerEvent) -> (next: (WorkerState, WorkerAction))
        ensures
            next.0 == self.after(event).0,
            match (next.1, self.after(event).1) {
                (WorkerAction::Read, WorkerAction::Read) => true,
                (WorkerAction::AwaitWriter, WorkerAction::AwaitWriter) => true,
                (WorkerAction::PublishHead(a), WorkerAction::PublishHead(b)) => a@ == b@,
                (WorkerAction::Write(a), WorkerAction::Write(b)) => a == b,
                (WorkerAction::Finish(a), WorkerAction::Finish(b)) => a == b,
                _ => false,
            },
    {
        match (self, event) {
            (WorkerState::Finished, _) => (
                WorkerState::Finished,
                WorkerAction::Finish(Err(Error::InternalCommunicationCanceled)),
            ),
            (_, WorkerEvent::Failed(err)) => (WorkerState::Finished, WorkerAction::Finish(Err(err))),
            (_, WorkerEvent::Abandoned) => (
                WorkerState::Finished,
                WorkerAction::Finish(Err(Error::InternalCommunicationCanceled)),
            ),
            (WorkerState::Start, WorkerEvent::Started) => (
                WorkerState::ReadingHead,
                WorkerAction::Read,
            ),
            (WorkerState::ReadingHead, WorkerEvent::Read(bytes)) => {
                let head = bytes.clone();
                (WorkerState::AwaitingWriter { head: bytes }, WorkerAction::PublishHead(head))
            },
            (WorkerState::AwaitingWriter { head }, WorkerEvent::HeadPublished) => (
                WorkerState::AwaitingWriter { head },
                WorkerAction::AwaitWriter,
            ),
            (WorkerState::AwaitingWriter { head }, WorkerEvent::WriterConnected) => (
                WorkerState::Writing,
                WorkerAction::Write(head),
            ),
            (WorkerState::Writing, WorkerEvent::Written) => (WorkerState::Reading, WorkerAction::Read),
            (WorkerState::Reading, WorkerEvent::Read(bytes)) => {
                if bytes.len() == 0 {
                    (WorkerState::Finished, WorkerAction::Finish(Ok(())))
                } else {
                    (WorkerState::Writing, WorkerAction::Write(bytes))
                }
            },
            _ => (
                WorkerState::Finished,
                WorkerAction::Finish(Err(Error::InternalCommunicationCanceled)),
            ),
        }
    }
}

/// What the worker writes after an event: nothing, or the bytes given.
pub open spec fn written(action: WorkerAction) -> Seq<u8> {
    match action {
        WorkerAction::Write(bytes) => bytes@,
        _ => Seq::empty(),
    }
}

/// What the worker has taken in after an event and not written yet.
pub open spec fn pending(state: WorkerState, action: WorkerAction) -> Seq<u8> {
    match (state, action) {
        (WorkerState::AwaitingWriter { head }, _) => head@,
        (WorkerState::Writing, WorkerAction::Write(bytes)) => bytes@,
        _ => Seq::empty(),
    }
}

/// The worker neither loses nor invents bytes: as long as it has not ended,
/// what it holds after a step is what it held before, and what the step
/// read, less what the step hands out to be written; and whatever it hands
/// out it has held or just read.
pub proof fn lemma_worker_forwards(state: WorkerState, event: WorkerEvent)
    ensures
        ({
            let (next, action) = state.after(event);
            let held = match state {
                WorkerState::AwaitingWriter { head } => head@,
                _ => Seq::<u8>::empty(),
            };
            let read = match event {
                WorkerEvent::Read(bytes) => bytes@,
                _ => Seq::<u8>::empty(),
            };
            &&& !(next is Finished) ==> pending(next, action) == held + read
            &&& written(action).len() > 0 ==> written(action) == held + read
        }),
{
    let (next, action) = state.after(event);
    let held = match state {
        WorkerState::AwaitingWriter { head } => head@,
        _ => Seq::<u8>::empty(),
    };
    let read = match event {
        WorkerEvent::Read(bytes) => bytes@,
        _ => Seq::<u8>::empty(),
    };
    if !(next is Finished) {
        assert(pending(next, action) =~= held + read);
    }
    if written(action).len() > 0 {
        assert(written(action) =~= held + read);
    }
}

} // verus!
