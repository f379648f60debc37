//! The decisions of the stream reader.
//!
//! The reader drives one transcoding process: it has the process spawned,
//! reads its output chunk by chunk while the session is running, and makes
//! sure the process is gone before it exits. Every piece of outside work is
//! a request ([`ReaderAction`]) that the reader's thread carries out; what
//! came of it returns as a [`ReaderEvent`]. The functions here say, for each
//! phase and event, which phase follows and which message is emitted.

use crate::response::{Message, TransCoderResponse};
use vstd::prelude::*;
use vstd::slice::{slice_subrange, slice_to_vec};

verus! {

/// Where the reader stands: which request, if any, it is waiting on.
#[derive(Debug, Clone, Copy, PartialEq, Eq, Structural)]
pub enum ReaderPhase {
    /// No reader has been launched.
    Absent,
    /// Waiting for the process to be spawned.
    Spawning,
    /// Waiting for a read of the process's output.
    Reading,
    /// Waiting to learn whether the process is still alive.
    Probing,
    /// Waiting for the process to be killed.
    Killing,
    /// Nothing is left to do.
    Finished,
}

/// A piece of outside work that the reader asks for.
#[derive(Debug, Clone, Copy, PartialEq, Eq, Structural)]
pub enum ReaderAction {
    /// Spawn the transcoding process with its output piped.
    Spawn,
    /// Read the next chunk of the process's output, waiting for it.
    Read,
    /// Ask, without waiting, whether the process is still alive.
    Probe,
    /// Kill the process.
    Kill,
    /// Leave the thread.
    Exit,
}

/// What came of a request.
#[derive(Debug, Clone, PartialEq, Eq)]
pub enum ReaderEvent {
    /// The process was spawned.
    Spawned,
    /// The process could not be spawned; the text says why.
    SpawnFailed(String),
    /// A read returned these bytes. No bytes: the output has ended.
    Read(Vec<u8>),
    /// A read failed.
    ReadFailed,
    /// The probe's answer: whether the process is known to be still alive.
    Liveness(bool),
    /// The kill was attempted.
    Killed,
}

/// The mathematical value of a [`ReaderEvent`].
pub enum Event {
    Spawned,
    SpawnFailed(Seq<char>),
    Read(Seq<u8>),
    ReadFailed,
    Liveness(bool),
    Killed,
}

impl View for ReaderEvent {
    type V = Event;

    open spec fn view(&self) -> Event {
        match *self {
            ReaderEvent::Spawned => Event::Spawned,
            ReaderEvent::SpawnFailed(description) => Event::SpawnFailed(description@),
            ReaderEvent::Read(bytes) => Event::Read(bytes@),
            ReaderEvent::ReadFailed => Event::ReadFailed,
            ReaderEvent::Liveness(alive) => Event::Liveness(alive),
            ReaderEvent::Killed => Event::Killed,
        }
    }
}

/// The outcome of a read that reported `count` bytes in `buffer`.
pub open spec fn read_outcome(buffer: Seq<u8>, count: int) -> Event {
    if 0 <= count <= buffer.len() {
        Event::Read(buffer.subrange(0, count))
    } else {
        Event::ReadFailed
    }
}

impl ReaderEvent {
    /// The event for a read that reported `count` bytes in `buffer`: a copy
    /// of exactly those bytes, so that the buffer can be used again. A count
    /// beyond the buffer's length is a failed read.
    pub fn chunk(buffer: &[u8], count: usize) -> (event: ReaderEvent)
        ensures
            event@ == read_outcome(buffer@, count as int),
    {
        if count <= buffer.len() {
            ReaderEvent::Read(slice_to_vec(slice_subrange(buffer, 0, count)))
        } else {
            ReaderEvent::ReadFailed
        }
    }
}

/// The request that the reader waits on in `phase`.
pub open spec fn requested(phase: ReaderPhase) -> ReaderAction {
    match phase {
        ReaderPhase::Spawning => ReaderAction::Spawn,
        ReaderPhase::Reading => ReaderAction::Read,
        ReaderPhase::Probing => ReaderAction::Probe,
        ReaderPhase::Killing => ReaderAction::Kill,
        ReaderPhase::Absent | ReaderPhase::Finished => ReaderAction::Exit,
    }
}

/// Whether `event` is an outcome of the request pending in `phase`.
pub open spec fn answers(phase: ReaderPhase, event: Event) -> bool {
    match phase {
        ReaderPhase::Spawning => event is Spawned || event is SpawnFailed,
        ReaderPhase::Reading => event is Read || event is ReadFailed,
        ReaderPhase::Probing => event is Liveness,
        ReaderPhase::Killing => event is Killed,
        ReaderPhase::Absent | ReaderPhase::Finished => false,
    }
}

/// The phase in which the next read is due: the running flag is looked at
/// here, before each read and never during one.
pub open spec fn before_read(running: bool) -> ReaderPhase {
    if running {
        ReaderPhase::Reading
    } else {
        ReaderPhase::Probing
    }
}

/// The phase that follows `phase` on `event`, with the running flag as it
/// stands when the event arrives.
///
/// An event that does not answer the pending request changes nothing. After
/// a failed spawn there is no process and the reader is done. Every other
/// way out of reading leads through the probe, and through the kill if the
/// process is still alive.
pub open spec fn next_phase(phase: ReaderPhase, event: Event, running: bool) -> ReaderPhase {
    match (phase, event) {
        (ReaderPhase::Spawning, Event::Spawned) => before_read(running),
        (ReaderPhase::Spawning, Event::SpawnFailed(_)) => ReaderPhase::Finished,
        (ReaderPhase::Reading, Event::Read(bytes)) => if bytes.len() > 0 {
            before_read(running)
        } else {
            ReaderPhase::Probing
        },
        (ReaderPhase::Reading, Event::ReadFailed) => ReaderPhase::Probing,
        (ReaderPhase::Probing, Event::Liveness(alive)) => if alive {
            ReaderPhase::Killing
        } else {
            ReaderPhase::Finished
        },
        (ReaderPhase::Killing, Event::Killed) => ReaderPhase::Finished,
        _ => phase,
    }
}

/// The message that the reader emits in `phase` on `event`, if any.
///
/// A failed spawn gives `Error` with the description; a read gives `Data`
/// with exactly the bytes read, or `Eos` when there were none. A failed read
/// ends the stream without a message.
pub open spec fn emitted(phase: ReaderPhase, event: Event) -> Option<Message> {
    match (phase, event) {
        (ReaderPhase::Spawning, Event::SpawnFailed(description)) => Some(
            Message::Error(description),
        ),
        (ReaderPhase::Reading, Event::Read(bytes)) => if bytes.len() > 0 {
            Some(Message::Data(bytes))
        } else {
            Some(Message::Eos)
        },
        _ => None,
    }
}

/// The view of an optional message.
pub open spec fn message_of(response: Option<TransCoderResponse>) -> Option<Message> {
    match response {
        Some(response) => Some(response@),
        None => None,
    }
}

impl ReaderPhase {
    /// The request to carry out in this phase.
    pub fn request(self) -> (action: ReaderAction)
        ensures
            action == requested(self),
    {
        match self {
            ReaderPhase::Spawning => ReaderAction::Spawn,
            ReaderPhase::Reading => ReaderAction::Read,
            ReaderPhase::Probing => ReaderAction::Probe,
            ReaderPhase::Killing => ReaderAction::Kill,
            ReaderPhase::Absent => ReaderAction::Exit,
            ReaderPhase::Finished => ReaderAction::Exit,
        }
    }

    /// Takes in `event`, with the running flag as it stands now, and gives
    /// the phase that follows and the message to send, if any.
    pub fn advance(self, event: ReaderEvent, running: bool) -> (step: (
        ReaderPhase,
        Option<TransCoderResponse>,
    ))
        ensures
            step.0 == next_phase(self, event@, running),
            message_of(step.1) == emitted(self, event@),
    {
        let resume = if running {
            ReaderPhase::Reading
        } else {
            ReaderPhase::Probing
        };
        match self {
            ReaderPhase::Spawning => match event {
                ReaderEvent::Spawned => (resume, None),
                ReaderEvent::SpawnFailed(description) => (
                    ReaderPhase::Finished,
                    Some(TransCoderResponse::Error(description)),
                ),
                _ => (self, None),
            },
            ReaderPhase::Reading => match event {
                ReaderEvent::Read(bytes) => if bytes.len() > 0 {
                    (resume, Some(TransCoderResponse::Data(bytes)))
                } else {
                    (ReaderPhase::Probing, Some(TransCoderResponse::EOS))
                },
                ReaderEvent::ReadFailed => (ReaderPhase::Probing, None),
                _ => (self, None),
            },
            ReaderPhase::Probing => match event {
                ReaderEvent::Liveness(alive) => if alive {
                    (ReaderPhase::Killing, None)
                } else {
                    (ReaderPhase::Finished, None)
                },
                _ => (self, None),
            },
            ReaderPhase::Killing => match event {
                ReaderEvent::Killed => (ReaderPhase::Finished, None),
                _ => (self, None),
            },
            ReaderPhase::Absent => (self, None),
            ReaderPhase::Finished => (self, None),
        }
    }
}

} // verus!
