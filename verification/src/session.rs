//! The transcoding session: its lifecycle, its running flag, its channel
//! and the reader that fills it.

use crate::channel::{polled_view, ResponseChannel, TryRecvError};
use crate::command::{arguments, texts, transcoder_arguments};
use crate::reader::{emitted, next_phase, requested, Event, ReaderAction, ReaderEvent, ReaderPhase};
use crate::response::{Message, TransCoderResponse};
use vstd::prelude::*;
use vstd::string::StringExecFns;

verus! {

/// The lifecycle of a session. It only moves forward.
#[derive(Debug, Clone, Copy, PartialEq, Eq, Structural)]
pub enum SessionState {
    /// Created; nothing has been started.
    Idle,
    /// Started: a reader has been launched for it.
    Running,
    /// Stopped, for good.
    Stopped,
}

/// The mathematical value of a [`TransCoder`].
pub struct Session {
    /// The source locator, as given.
    pub source: Seq<char>,
    /// Where the session is in its lifecycle.
    pub state: SessionState,
    /// The flag that the reader consults before each read.
    pub running: bool,
    /// The messages emitted and not yet polled, oldest first.
    pub pending: Seq<Message>,
    /// Where the session's reader stands.
    pub phase: ReaderPhase,
    /// Whether the reader has emitted a terminal message.
    pub announced: bool,
    /// Whether the producer's end of the channel is attached. The reader
    /// drops it when it finishes without having announced the end.
    pub attached: bool,
}

/// One thing that can happen to a session.
pub enum Op {
    /// The owner starts it.
    Start,
    /// The owner stops it.
    Stop,
    /// The owner polls it.
    Poll,
    /// The reader reports what came of its last request.
    Reader(Event),
}

impl Session {
    /// A session as `new` creates it.
    pub open spec fn initial(source: Seq<char>) -> Session {
        Session {
            source,
            state: SessionState::Idle,
            running: false,
            pending: Seq::empty(),
            phase: ReaderPhase::Absent,
            announced: false,
            attached: true,
        }
    }

    /// Whether the producer is lost: the reader has finished without
    /// having emitted a terminal message.
    pub open spec fn lost(self) -> bool {
        self.phase is Finished && !self.announced
    }

    /// What holds of a session however it came about: the running flag
    /// is up exactly while it is `Running`; while it is `Idle` it has no
    /// reader and no messages; and the producer's end of its channel is
    /// detached exactly when the producer is lost.
    pub open spec fn well_formed(self) -> bool {
        &&& self.running <==> self.state is Running
        &&& self.state is Idle ==> self.phase is Absent && self.pending.len() == 0
        &&& self.attached <==> !self.lost()
    }

    /// The session after `op`.
    ///
    /// Starting works once, from `Idle`: it raises the flag and launches the
    /// reader. Stopping lowers the flag and ends the lifecycle. A poll
    /// removes the oldest pending message. An event moves the reader on and
    /// queues what it emits behind everything pending; when the reader has
    /// finished and never announced the end, the producer's end is dropped.
    /// Nothing can be queued once it is dropped, and in a well-formed
    /// session nothing is emitted then.
    pub open spec fn step(self, op: Op) -> Session {
        match op {
            Op::Start => if self.state is Idle {
                Session {
                    state: SessionState::Running,
                    running: true,
                    phase: ReaderPhase::Spawning,
                    ..self
                }
            } else {
                self
            },
            Op::Stop => Session { state: SessionState::Stopped, running: false, ..self },
            Op::Poll => if self.pending.len() > 0 {
                Session { pending: self.pending.drop_first(), ..self }
            } else {
                self
            },
            Op::Reader(event) => {
                let phase = next_phase(self.phase, event, self.running);
                let announced = self.announced || match emitted(self.phase, event) {
                    Some(message) => message.is_terminal(),
                    None => false,
                };
                Session {
                    phase,
                    announced,
                    pending: match emitted(self.phase, event) {
                        Some(message) => if self.attached {
                            self.pending.push(message)
                        } else {
                            self.pending
                        },
                        None => self.pending,
                    },
                    attached: self.attached && !(phase is Finished && !announced),
                    ..self
                }
            },
        }
    }

    /// The answer to a poll: the oldest pending message; with nothing
    /// pending, `Disconnected` if the producer's end has been dropped and
    /// `Empty` if it has not.
    pub open spec fn poll_outcome(self) -> Result<Message, TryRecvError> {
        if self.pending.len() > 0 {
            Ok(self.pending.first())
        } else if self.attached {
            Err(TryRecvError::Empty)
        } else {
            Err(TryRecvError::Disconnected)
        }
    }

    /// The message that `op` hands to the owner, if any: the oldest pending
    /// one, on a poll.
    pub open spec fn polled(self, op: Op) -> Option<Message> {
        if op is Poll && self.pending.len() > 0 {
            Some(self.pending.first())
        } else {
            None
        }
    }
}

/// One client's transcoding session.
///
/// The session is the state that the owner and the reader's thread share:
/// whoever holds it decides, and the two take turns. The owner calls
/// `start`, `try_recv` and `stop`; the reader's thread carries out
/// `reader_action` and reports through `reader_step`.
pub struct TransCoder {
    source: String,
    state: SessionState,
    running: bool,
    channel: ResponseChannel,
    phase: ReaderPhase,
    announced: bool,
}

impl View for TransCoder {
    type V = Session;

    closed spec fn view(&self) -> Session {
        Session {
            source: self.source@,
            state: self.state,
            running: self.running,
            pending: self.channel.pending(),
            phase: self.phase,
            announced: self.announced,
            attached: self.channel.connected(),
        }
    }
}

impl TransCoder {
    /// The largest chunk, in bytes, that the reader asks for in one read.
    pub const BUFFER_SIZE: usize = 200 * 1024;

    /// A session for `src`, idle: no flag raised, no reader, nothing queued.
    pub fn new(src: &str) -> (session: Self)
        ensures
            session@ == Session::initial(src@),
    {
        TransCoder {
            source: String::from_str(src),
            state: SessionState::Idle,
            running: false,
            channel: ResponseChannel::new(),
            phase: ReaderPhase::Absent,
            announced: false,
        }
    }

    /// Starts an idle session: raises the running flag and launches the
    /// reader, whose first request is to spawn the process. Returns whether
    /// it did; a session that was started or stopped before is left as it is.
    ///
    /// The caller gives the launched reader its thread.
    pub fn start(&mut self) -> (launched: bool)
        ensures
            launched == (old(self)@.state is Idle),
            final(self)@ == old(self)@.step(Op::Start),
    {
        match self.state {
            SessionState::Idle => {
                self.state = SessionState::Running;
                self.running = true;
                self.phase = ReaderPhase::Spawning;
                true
            },
            _ => false,
        }
    }

    /// Stops the session: lowers the running flag, which the reader sees
    /// before its next read, and ends the lifecycle. Returns whether a
    /// reader was launched for this session and is now to be joined, which
    /// is so on the first stop of a started session only.
    ///
    /// Stopping changes nothing for polls: what is pending can still be
    /// taken, and a reader that then finishes without a terminal message
    /// is a lost producer like any other.
    pub fn stop(&mut self) -> (join: bool)
        ensures
            join == (old(self)@.state is Running),
            final(self)@ == old(self)@.step(Op::Stop),
    {
        let join = match self.state {
            SessionState::Running => true,
            _ => false,
        };
        self.running = false;
        self.state = SessionState::Stopped;
        join
    }

    /// Takes the oldest message that the reader has emitted, without
    /// waiting. With nothing pending the answer is `Empty` while the reader
    /// is at work and after it announced the end of the stream or a failed
    /// spawn, and `Disconnected` once the reader has finished without a
    /// terminal message: after a failed read, or after it was stopped.
    pub fn try_recv(&mut self) -> (outcome: Result<TransCoderResponse, TryRecvError>)
        ensures
            final(self)@ == old(self)@.step(Op::Poll),
            polled_view(outcome) == old(self)@.poll_outcome(),
    {
        self.channel.try_recv()
    }

    /// The request that the reader's thread is to carry out now.
    pub fn reader_action(&self) -> (action: ReaderAction)
        ensures
            action == requested(self@.phase),
    {
        self.phase.request()
    }

    /// Takes in what came of the reader's last request: moves the reader
    /// on, queues the message it emits, and returns its next request. When
    /// the reader has finished and never emitted a terminal message, the
    /// producer's end of the channel is dropped.
    pub fn reader_step(&mut self, event: ReaderEvent) -> (action: ReaderAction)
        ensures
            final(self)@ == old(self)@.step(Op::Reader(event@)),
            action == requested(final(self)@.phase),
    {
        let (phase, message) = self.phase.advance(event, self.running);
        self.phase = phase;
        match message {
            Some(response) => {
                if response.is_terminal() {
                    self.announced = true;
                }
                let _ = self.channel.send(response);
            },
            None => {},
        }
        match phase {
            ReaderPhase::Finished => {
                if !self.announced {
                    self.channel.disconnect();
                }
            },
            _ => {},
        }
        phase.request()
    }

    /// The argument list with which the process is to be spawned.
    pub fn arguments(&self) -> (list: Vec<String>)
        ensures
            texts(list@) == transcoder_arguments(self@.source),
    {
        arguments(self.source.as_str())
    }

    /// The source locator.
    pub fn source(&self) -> (source: &str)
        ensures
            source@ == self@.source,
    {
        self.source.as_str()
    }

    /// Where the session is in its lifecycle.
    pub fn state(&self) -> (state: SessionState)
        ensures
            state == self@.state,
    {
        self.state
    }

    /// Whether the producer is lost: the reader has finished without a
    /// terminal message.
    pub fn is_lost(&self) -> (lost: bool)
        ensures
            lost == self@.lost(),
    {
        match self.phase {
            ReaderPhase::Finished => !self.announced,
            _ => false,
        }
    }

    /// Whether the running flag is up.
    pub fn is_running(&self) -> (running: bool)
        ensures
            running == self@.running,
    {
        self.running
    }
}

} // verus!
