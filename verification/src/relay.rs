//! The decisions of the network adapter: what to do with a connection when
//! it opens, on each timer tick, and when it closes.
//!
//! The adapter owns the socket and the timer. The functions here tell it
//! which frames to write, with which reason to close and when to look again;
//! writing, closing and arming the timer are the adapter's own work.

use crate::channel::{polled_view, TryRecvError};
use crate::query::{source_from_resource, source_in};
use crate::response::{Message, TransCoderResponse};
use crate::session::{Op, Session, TransCoder};
use vstd::prelude::*;

verus! {

/// Why the adapter closes a connection.
#[derive(Debug, Clone, Copy, PartialEq, Eq, Structural)]
pub enum CloseReason {
    /// The stream ended: the process closed its output, or the producer
    /// went away without saying so.
    Normal,
    /// Transcoding failed.
    Error,
    /// The request named no source: there is no session to relay.
    Invalid,
    /// The produced stream is empty. No decision of this module gives this
    /// reason: a stream that ended is closed with `Normal`, whatever came
    /// before its end.
    Empty,
}

/// Milliseconds from the opening of a connection to its first tick.
pub const INITIAL_DELAY: u64 = 1;

/// Milliseconds to the next tick after one that relayed data to its limit.
pub const SHORT_DELAY: u64 = 60;

/// Milliseconds to the next tick after one that found nothing more pending.
pub const LONG_DELAY: u64 = 200;

/// The most polls in one tick.
pub const POLL_LIMIT: usize = 200;

/// What to do with the outcome of one poll.
#[derive(Debug, Clone, PartialEq, Eq)]
pub enum Decision {
    /// Write these bytes to the socket as one binary frame; poll on.
    Forward(Vec<u8>),
    /// Close the connection with this reason; poll no more.
    Close(CloseReason),
    /// Report this fault and close with `CloseReason::Error`; poll no more.
    Fail(String),
    /// Nothing is pending: end the tick and look again later.
    Wait,
}

/// The mathematical value of a [`Decision`].
pub enum Verdict {
    Forward(Seq<u8>),
    Close(CloseReason),
    Fail(Seq<char>),
    Wait,
}

impl View for Decision {
    type V = Verdict;

    open spec fn view(&self) -> Verdict {
        match *self {
            Decision::Forward(bytes) => Verdict::Forward(bytes@),
            Decision::Close(reason) => Verdict::Close(reason),
            Decision::Fail(description) => Verdict::Fail(description@),
            Decision::Wait => Verdict::Wait,
        }
    }
}

/// The decision for each outcome of a poll.
///
/// Data is forwarded as it is. The end of the stream closes the connection
/// normally, and so does a producer that went away without announcing it.
/// A failure is reported and closes the connection. With nothing pending
/// the adapter waits.
pub open spec fn verdict(outcome: Result<Message, TryRecvError>) -> Verdict {
    match outcome {
        Ok(Message::Data(bytes)) => Verdict::Forward(bytes),
        Ok(Message::Eos) => Verdict::Close(CloseReason::Normal),
        Ok(Message::Error(description)) => Verdict::Fail(description),
        Err(TryRecvError::Empty) => Verdict::Wait,
        Err(TryRecvError::Disconnected) => Verdict::Close(CloseReason::Normal),
    }
}

/// Decides what to do with the outcome of one poll.
pub fn decide(outcome: Result<TransCoderResponse, TryRecvError>) -> (decision: Decision)
    ensures
        decision@ == verdict(polled_view(outcome)),
{
    match outcome {
        Ok(TransCoderResponse::Data(bytes)) => Decision::Forward(bytes),
        Ok(TransCoderResponse::EOS) => Decision::Close(CloseReason::Normal),
        Ok(TransCoderResponse::Error(description)) => Decision::Fail(description),
        Err(TryRecvError::Empty) => Decision::Wait,
        Err(TryRecvError::Disconnected) => Decision::Close(CloseReason::Normal),
    }
}

/// What the adapter is to do when a connection opens: keep `session`, if
/// there is one, and give its reader a thread; then arm the timer for
/// `rearm` milliseconds.
pub struct OpenPlan {
    pub session: Option<TransCoder>,
    pub rearm: u64,
}

/// What the adapter is to do at one tick: write `frames` in order, each as
/// one binary frame; then report `fault` if there is one, close with
/// `close` if there is one, and arm the timer for `rearm` milliseconds if
/// there is one.
#[derive(Debug, Clone, PartialEq, Eq)]
pub struct TickPlan {
    pub frames: Vec<Vec<u8>>,
    pub close: Option<CloseReason>,
    pub fault: Option<String>,
    pub rearm: Option<u64>,
}

/// The mathematical value of a [`TickPlan`].
pub struct Plan {
    pub frames: Seq<Seq<u8>>,
    pub close: Option<CloseReason>,
    pub fault: Option<Seq<char>>,
    pub rearm: Option<u64>,
}

/// The views of a list of frames, in order.
pub open spec fn frames_of(list: Seq<Vec<u8>>) -> Seq<Seq<u8>> {
    list.map_values(|frame: Vec<u8>| frame@)
}

impl View for TickPlan {
    type V = Plan;

    open spec fn view(&self) -> Plan {
        Plan {
            frames: frames_of(self.frames@),
            close: self.close,
            fault: match self.fault {
                Some(description) => Some(description@),
                None => None,
            },
            rearm: self.rearm,
        }
    }
}

/// How many `Data` messages stand at the front of `pending`, counted up to
/// `limit`.
pub open spec fn leading_data(pending: Seq<Message>, limit: nat) -> nat
    decreases limit,
{
    if limit == 0 || pending.len() == 0 || !(pending.first() is Data) {
        0
    } else {
        1 + leading_data(pending.drop_first(), (limit - 1) as nat)
    }
}

/// The payloads of the first `count` messages of `pending`, in order.
pub open spec fn leading_frames(pending: Seq<Message>, count: nat) -> Seq<Seq<u8>> {
    Seq::new(count, |i: int| pending[i].payload())
}

/// How many messages a tick takes from `pending`: the `Data` messages at
/// the front, up to the poll limit, and the terminal message behind them if
/// the limit was not reached.
pub open spec fn tick_taken(pending: Seq<Message>) -> nat {
    let count = leading_data(pending, POLL_LIMIT as nat);
    if count == POLL_LIMIT || count == pending.len() {
        count
    } else {
        count + 1
    }
}

/// The plan of a tick that finds `pending` queued, with the producer's end
/// of the channel attached or not.
///
/// The `Data` messages at the front of the queue, up to the poll limit,
/// become the frames. If the limit was reached the timer is armed with the
/// short delay. If the queue ran out, the timer is armed with the long
/// delay while the producer is attached; once the producer is lost the
/// connection is closed with `Normal`, as at the end of the stream.
/// Otherwise a terminal message stands behind the frames: the connection is
/// closed, with `Error` and the fault after a failure and with `Normal`
/// at the end of the stream. A tick that closes leaves the timer alone.
pub open spec fn tick_plan(pending: Seq<Message>, attached: bool) -> Plan {
    let count = leading_data(pending, POLL_LIMIT as nat);
    let frames = leading_frames(pending, count);
    if count == POLL_LIMIT {
        Plan { frames, close: None, fault: None, rearm: Some(SHORT_DELAY) }
    } else if count == pending.len() {
        if attached {
            Plan { frames, close: None, fault: None, rearm: Some(LONG_DELAY) }
        } else {
            Plan { frames, close: Some(CloseReason::Normal), fault: None, rearm: None }
        }
    } else {
        match pending[count as int] {
            Message::Error(description) => Plan {
                frames,
                close: Some(CloseReason::Error),
                fault: Some(description),
                rearm: None,
            },
            _ => Plan { frames, close: Some(CloseReason::Normal), fault: None, rearm: None },
        }
    }
}

/// The session after a tick: what the tick took is gone from the front of
/// the queue, and nothing else has changed.
pub open spec fn after_tick(session: Session) -> Session {
    Session { pending: session.pending.skip(tick_taken(session.pending) as int), ..session }
}

/// The plan of a tick on a connection that has no session: close it as
/// invalid.
pub open spec fn rejection() -> Plan {
    Plan { frames: Seq::empty(), close: Some(CloseReason::Invalid), fault: None, rearm: None }
}

/// `count` is the number of leading `Data` messages of `pending` up to
/// `limit` if the first `count` messages are `Data` and the count stops
/// there: at the limit, at the end, or before another kind of message.
pub proof fn lemma_leading_data(pending: Seq<Message>, limit: nat, count: nat)
    requires
        count <= limit,
        count <= pending.len(),
        forall|i: int| 0 <= i < count ==> pending[i] is Data,
        count == limit || count == pending.len() || !(pending[count as int] is Data),
    ensures
        leading_data(pending, limit) == count,
    decreases limit,
{
    if count > 0 {
        let rest = pending.drop_first();
        lemma_leading_data(rest, (limit - 1) as nat, (count - 1) as nat);
    }
}

/// A connection opens with this resource path: if the path names a source,
/// a session for it is created and started, and its reader is to be
/// launched. Otherwise there is no session. Either way the timer is to be
/// armed with [`INITIAL_DELAY`].
pub fn on_open(resource: &str) -> (plan: OpenPlan)
    ensures
        plan.rearm == INITIAL_DELAY,
        match source_in(resource@) {
            Some(source) => {
                &&& plan.session is Some
                &&& plan.session->0@ == Session::initial(source).step(Op::Start)
            },
            None => plan.session is None,
        },
{
    match source_from_resource(resource) {
        Some(source) => {
            let mut session = TransCoder::new(source.as_str());
            let _ = session.start();
            OpenPlan { session: Some(session), rearm: INITIAL_DELAY }
        },
        None => OpenPlan { session: None, rearm: INITIAL_DELAY },
    }
}

/// The timer fires: polls the session until the poll limit is reached,
/// nothing is pending, the stream is over or the producer is found lost,
/// and says what the adapter is to do. Without a session the connection is
/// closed as invalid.
pub fn on_timeout(session: Option<&mut TransCoder>) -> (plan: TickPlan)
    ensures
        match session {
            Some(session) => {
                &&& plan@ == tick_plan(session@.pending, session@.attached)
                &&& final(session)@ == after_tick(session@)
            },
            None => plan@ == rejection(),
        },
{
    match session {
        Some(session) => drain(session),
        None => {
            let frames: Vec<Vec<u8>> = Vec::new();
            assert(frames_of(frames@) =~= Seq::<Seq<u8>>::empty());
            TickPlan { frames, close: Some(CloseReason::Invalid), fault: None, rearm: None }
        },
    }
}

/// One tick on a connection that has a session.
fn drain(session: &mut TransCoder) -> (plan: TickPlan)
    ensures
        plan@ == tick_plan(old(session)@.pending, old(session)@.attached),
        final(session)@ == after_tick(old(session)@),
{
    let ghost before = session@;
    let ghost queued = session@.pending;
    let mut frames: Vec<Vec<u8>> = Vec::new();
    let mut polls: usize = 0;
    assert(queued.skip(0) =~= queued);
    assert(frames_of(frames@) =~= leading_frames(queued, 0));
    while polls < POLL_LIMIT
        invariant
            polls <= POLL_LIMIT,
            polls <= queued.len(),
            before == old(session)@,
            queued == before.pending,
            session@ == (Session { pending: queued.skip(polls as int), ..before }),
            forall|i: int| 0 <= i < polls ==> queued[i] is Data,
            frames_of(frames@) == leading_frames(queued, polls as nat),
        decreases POLL_LIMIT - polls,
    {
        let ghost rest = session@.pending;
        let outcome = session.try_recv();
        proof {
            if rest.len() > 0 {
                assert(rest.first() == queued[polls as int]);
                assert(rest.drop_first() =~= queued.skip(polls + 1));
            }
        }
        let ghost view = polled_view(outcome);
        let ghost shown = frames_of(frames@);
        match decide(outcome) {
            Decision::Forward(bytes) => {
                assert(view == Ok::<Message, TryRecvError>(Message::Data(bytes@)));
                frames.push(bytes);
                polls += 1;
                assert(frames_of(frames@) =~= shown.push(bytes@));
            },
            Decision::Close(reason) => {
                proof {
                    lemma_leading_data(queued, POLL_LIMIT as nat, polls as nat);
                }
                return TickPlan { frames, close: Some(reason), fault: None, rearm: None };
            },
            Decision::Fail(description) => {
                assert(view == Ok::<Message, TryRecvError>(Message::Error(description@)));
                proof {
                    lemma_leading_data(queued, POLL_LIMIT as nat, polls as nat);
                }
                return TickPlan {
                    frames,
                    close: Some(CloseReason::Error),
                    fault: Some(description),
                    rearm: None,
                };
            },
            Decision::Wait => {
                proof {
                    lemma_leading_data(queued, POLL_LIMIT as nat, polls as nat);
                }
                return TickPlan { frames, close: None, fault: None, rearm: Some(LONG_DELAY) };
            },
        }
    }
    proof {
        lemma_leading_data(queued, POLL_LIMIT as nat, polls as nat);
    }
    TickPlan { frames, close: None, fault: None, rearm: Some(SHORT_DELAY) }
}

/// The connection closes: the session, if there is one, is stopped. Returns
/// whether its reader is now to be joined.
pub fn on_close(session: Option<&mut TransCoder>) -> (join: bool)
    ensures
        match session {
            Some(session) => {
                &&& final(session)@ == session@.step(Op::Stop)
                &&& join == (session@.state is Running)
            },
            None => !join,
        },
{
    match session {
        Some(session) => session.stop(),
        None => false,
    }
}

/// A tick closes a connection for one of two reasons: `Error`, with the
/// fault, after a failure, and `Normal` at the end of the stream or when
/// the producer is lost. It never both closes and arms the timer, and it
/// always does one of the two. With the producer lost it never arms the
/// long delay: it closes as soon as the queue runs out.
pub proof fn lemma_tick_outcomes(pending: Seq<Message>, attached: bool)
    ensures
        tick_plan(pending, attached).close is Some <==> tick_plan(pending, attached).rearm
            is None,
        tick_plan(pending, attached).fault is Some <==> tick_plan(pending, attached).close
            == Some(CloseReason::Error),
        tick_plan(pending, attached).close is Some ==> tick_plan(pending, attached).close
            == Some(CloseReason::Error) || tick_plan(pending, attached).close == Some(
            CloseReason::Normal,
        ),
        !attached ==> tick_plan(pending, attached).rearm != Some(LONG_DELAY),
        !attached && pending.len() == 0 ==> tick_plan(pending, attached).close == Some(
            CloseReason::Normal,
        ),
{
}

} // verus!
