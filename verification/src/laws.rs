//! What holds of every run of a session.
//!
//! A run is a session as `new` creates it and a sequence of things that
//! happen to it, in any order: the owner starts, stops and polls it, and
//! the reader reports events, whether or not they answer what it asked for.

use crate::reader::{answers, emitted, next_phase, requested, Event, ReaderPhase};
use crate::response::{lemma_payload_concat, lemma_payload_push, payload_of, Message};
use crate::channel::TryRecvError;
use crate::session::{Op, Session, SessionState};
use vstd::prelude::*;

verus! {

/// The session for `source` after the run `ops`.
pub open spec fn run(source: Seq<char>, ops: Seq<Op>) -> Session
    decreases ops.len(),
{
    if ops.len() == 0 {
        Session::initial(source)
    } else {
        run(source, ops.drop_last()).step(ops.last())
    }
}

/// The messages that the polls of the run `ops` handed to the owner, in
/// the order of the polls.
pub open spec fn polled(source: Seq<char>, ops: Seq<Op>) -> Seq<Message>
    decreases ops.len(),
{
    if ops.len() == 0 {
        Seq::empty()
    } else {
        let before = polled(source, ops.drop_last());
        match run(source, ops.drop_last()).polled(ops.last()) {
            Some(message) => before.push(message),
            None => before,
        }
    }
}

/// Every message of the run `ops`: those polled, then those still pending.
pub open spec fn messages_of(source: Seq<char>, ops: Seq<Op>) -> Seq<Message> {
    polled(source, ops) + run(source, ops).pending
}

/// The bytes that the reader took from the process in the run `ops`: those
/// of every read reported while a read was due, in order.
pub open spec fn bytes_read(source: Seq<char>, ops: Seq<Op>) -> Seq<u8>
    decreases ops.len(),
{
    if ops.len() == 0 {
        Seq::empty()
    } else {
        let before = bytes_read(source, ops.drop_last());
        if run(source, ops.drop_last()).phase is Reading {
            match ops.last() {
                Op::Reader(Event::Read(bytes)) => before + bytes,
                _ => before,
            }
        } else {
            before
        }
    }
}

/// Whether, in the run `ops`, the process closed its output: a read that
/// was due reported no bytes.
pub open spec fn output_closed(source: Seq<char>, ops: Seq<Op>) -> bool
    decreases ops.len(),
{
    if ops.len() == 0 {
        false
    } else {
        output_closed(source, ops.drop_last()) || (run(source, ops.drop_last()).phase is Reading
            && match ops.last() {
            Op::Reader(Event::Read(bytes)) => bytes.len() == 0,
            _ => false,
        })
    }
}

/// The description with which spawning failed in the run `ops`, if it did:
/// that of a failure reported while the spawn was due.
pub open spec fn spawn_failure(source: Seq<char>, ops: Seq<Op>) -> Option<Seq<char>>
    decreases ops.len(),
{
    if ops.len() == 0 {
        None
    } else {
        match spawn_failure(source, ops.drop_last()) {
            Some(description) => Some(description),
            None => if run(source, ops.drop_last()).phase is Spawning {
                match ops.last() {
                    Op::Reader(Event::SpawnFailed(description)) => Some(description),
                    _ => None,
                }
            } else {
                None
            },
        }
    }
}

/// How many readers were launched in the run `ops`: one for every start of
/// an idle session.
pub open spec fn launches(source: Seq<char>, ops: Seq<Op>) -> nat
    decreases ops.len(),
{
    if ops.len() == 0 {
        0
    } else {
        let before = launches(source, ops.drop_last());
        if ops.last() is Start && run(source, ops.drop_last()).state is Idle {
            before + 1
        } else {
            before
        }
    }
}

/// `count` polls, one after the other.
pub open spec fn polls(count: nat) -> Seq<Op> {
    Seq::new(count, |i: int| Op::Poll)
}

/// Whether every message of `messages` but the last is `Data`.
pub open spec fn data_before_last(messages: Seq<Message>) -> bool {
    forall|i: int| 0 <= i < messages.len() - 1 ==> #[trigger] messages[i] is Data
}

/// Whether every message of `messages` is `Data`.
pub open spec fn all_data(messages: Seq<Message>) -> bool {
    forall|i: int| 0 <= i < messages.len() ==> #[trigger] messages[i] is Data
}

/// What ties the messages of a run to where its reader stands and to what
/// the reader was told:
///
/// - the payloads of the messages are the bytes read;
/// - the session is well-formed;
/// - the reader has announced the end exactly if the last message is a
///   terminal one;
/// - one reader was launched unless the reader is absent;
/// - there is no message before the reader reads, only `Data` while it
///   reads, and afterwards only `Data` before the last message;
/// - after a failed spawn the one message is its `Error` and the reader has
///   finished, and without one there is no `Error`;
/// - after the output closed the last message is `Eos` and no read is due,
///   and without that there is no `Eos`.
pub open spec fn consistent(source: Seq<char>, ops: Seq<Op>) -> bool {
    let session = run(source, ops);
    let all = messages_of(source, ops);
    &&& payload_of(all) == bytes_read(source, ops)
    &&& session.well_formed()
    &&& session.announced <==> all.len() > 0 && all.last().is_terminal()
    &&& launches(source, ops) == if session.phase is Absent {
        0nat
    } else {
        1nat
    }
    &&& match session.phase {
        ReaderPhase::Absent | ReaderPhase::Spawning => all.len() == 0,
        ReaderPhase::Reading => all_data(all),
        _ => data_before_last(all),
    }
    &&& match spawn_failure(source, ops) {
        Some(description) => all == seq![Message::Error(description)] && session.phase
            is Finished,
        None => forall|i: int| 0 <= i < all.len() ==> !(#[trigger] all[i] is Error),
    }
    &&& if output_closed(source, ops) {
        all.len() > 0 && all.last() is Eos && !(session.phase is Reading)
    } else {
        forall|i: int| 0 <= i < all.len() ==> !(#[trigger] all[i] is Eos)
    }
}

/// The messages of a run after one more thing happened: one more at the
/// end if the reader emitted one, the same otherwise. A poll moves a message
/// from pending to polled and leaves the sequence as it is.
proof fn lemma_messages_step(source: Seq<char>, ops: Seq<Op>)
    requires
        ops.len() > 0,
        run(source, ops.drop_last()).well_formed(),
    ensures
        messages_of(source, ops) == match ops.last() {
            Op::Reader(event) => match emitted(run(source, ops.drop_last()).phase, event) {
                Some(message) => messages_of(source, ops.drop_last()).push(message),
                None => messages_of(source, ops.drop_last()),
            },
            _ => messages_of(source, ops.drop_last()),
        },
{
    let before = ops.drop_last();
    let pending = run(source, before).pending;
    if ops.last() is Poll && pending.len() > 0 {
        assert(polled(source, before).push(pending.first()) + pending.drop_first()
            =~= messages_of(source, before));
    }
}

/// Every run is consistent.
pub proof fn lemma_consistent(source: Seq<char>, ops: Seq<Op>)
    ensures
        consistent(source, ops),
    decreases ops.len(),
{
    if ops.len() > 0 {
        let before = ops.drop_last();
        lemma_consistent(source, before);
        lemma_messages_step(source, ops);
        let phase = run(source, before).phase;
        let all = messages_of(source, before);
        match ops.last() {
            Op::Reader(event) => match emitted(phase, event) {
                Some(message) => {
                    lemma_payload_push(all, message);
                    if phase is Spawning {
                        assert(all.push(message) =~= seq![message]);
                    }
                },
                None => {},
            },
            _ => {},
        }
    }
}

/// The bytes that the polls of a run delivered, followed by those still
/// pending, are exactly the bytes that the reader took from the process,
/// in order: nothing is lost, doubled or moved. Once nothing is pending the
/// polled payloads alone are those bytes.
pub proof fn lemma_bytes_arrive_in_order(source: Seq<char>, ops: Seq<Op>)
    ensures
        payload_of(polled(source, ops)) + payload_of(run(source, ops).pending) == bytes_read(
            source,
            ops,
        ),
        run(source, ops).pending.len() == 0 ==> payload_of(polled(source, ops)) == bytes_read(
            source,
            ops,
        ),
{
    lemma_consistent(source, ops);
    lemma_payload_concat(polled(source, ops), run(source, ops).pending);
    if run(source, ops).pending.len() == 0 {
        assert(payload_of(polled(source, ops)) + Seq::<u8>::empty() =~= payload_of(
            polled(source, ops),
        ));
    }
}

/// Before the reader reads, a run has no message: none while the reader is
/// absent, none while the spawn is due.
pub proof fn lemma_no_message_before_reading(source: Seq<char>, ops: Seq<Op>)
    requires
        run(source, ops).phase is Absent || run(source, ops).phase is Spawning,
    ensures
        messages_of(source, ops).len() == 0,
        polled(source, ops).len() == 0,
        run(source, ops).pending.len() == 0,
{
    lemma_consistent(source, ops);
}

/// While a read is due, every message of the run is `Data`.
pub proof fn lemma_only_data_while_reading(source: Seq<char>, ops: Seq<Op>)
    requires
        run(source, ops).phase is Reading,
    ensures
        all_data(messages_of(source, ops)),
{
    lemma_consistent(source, ops);
}

/// A poll that finds nothing pending answers `Disconnected` exactly when
/// the producer is lost: the reader has finished and the run has no
/// terminal message. While the reader is at work, and after a terminal
/// message, it answers `Empty`.
pub proof fn lemma_disconnected_exactly_when_lost(source: Seq<char>, ops: Seq<Op>)
    requires
        run(source, ops).pending.len() == 0,
    ensures
        run(source, ops).poll_outcome() is Err,
        run(source, ops).poll_outcome() == Err::<Message, TryRecvError>(
            TryRecvError::Disconnected,
        ) <==> run(source, ops).phase is Finished && !(polled(source, ops).len() > 0 && polled(
            source,
            ops,
        ).last().is_terminal()),
        run(source, ops).poll_outcome() == Err::<Message, TryRecvError>(TryRecvError::Empty)
            <==> !(run(source, ops).phase is Finished) || (polled(source, ops).len() > 0
            && polled(source, ops).last().is_terminal()),
{
    lemma_consistent(source, ops);
    assert(messages_of(source, ops) =~= polled(source, ops));
}

/// A terminal message is the last message of its run: whatever happens
/// after it, no message follows, so a run has at most one.
pub proof fn lemma_terminal_is_last(source: Seq<char>, ops: Seq<Op>)
    ensures
        data_before_last(messages_of(source, ops)),
{
    lemma_consistent(source, ops);
    let all = messages_of(source, ops);
    assert forall|i: int| 0 <= i < all.len() - 1 implies #[trigger] all[i] is Data by {}
}

/// After the process closed its output, the run has exactly one `Eos`: it
/// is the last message, and all before it are `Data`. No read is due any
/// more, and the producer stays attached. Once nothing is pending, the last
/// message polled was that `Eos`, and every further poll answers `Empty`.
pub proof fn lemma_end_of_stream_once(source: Seq<char>, ops: Seq<Op>)
    requires
        output_closed(source, ops),
    ensures
        messages_of(source, ops).len() > 0,
        messages_of(source, ops).last() is Eos,
        data_before_last(messages_of(source, ops)),
        run(source, ops).phase is Probing || run(source, ops).phase is Killing || run(
            source,
            ops,
        ).phase is Finished,
        run(source, ops).attached,
        run(source, ops).pending.len() == 0 ==> polled(source, ops).len() > 0 && polled(
            source,
            ops,
        ).last() is Eos,
{
    lemma_consistent(source, ops);
    lemma_terminal_is_last(source, ops);
}

/// Without the process closing its output, no `Eos` is ever emitted.
pub proof fn lemma_no_end_of_stream_unless_closed(source: Seq<char>, ops: Seq<Op>, i: int)
    requires
        !output_closed(source, ops),
        0 <= i < messages_of(source, ops).len(),
    ensures
        !(messages_of(source, ops)[i] is Eos),
{
    lemma_consistent(source, ops);
}

/// After a failed spawn the run has exactly one message, the `Error` with
/// the failure's description: no `Data` and no `Eos`, whatever happens next.
/// The reader has finished, and the producer stays attached.
pub proof fn lemma_spawn_failure_is_only_message(source: Seq<char>, ops: Seq<Op>)
    requires
        spawn_failure(source, ops) is Some,
    ensures
        messages_of(source, ops) == seq![Message::Error(spawn_failure(source, ops)->0)],
        run(source, ops).phase is Finished,
        run(source, ops).attached,
{
    lemma_consistent(source, ops);
}

/// Without a failed spawn, no `Error` is ever emitted.
pub proof fn lemma_no_error_unless_spawn_failed(source: Seq<char>, ops: Seq<Op>, i: int)
    requires
        spawn_failure(source, ops) is None,
        0 <= i < messages_of(source, ops).len(),
    ensures
        !(messages_of(source, ops)[i] is Error),
{
    lemma_consistent(source, ops);
}

/// Every run leaves a well-formed session, and one that is still `Idle`
/// has handed out nothing.
pub proof fn lemma_lifecycle(source: Seq<char>, ops: Seq<Op>)
    ensures
        run(source, ops).well_formed(),
        run(source, ops).state is Idle ==> polled(source, ops).len() == 0,
{
    lemma_consistent(source, ops);
}

/// A run launches at most one reader, and has one exactly when its reader
/// is not absent: a session never has two readers, nor two processes.
pub proof fn lemma_one_reader(source: Seq<char>, ops: Seq<Op>)
    ensures
        launches(source, ops) <= 1,
        launches(source, ops) == 1 <==> !(run(source, ops).phase is Absent),
{
    lemma_consistent(source, ops);
}

/// Polling hands out what is pending, oldest first: after `count` polls
/// the first `count` pending messages have joined those polled, in their
/// order, the rest is still pending, and nothing else has changed. So
/// every message that the reader emits is polled in the end, by as many
/// polls as there are messages pending.
pub proof fn lemma_polls_deliver_pending(source: Seq<char>, ops: Seq<Op>, count: nat)
    requires
        count <= run(source, ops).pending.len(),
    ensures
        run(source, ops + polls(count)) == (Session {
            pending: run(source, ops).pending.skip(count as int),
            ..run(source, ops)
        }),
        polled(source, ops + polls(count)) == polled(source, ops) + run(
            source,
            ops,
        ).pending.take(count as int),
        count == run(source, ops).pending.len() ==> polled(source, ops + polls(count))
            == messages_of(source, ops),
    decreases count,
{
    let pending = run(source, ops).pending;
    if count == 0 {
        assert(pending.skip(0) =~= pending);
    } else {
        let fewer = (count - 1) as nat;
        lemma_polls_deliver_pending(source, ops, fewer);
        let all = ops + polls(count);
        assert(all.drop_last() =~= ops + polls(fewer));
        let rest = pending.skip(fewer as int);
        assert(rest.drop_first() =~= pending.skip(count as int));
        assert(pending.take(fewer as int).push(pending[fewer as int]) =~= pending.take(
            count as int,
        ));
    }
}

/// The rank of a phase in the order in which a reader passes through them.
pub open spec fn phase_rank(phase: ReaderPhase) -> nat {
    match phase {
        ReaderPhase::Absent => 0,
        ReaderPhase::Spawning => 1,
        ReaderPhase::Reading => 2,
        ReaderPhase::Probing => 3,
        ReaderPhase::Killing => 4,
        ReaderPhase::Finished => 5,
    }
}

/// The rank of a state in the order of the lifecycle.
pub open spec fn state_rank(state: SessionState) -> nat {
    match state {
        SessionState::Idle => 0,
        SessionState::Running => 1,
        SessionState::Stopped => 2,
    }
}

/// Nothing moves a session or its reader backwards: no second spawn, no
/// read after the probe, no restart.
pub proof fn lemma_only_forward(session: Session, op: Op)
    requires
        session.well_formed(),
    ensures
        session.step(op).well_formed(),
        state_rank(session.step(op).state) >= state_rank(session.state),
        phase_rank(session.step(op).phase) >= phase_rank(session.phase),
{
}

/// A stopped session stays stopped, with its flag down, whatever happens.
pub proof fn lemma_stop_is_final(session: Session, op: Op)
    requires
        session.well_formed(),
        session.state is Stopped,
    ensures
        session.step(op).state is Stopped,
        !session.step(op).running,
{
}

/// How many answered requests the reader is from its exit, at most, once
/// the running flag is down.
pub open spec fn requests_left(phase: ReaderPhase) -> nat {
    match phase {
        ReaderPhase::Spawning | ReaderPhase::Reading => 3,
        ReaderPhase::Probing => 2,
        ReaderPhase::Killing => 1,
        ReaderPhase::Absent | ReaderPhase::Finished => 0,
    }
}

/// With the running flag down, no event leads into a read: the one that
/// may be under way is the last. And every answer brings the reader closer
/// to its exit, which is at most three answers away.
pub proof fn lemma_reader_winds_down(phase: ReaderPhase, event: Event)
    ensures
        next_phase(phase, event, false) is Reading ==> phase is Reading && !answers(phase, event),
        answers(phase, event) ==> requests_left(next_phase(phase, event, false)) < requests_left(
            phase,
        ),
        !answers(phase, event) ==> next_phase(phase, event, false) == phase,
{
}

/// Once the running flag is down, a reader whose requests are answered
/// asks for its exit after three answers at most, from wherever it stands.
pub proof fn lemma_stopped_reader_exits(
    phase: ReaderPhase,
    first: Event,
    second: Event,
    third: Event,
)
    requires
        ({
            let one = next_phase(phase, first, false);
            let two = next_phase(one, second, false);
            &&& answers(phase, first) || requested(phase) is Exit
            &&& answers(one, second) || requested(one) is Exit
            &&& answers(two, third) || requested(two) is Exit
        }),
    ensures
        ({
            let one = next_phase(phase, first, false);
            let two = next_phase(one, second, false);
            requested(next_phase(two, third, false)) is Exit
        }),
{
    let one = next_phase(phase, first, false);
    let two = next_phase(one, second, false);
    lemma_reader_winds_down(phase, first);
    lemma_reader_winds_down(one, second);
    lemma_reader_winds_down(two, third);
}

/// The reader finishes only when no process is left: the spawn failed, the
/// probe found the process gone, or the kill was carried out.
pub proof fn lemma_process_released(phase: ReaderPhase, event: Event, running: bool)
    requires
        !(phase is Finished),
        next_phase(phase, event, running) is Finished,
    ensures
        (phase is Spawning && event is SpawnFailed) || (phase is Probing && event
            == Event::Liveness(false)) || (phase is Killing && event is Killed),
{
}

} // verus!
