//! The ordered, unbounded queue between the stream reader and the owner of
//! a session.

use crate::response::{messages, Message, TransCoderResponse};
use std::collections::VecDeque;
use vstd::prelude::*;

verus! {

/// Why a non-blocking receive handed out no message.
#[derive(Debug, Clone, Copy, PartialEq, Eq, Structural)]
pub enum TryRecvError {
    /// Nothing is queued at the moment; the producer may still send.
    Empty,
    /// Nothing is queued and the producer's end has been dropped.
    Disconnected,
}

/// The view of the outcome of a poll.
pub open spec fn polled_view(outcome: Result<TransCoderResponse, TryRecvError>) -> Result<
    Message,
    TryRecvError,
> {
    match outcome {
        Ok(response) => Ok(response@),
        Err(reason) => Err(reason),
    }
}

/// A first-in, first-out queue of messages with one producer end.
///
/// Messages leave in the order in which they were sent. The queue has no
/// capacity limit: `send` never waits and never drops a message while the
/// producer's end is attached.
pub struct ResponseChannel {
    queue: VecDeque<TransCoderResponse>,
    connected: bool,
}

impl ResponseChannel {
    /// The messages sent and not yet received, oldest first.
    pub closed spec fn pending(&self) -> Seq<Message> {
        messages(self.queue@)
    }

    /// Whether the producer's end is still attached.
    pub closed spec fn connected(&self) -> bool {
        self.connected
    }

    /// An empty channel with its producer attached.
    pub fn new() -> (channel: Self)
        ensures
            channel.pending() == Seq::<Message>::empty(),
            channel.connected(),
    {
        let channel = ResponseChannel { queue: VecDeque::new(), connected: true };
        channel
    }

    /// Queues `response` behind everything sent before it.
    ///
    /// Once the producer's end has been dropped nothing can be sent: the
    /// message comes back unchanged and the queue is left as it was.
    pub fn send(&mut self, response: TransCoderResponse) -> (outcome: Result<
        (),
        TransCoderResponse,
    >)
        ensures
            final(self).connected() == old(self).connected(),
            old(self).connected() ==> outcome is Ok && final(self).pending() == old(
                self,
            ).pending().push(response@),
            !old(self).connected() ==> outcome == Err::<(), TransCoderResponse>(response)
                && final(self).pending() == old(self).pending(),
    {
        if self.connected {
            self.queue.push_back(response);
            Ok(())
        } else {
            Err(response)
        }
    }

    /// Takes the oldest queued message, if there is one, without waiting.
    ///
    /// With nothing queued the answer is `Empty` while the producer is
    /// attached and `Disconnected` once it has been dropped.
    pub fn try_recv(&mut self) -> (outcome: Result<TransCoderResponse, TryRecvError>)
        ensures
            final(self).connected() == old(self).connected(),
            match outcome {
                Ok(response) => {
                    &&& old(self).pending().len() > 0
                    &&& response@ == old(self).pending().first()
                    &&& final(self).pending() == old(self).pending().drop_first()
                },
                Err(reason) => {
                    &&& old(self).pending().len() == 0
                    &&& final(self).pending() == old(self).pending()
                    &&& reason == if old(self).connected() {
                        TryRecvError::Empty
                    } else {
                        TryRecvError::Disconnected
                    }
                },
            },
    {
        match self.queue.pop_front() {
            Some(response) => {
                Ok(response)
            },
            None => {
                if self.connected {
                    Err(TryRecvError::Empty)
                } else {
                    Err(TryRecvError::Disconnected)
                }
            },
        }
    }

    /// Drops the producer's end. What is queued can still be received.
    pub fn disconnect(&mut self)
        ensures
            !final(self).connected(),
            final(self).pending() == old(self).pending(),
    {
        self.connected = false;
    }

    /// The number of messages queued.
    pub fn len(&self) -> (count: usize)
        ensures
            count == self.pending().len(),
    {
        self.queue.len()
    }

    /// Whether nothing is queued.
    pub fn is_empty(&self) -> (empty: bool)
        ensures
            empty == (self.pending().len() == 0),
    {
        self.queue.len() == 0
    }
}

} // verus!
