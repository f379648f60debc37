//! The messages that travel from the stream reader to the session's owner.

use vstd::prelude::*;

verus! {

/// One message from the stream reader.
#[derive(Debug, Clone, PartialEq, Eq)]
pub enum TransCoderResponse {
    /// The process closed its output. Nothing follows.
    EOS,
    /// The process could not be started; the text says why. Nothing follows.
    Error(String),
    /// One chunk of transcoded bytes.
    Data(Vec<u8>),
}

/// The mathematical value of a [`TransCoderResponse`].
pub enum Message {
    Eos,
    Error(Seq<char>),
    Data(Seq<u8>),
}

impl Message {
    /// A terminal message ends the stream: the reader emits nothing after it.
    pub open spec fn is_terminal(self) -> bool {
        !(self is Data)
    }

    /// The bytes a message carries: those of a `Data` chunk, none otherwise.
    pub open spec fn payload(self) -> Seq<u8> {
        match self {
            Message::Data(bytes) => bytes,
            _ => Seq::empty(),
        }
    }
}

impl View for TransCoderResponse {
    type V = Message;

    open spec fn view(&self) -> Message {
        match *self {
            TransCoderResponse::EOS => Message::Eos,
            TransCoderResponse::Error(description) => Message::Error(description@),
            TransCoderResponse::Data(bytes) => Message::Data(bytes@),
        }
    }
}

impl TransCoderResponse {
    /// Whether this message ends the stream.
    pub fn is_terminal(&self) -> (terminal: bool)
        ensures
            terminal == self@.is_terminal(),
    {
        match self {
            TransCoderResponse::Data(_) => false,
            _ => true,
        }
    }
}

/// The views of a run of messages, in order.
pub open spec fn messages(responses: Seq<TransCoderResponse>) -> Seq<Message> {
    responses.map_values(|response: TransCoderResponse| response@)
}

/// The payloads of a run of messages, concatenated in order.
pub open spec fn payload_of(messages: Seq<Message>) -> Seq<u8>
    decreases messages.len(),
{
    if messages.len() == 0 {
        Seq::empty()
    } else {
        payload_of(messages.drop_last()) + messages.last().payload()
    }
}

/// Appending one message appends its payload.
pub proof fn lemma_payload_push(messages: Seq<Message>, message: Message)
    ensures
        payload_of(messages.push(message)) == payload_of(messages) + message.payload(),
{
    assert(messages.push(message).drop_last() =~= messages);
}

/// The payload of two runs joined is the two payloads joined.
pub proof fn lemma_payload_concat(front: Seq<Message>, back: Seq<Message>)
    ensures
        payload_of(front + back) == payload_of(front) + payload_of(back),
    decreases back.len(),
{
    if back.len() > 0 {
        lemma_payload_concat(front, back.drop_last());
        assert((front + back).drop_last() =~= front + back.drop_last());
    }
}

} // verus!
