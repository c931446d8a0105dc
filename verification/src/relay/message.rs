use vstd::prelude::*;
use vstd::slice::slice_to_vec;

verus! {

/// One unit exchanged over a connection.
///
/// Text and binary payloads are application data and travel through the hub
/// untouched. Ping and pong belong to the transport's keepalive, and a close
/// frame ends the session that receives it.
#[derive(Debug, PartialEq, Eq)]
pub enum Message {
    Text(String),
    Binary(Vec<u8>),
    Ping(Vec<u8>),
    Pong(Vec<u8>),
    Close,
}

/// The mathematical content of a [`Message`].
pub enum MessageView {
    Text(Seq<char>),
    Binary(Seq<u8>),
    Ping(Seq<u8>),
    Pong(Seq<u8>),
    Close,
}

impl MessageView {
    /// Whether the hub forwards a message of this shape to the peers.
    pub open spec fn relayed(self) -> bool {
        self is Text || self is Binary
    }
}

impl View for Message {
    type V = MessageView;

    open spec fn view(&self) -> MessageView {
        match self {
            Message::Text(s) => MessageView::Text(s@),
            Message::Binary(b) => MessageView::Binary(b@),
            Message::Ping(b) => MessageView::Ping(b@),
            Message::Pong(b) => MessageView::Pong(b@),
            Message::Close => MessageView::Close,
        }
    }
}

impl Message {
    /// A text message.
    pub fn text(payload: &str) -> (r: Message)
        ensures
            r@ == MessageView::Text(payload@),
    {
        Message::Text(payload.to_owned())
    }

    /// A binary message.
    pub fn binary(payload: Vec<u8>) -> (r: Message)
        ensures
            r@ == MessageView::Binary(payload@),
    {
        Message::Binary(payload)
    }

    /// Whether the hub forwards this message to the peers: only text and
    /// binary payloads are.
    pub fn is_relayed(&self) -> (r: bool)
        ensures
            r == self@.relayed(),
    {
        match self {
            Message::Text(_) => true,
            Message::Binary(_) => true,
            _ => false,
        }
    }

    /// Whether this is the frame that ends a session.
    pub fn is_close(&self) -> (r: bool)
        ensures
            r == (self@ is Close),
    {
        match self {
            Message::Close => true,
            _ => false,
        }
    }

    /// An independent copy with the same content, byte for byte.
    pub fn duplicate(&self) -> (r: Message)
        ensures
            r@ == self@,
    {
        match self {
            Message::Text(s) => Message::Text(s.clone()),
            Message::Binary(b) => Message::Binary(slice_to_vec(b.as_slice())),
            Message::Ping(b) => Message::Ping(slice_to_vec(b.as_slice())),
            Message::Pong(b) => Message::Pong(slice_to_vec(b.as_slice())),
            Message::Close => Message::Close,
        }
    }
}

impl Clone for Message {
    fn clone(&self) -> (r: Message)
        ensures
            r@ == self@,
    {
        self.duplicate()
    }
}

} // verus!
