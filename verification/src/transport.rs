//! What a message-oriented transport hands to the session: frames, and the
//! errors of reading one. The session never touches a socket; its caller
//! reads and writes, and describes what happened in these types.

use vstd::prelude::*;

verus! {

/// One frame of the transport.
#[derive(Debug)]
pub enum Frame {
    Text(String),
    Binary(Vec<u8>),
    Close,
    Ping(Vec<u8>),
    Pong(Vec<u8>),
}

/// The mathematical content of a [`Frame`].
pub ghost enum FrameView {
    Text(Seq<char>),
    Binary(Seq<u8>),
    Close,
    Ping(Seq<u8>),
    Pong(Seq<u8>),
}

impl View for Frame {
    type V = FrameView;

    open spec fn view(&self) -> FrameView {
        match self {
            Frame::Text(text) => FrameView::Text(text@),
            Frame::Binary(bytes) => FrameView::Binary(bytes@),
            Frame::Close => FrameView::Close,
            Frame::Ping(bytes) => FrameView::Ping(bytes@),
            Frame::Pong(bytes) => FrameView::Pong(bytes@),
        }
    }
}

/// The classes of transport failure that a caller tells apart.
#[derive(Clone, Copy, Debug, PartialEq, Eq, Structural)]
pub enum TransportErrorKind {
    /// The service refused the connection.
    Refused,
    /// The connection is gone: there is no more data to read. This is the
    /// class on which a caller reconnects.
    Closed,
    /// What arrived is not a frame.
    MalformedFrame,
    /// Any other failure of the transport.
    Other,
}

/// A failure of the transport, with the transport's own words for it.
#[derive(Debug)]
pub struct TransportError {
    pub kind: TransportErrorKind,
    pub message: String,
}

/// The mathematical content of a [`TransportError`].
pub ghost struct TransportErrorView {
    pub kind: TransportErrorKind,
    pub message: Seq<char>,
}

impl View for TransportError {
    type V = TransportErrorView;

    open spec fn view(&self) -> TransportErrorView {
        TransportErrorView { kind: self.kind, message: self.message@ }
    }
}

impl TransportError {
    /// A failure of the given class.
    pub fn new(kind: TransportErrorKind, message: String) -> (error: Self)
        ensures
            error@ == (TransportErrorView { kind, message: message@ }),
    {
        Self { kind, message }
    }

    /// Whether the connection is gone, so that only a reconnect helps.
    pub fn is_disconnect(&self) -> (r: bool)
        ensures
            r == (self@.kind == TransportErrorKind::Closed),
    {
        match self.kind {
            TransportErrorKind::Closed => true,
            _ => false,
        }
    }
}

/// What one read of the transport gave, as the session sees it.
pub type IncomingView = Result<FrameView, TransportErrorView>;

/// The view of what one read of the transport gave.
pub open spec fn incoming_view(incoming: Result<Frame, TransportError>) -> IncomingView {
    match incoming {
        Ok(frame) => Ok(frame@),
        Err(error) => Err(error@),
    }
}

} // verus!
