//! The subscription session: handshake, channel registration, the receive
//! loop and reconnection, as a state machine without I/O.
//!
//! The caller owns the transport. It asks the session for the frame to
//! send, sends it, reads the answer and hands it back:
//!
//! ```text
//! connect()                     Disconnected -> Connecting   open the transport
//! post_hello(m)       -> frame  Connecting   -> Handshaking  send the frame
//! receive_hello(reply)          Handshaking                  uaid is known
//! post_register(m, k) -> frame  Handshaking  -> Registering  send the frame
//! receive_register(reply)       Registering  -> Active       endpoint is known
//! receive_notification(read)    Active                       per frame read
//! decrypt(notification)         any                          plaintext
//! reconnect()         -> frame  Active       -> Connecting   reopen, send, go on reading
//! ```
//!
//! Key material is made once per channel and handed over with the register.
//! The session keeps it with the channel from the moment the service has
//! registered it, and opens every notification of that channel with it.
//!
//! A request is handed out only when no answer is outstanding, so every
//! send is followed by its receive before the next request. A failed
//! handshake or registration ends the attempt: the session is
//! `Disconnected` and starts over with `connect`. A failure while receiving
//! leaves the session as it is; the caller decides whether to reconnect.
//!
//! After `reconnect` only the hello is sent again, with the subscriber id
//! and channel that the session holds, and its answer is not waited for:
//! the session reads on, and counts as `Active` again with the first frame
//! that arrives. Reconnecting is open to a session in any phase in which
//! no answer is awaited, so a session made with the subscriber id and
//! channel of an earlier one can resume them without a first handshake.

use vstd::prelude::*;
use vstd::string::StringExecFns;
use crate::channel::{Channel, ChannelSet, ChannelView};
use crate::decoder::{
    aes128gcm_open, base64url_decode, decode_envelope, decode_envelope_spec, decoded_view,
    lemma_sealed_record_decodes, EnvelopeError,
};
use crate::kdf::{derive_record_keys_spec, is_uncompressed_point};
use crate::record::{record_bytes, SALT_LEN};
use crate::json::{clone_text, text_view};
use crate::keys::{KeyMaterial, KeyMaterialView};
use crate::message::{
    client_hello_text, client_register_text, parse_notification, parse_server_hello,
    parse_server_register, ClientHelloMessage, ClientHelloView, ClientRegisterMessage,
    ClientRegisterView, Notification, NotificationView, ServerHelloMessage, ServerHelloView,
    ServerRegisterMessage, ServerRegisterView,
};
use crate::transport::{
    incoming_view, Frame, FrameView, IncomingView, TransportError, TransportErrorView,
};

verus! {

/// The state of the connection to the push service.
#[derive(Clone, Copy, Debug, PartialEq, Eq, Structural)]
pub enum ConnectionState {
    Disconnected,
    Connecting,
    Handshaking,
    Registering,
    Active,
}

/// Where exactly a session stands. Each connection state is one phase or
/// two: a handshake is before or after its answer, and a connection is
/// being opened for the first time or anew.
#[derive(Clone, Copy, Debug, PartialEq, Eq, Structural)]
pub enum Phase {
    Disconnected,
    /// `connect` was called; no hello is out yet.
    Connecting,
    /// The hello is out and its answer is awaited.
    HelloSent,
    /// The hello was answered; no register is out yet.
    HelloReceived,
    /// The register is out and its answer is awaited.
    RegisterSent,
    /// The channel is registered; notifications are read.
    Active,
    /// `reconnect` was called; no frame has arrived since.
    Resuming,
}

/// The connection state that a phase belongs to.
pub open spec fn state_of(phase: Phase) -> ConnectionState {
    match phase {
        Phase::Disconnected => ConnectionState::Disconnected,
        Phase::Connecting => ConnectionState::Connecting,
        Phase::HelloSent => ConnectionState::Handshaking,
        Phase::HelloReceived => ConnectionState::Handshaking,
        Phase::RegisterSent => ConnectionState::Registering,
        Phase::Active => ConnectionState::Active,
        Phase::Resuming => ConnectionState::Connecting,
    }
}

/// Whether a request is out whose answer has not been read.
pub open spec fn awaits_reply(phase: Phase) -> bool {
    phase == Phase::HelloSent || phase == Phase::RegisterSent
}

/// Whether the session reads notifications in this phase.
pub open spec fn receives(phase: Phase) -> bool {
    phase == Phase::Active || phase == Phase::Resuming
}

/// The classes of error that a session reports.
#[derive(Clone, Copy, Debug, PartialEq, Eq, Structural)]
pub enum ErrorKind {
    /// The transport failed while notifications were read.
    Transport,
    /// The hello was not answered, not by a well-formed hello, or with a
    /// status other than success.
    Handshake,
    /// The register was not answered, not by a well-formed register, or
    /// with a status other than success.
    Registration,
    /// A frame arrived that is neither a notification nor a ping.
    UnexpectedFrame,
    /// The operation does not fit the phase that the session is in.
    OutOfSequence,
}

/// An error of the session: its class, a message, and the transport's
/// failure where that is the cause.
#[derive(Debug)]
pub struct AutopushClientError {
    pub kind: ErrorKind,
    pub message: String,
    pub error: Option<TransportError>,
}

/// The mathematical content of an [`AutopushClientError`].
pub ghost struct ClientErrorView {
    pub kind: ErrorKind,
    pub message: Seq<char>,
    pub error: Option<TransportErrorView>,
}

impl View for AutopushClientError {
    type V = ClientErrorView;

    open spec fn view(&self) -> ClientErrorView {
        ClientErrorView {
            kind: self.kind,
            message: self.message@,
            error: match self.error {
                Some(error) => Some(error@),
                None => None,
            },
        }
    }
}

/// What the receive loop hands to its caller for one frame.
#[derive(Debug)]
pub enum Inbound {
    /// A notification to deliver.
    Notification(Notification),
    /// The payload of a ping. The caller answers with a pong that carries
    /// it; nothing is delivered.
    Pong(Vec<u8>),
}

/// The mathematical content of an [`Inbound`].
pub ghost enum InboundView {
    Notification(NotificationView),
    Pong(Seq<u8>),
}

impl View for Inbound {
    type V = InboundView;

    open spec fn view(&self) -> InboundView {
        match self {
            Inbound::Notification(notification) => InboundView::Notification(notification@),
            Inbound::Pong(payload) => InboundView::Pong(payload@),
        }
    }
}

/// A phase together with what the session holds only in that phase: the
/// key material of the channel whose registration is awaited.
enum Stage {
    Disconnected,
    Connecting,
    HelloSent,
    HelloReceived,
    RegisterSent(KeyMaterial),
    Active,
    Resuming,
}

impl Stage {
    spec fn phase(self) -> Phase {
        match self {
            Stage::Disconnected => Phase::Disconnected,
            Stage::Connecting => Phase::Connecting,
            Stage::HelloSent => Phase::HelloSent,
            Stage::HelloReceived => Phase::HelloReceived,
            Stage::RegisterSent(_) => Phase::RegisterSent,
            Stage::Active => Phase::Active,
            Stage::Resuming => Phase::Resuming,
        }
    }

    spec fn pending_keys(self) -> Option<KeyMaterialView> {
        match self {
            Stage::RegisterSent(keys) => Some(keys@),
            _ => None,
        }
    }
}

/// A session with the push service.
pub struct AutoPushClient {
    url: String,
    debug: bool,
    uaid: Option<String>,
    channel_id: Option<String>,
    stage: Stage,
    channels: ChannelSet,
}

/// The mathematical content of an [`AutoPushClient`].
pub ghost struct SessionView {
    /// Where the push service is reached.
    pub url: Seq<char>,
    pub debug: bool,
    /// The subscriber id: the one given at the start, then the one that the
    /// service assigned.
    pub uaid: Option<Seq<char>>,
    /// The channel that a hello names: the one given at the start, then the
    /// one that was last asked to be registered.
    pub channel_id: Option<Seq<char>>,
    pub phase: Phase,
    /// The key material of the channel whose registration is awaited.
    pub pending_keys: Option<KeyMaterialView>,
    /// The channels that the service has registered, by id.
    pub channels: Map<Seq<char>, ChannelView>,
}

impl View for AutoPushClient {
    type V = SessionView;

    closed spec fn view(&self) -> SessionView {
        SessionView {
            url: self.url@,
            debug: self.debug,
            uaid: text_view(self.uaid),
            channel_id: text_view(self.channel_id),
            phase: self.stage.phase(),
            pending_keys: self.stage.pending_keys(),
            channels: self.channels@,
        }
    }
}

/// Whether a view is one that a session can have: key material is held
/// for a registration exactly while the register awaits its answer.
pub open spec fn well_formed(session: SessionView) -> bool {
    session.pending_keys is Some <==> session.phase == Phase::RegisterSent
}

/// An error without a transport failure behind it.
pub open spec fn plain_error(kind: ErrorKind, message: Seq<char>) -> ClientErrorView {
    ClientErrorView { kind, message, error: None }
}

/// An error that a transport failure caused: it carries the failure and
/// speaks in its words.
pub open spec fn transport_error(kind: ErrorKind, error: TransportErrorView) -> ClientErrorView {
    ClientErrorView { kind, message: error.message, error: Some(error) }
}

/// The error for an operation that does not fit the phase.
pub open spec fn out_of_sequence() -> ClientErrorView {
    plain_error(ErrorKind::OutOfSequence, "operation out of sequence"@)
}

/// Whether a status reports success: any of 200 to 299.
pub open spec fn is_success(status: u32) -> bool {
    200 <= status < 300
}

/// The hello that a session sends on its own account: WebPush, with the
/// subscriber id and channel that it holds.
pub open spec fn session_hello(session: SessionView) -> ClientHelloView {
    ClientHelloView {
        message_type: "hello"@,
        use_webpush: Some(true),
        uaid: session.uaid,
        channel_id: session.channel_id,
    }
}

/// What the answer to a hello comes to.
///
/// Only a text frame that reads as a hello answer with a status of success
/// completes the handshake. Any other status, any other frame, and any
/// failure to read one, is a handshake error.
pub open spec fn hello_outcome(reply: IncomingView) -> Result<ServerHelloView, ClientErrorView> {
    match reply {
        Ok(FrameView::Text(text)) => match parse_server_hello(text) {
            Some(answer) => if is_success(answer.status) {
                Ok(answer)
            } else {
                Err(plain_error(ErrorKind::Handshake, "handshake refused"@))
            },
            None => Err(plain_error(ErrorKind::Handshake, "malformed hello response"@)),
        },
        Ok(_) => Err(plain_error(ErrorKind::Handshake, "unexpected message"@)),
        Err(error) => Err(transport_error(ErrorKind::Handshake, error)),
    }
}

/// What the answer to a register comes to.
///
/// Only a text frame that reads as a register answer with a status of
/// success completes the registration. Any other status, any other frame,
/// and any failure to read one, is a registration error.
pub open spec fn register_outcome(reply: IncomingView) -> Result<
    ServerRegisterView,
    ClientErrorView,
> {
    match reply {
        Ok(FrameView::Text(text)) => match parse_server_register(text) {
            Some(answer) => if is_success(answer.status) {
                Ok(answer)
            } else {
                Err(plain_error(ErrorKind::Registration, "registration refused"@))
            },
            None => Err(plain_error(ErrorKind::Registration, "malformed register response"@)),
        },
        Ok(_) => Err(plain_error(ErrorKind::Registration, "unexpected message"@)),
        Err(error) => Err(transport_error(ErrorKind::Registration, error)),
    }
}

/// What one read of the receive loop comes to.
///
/// A text frame that reads as a notification is delivered. A ping is
/// answered with its own payload. Every other frame is unexpected, and a
/// failed read is a transport error.
pub open spec fn inbound_outcome(incoming: IncomingView) -> Result<InboundView, ClientErrorView> {
    match incoming {
        Ok(FrameView::Text(text)) => match parse_notification(text) {
            Some(notification) => Ok(InboundView::Notification(notification)),
            None => Err(plain_error(ErrorKind::UnexpectedFrame, "unexpected message"@)),
        },
        Ok(FrameView::Ping(payload)) => Ok(InboundView::Pong(payload)),
        Ok(_) => Err(plain_error(ErrorKind::UnexpectedFrame, "unexpected message"@)),
        Err(error) => Err(transport_error(ErrorKind::Transport, error)),
    }
}

/// The session after `connect`.
pub open spec fn after_connect(session: SessionView) -> SessionView {
    if session.phase == Phase::Disconnected {
        SessionView { phase: Phase::Connecting, ..session }
    } else {
        session
    }
}

/// The session after `post_hello`.
pub open spec fn after_post_hello(session: SessionView) -> SessionView {
    if session.phase == Phase::Connecting {
        SessionView { phase: Phase::HelloSent, ..session }
    } else {
        session
    }
}

/// The session after `receive_hello`: on success it knows its subscriber
/// id, on failure it is disconnected.
pub open spec fn after_receive_hello(session: SessionView, reply: IncomingView) -> SessionView {
    if session.phase == Phase::HelloSent {
        match hello_outcome(reply) {
            Ok(answer) => SessionView {
                phase: Phase::HelloReceived,
                uaid: Some(answer.uaid),
                ..session
            },
            Err(_) => SessionView { phase: Phase::Disconnected, ..session },
        }
    } else {
        session
    }
}

/// The session after `post_register`: it holds the channel asked for and
/// the key material that goes with it.
pub open spec fn after_post_register(
    session: SessionView,
    message: ClientRegisterView,
    keys: KeyMaterialView,
) -> SessionView {
    if session.phase == Phase::HelloReceived {
        SessionView {
            phase: Phase::RegisterSent,
            channel_id: Some(message.channel_id),
            pending_keys: Some(keys),
            ..session
        }
    } else {
        session
    }
}

/// The session after `receive_register`: on success the channel that the
/// answer names is bound to its endpoint and to the key material that came
/// with the register; on failure no channel has changed, the key material
/// is dropped and the session is disconnected.
pub open spec fn after_receive_register(session: SessionView, reply: IncomingView) -> SessionView {
    if session.phase == Phase::RegisterSent {
        match (register_outcome(reply), session.pending_keys) {
            (Ok(answer), Some(keys)) => SessionView {
                phase: Phase::Active,
                pending_keys: None,
                channels: session.channels.insert(
                    answer.channel_id,
                    ChannelView { endpoint: answer.push_endpoint, keys },
                ),
                ..session
            },
            _ => SessionView { phase: Phase::Disconnected, pending_keys: None, ..session },
        }
    } else {
        session
    }
}

/// The plaintext of a notification: that of its payload under the key
/// material of the channel it names, where the session has registered that
/// channel.
pub open spec fn decrypt_spec(session: SessionView, notification: NotificationView) -> Result<
    Seq<u8>,
    EnvelopeError,
> {
    if session.channels.contains_key(notification.channel_id) {
        decode_envelope_spec(notification.data, session.channels[notification.channel_id].keys)
    } else {
        Err(EnvelopeError::UnknownChannel)
    }
}

/// The session after `receive_notification`: a frame that arrived, of
/// whatever kind, shows the connection to be live; a failed read changes
/// nothing.
pub open spec fn after_receive_notification(
    session: SessionView,
    incoming: IncomingView,
) -> SessionView {
    if receives(session.phase) && incoming is Ok {
        SessionView { phase: Phase::Active, ..session }
    } else {
        session
    }
}

/// The session after `reconnect`: unless an answer is awaited, it resumes,
/// whatever phase it was in, and keeps all that it holds.
pub open spec fn after_reconnect(session: SessionView) -> SessionView {
    if !awaits_reply(session.phase) {
        SessionView { phase: Phase::Resuming, ..session }
    } else {
        session
    }
}

/// The view of a result whose two sides both have one.
pub open spec fn outcome_view<T: View, E: View>(r: Result<T, E>) -> Result<T::V, E::V> {
    match r {
        Ok(value) => Ok(value@),
        Err(error) => Err(error@),
    }
}

/// Whether a status reports success.
pub fn status_is_success(status: u32) -> (r: bool)
    ensures
        r == is_success(status),
{
    200 <= status && status < 300
}

/// An error without a transport failure behind it.
fn error_of(kind: ErrorKind, message: &str) -> (error: AutopushClientError)
    ensures
        error@ == plain_error(kind, message@),
{
    AutopushClientError { kind, message: String::from_str(message), error: None }
}

/// An error that a transport failure caused.
fn error_from(kind: ErrorKind, cause: TransportError) -> (error: AutopushClientError)
    ensures
        error@ == transport_error(kind, cause@),
{
    AutopushClientError { kind, message: cause.message.clone(), error: Some(cause) }
}

/// Reads the answer to a hello.
pub fn read_hello_reply(reply: Result<Frame, TransportError>) -> (r: Result<
    ServerHelloMessage,
    AutopushClientError,
>)
    ensures
        outcome_view(r) == hello_outcome(incoming_view(reply)),
{
    match reply {
        Ok(Frame::Text(text)) => match ServerHelloMessage::from_json(text.as_str()) {
            Some(answer) => {
                if status_is_success(answer.status()) {
                    Ok(answer)
                } else {
                    Err(error_of(ErrorKind::Handshake, "handshake refused"))
                }
            },
            None => Err(error_of(ErrorKind::Handshake, "malformed hello response")),
        },
        Ok(_) => Err(error_of(ErrorKind::Handshake, "unexpected message")),
        Err(cause) => Err(error_from(ErrorKind::Handshake, cause)),
    }
}

/// Reads the answer to a register.
pub fn read_register_reply(reply: Result<Frame, TransportError>) -> (r: Result<
    ServerRegisterMessage,
    AutopushClientError,
>)
    ensures
        outcome_view(r) == register_outcome(incoming_view(reply)),
{
    match reply {
        Ok(Frame::Text(text)) => match ServerRegisterMessage::from_json(text.as_str()) {
            Some(answer) => {
                if status_is_success(answer.status()) {
                    Ok(answer)
                } else {
                    Err(error_of(ErrorKind::Registration, "registration refused"))
                }
            },
            None => Err(error_of(ErrorKind::Registration, "malformed register response")),
        },
        Ok(_) => Err(error_of(ErrorKind::Registration, "unexpected message")),
        Err(cause) => Err(error_from(ErrorKind::Registration, cause)),
    }
}

/// Reads one frame of the receive loop.
pub fn read_inbound(incoming: Result<Frame, TransportError>) -> (r: Result<
    Inbound,
    AutopushClientError,
>)
    ensures
        outcome_view(r) == inbound_outcome(incoming_view(incoming)),
{
    match incoming {
        Ok(Frame::Text(text)) => match Notification::from_json(text.as_str()) {
            Some(notification) => Ok(Inbound::Notification(notification)),
            None => Err(error_of(ErrorKind::UnexpectedFrame, "unexpected message")),
        },
        Ok(Frame::Ping(payload)) => Ok(Inbound::Pong(payload)),
        Ok(_) => Err(error_of(ErrorKind::UnexpectedFrame, "unexpected message")),
        Err(cause) => Err(error_from(ErrorKind::Transport, cause)),
    }
}

impl AutoPushClient {
    /// A session that is not connected yet, for the service at `url`, with
    /// the subscriber id and channel of an earlier session where there was
    /// one.
    pub fn new(
        url: &str,
        uaid: Option<String>,
        channel_id: Option<String>,
        debug: bool,
    ) -> (session: Self)
        ensures
            session@ == (SessionView {
                url: url@,
                debug,
                uaid: text_view(uaid),
                channel_id: text_view(channel_id),
                phase: Phase::Disconnected,
                pending_keys: None,
                channels: Map::empty(),
            }),
    {
        Self {
            url: String::from_str(url),
            debug,
            uaid,
            channel_id,
            stage: Stage::Disconnected,
            channels: ChannelSet::new(),
        }
    }

    /// Every session is well formed.
    pub proof fn lemma_well_formed(&self)
        ensures
            well_formed(self@),
    {
    }

    /// Starts a connection attempt. The caller opens a transport to
    /// [`url`](Self::url).
    pub fn connect(&mut self) -> (r: Result<(), AutopushClientError>)
        ensures
            final(self)@ == after_connect(old(self)@),
            match r {
                Ok(_) => old(self)@.phase == Phase::Disconnected,
                Err(error) => old(self)@.phase != Phase::Disconnected && error@
                    == out_of_sequence(),
            },
    {
        match &self.stage {
            Stage::Disconnected => {
                self.stage = Stage::Connecting;
                Ok(())
            },
            _ => Err(error_of(ErrorKind::OutOfSequence, "operation out of sequence")),
        }
    }

    /// Hands out the hello to send on the transport that was just opened.
    pub fn post_hello(&mut self, message: ClientHelloMessage) -> (r: Result<
        String,
        AutopushClientError,
    >)
        ensures
            final(self)@ == after_post_hello(old(self)@),
            match r {
                Ok(frame) => old(self)@.phase == Phase::Connecting && frame@ == client_hello_text(
                    message@,
                ),
                Err(error) => old(self)@.phase != Phase::Connecting && error@
                    == out_of_sequence(),
            },
    {
        match &self.stage {
            Stage::Connecting => {
                self.stage = Stage::HelloSent;
                Ok(message.to_json())
            },
            _ => Err(error_of(ErrorKind::OutOfSequence, "operation out of sequence")),
        }
    }

    /// Takes the answer to the hello, or the failure to read one.
    ///
    /// On success the handshake is complete and the session holds the
    /// subscriber id that the service assigned. On failure the session is
    /// disconnected.
    pub fn receive_hello(&mut self, reply: Result<Frame, TransportError>) -> (r: Result<
        ServerHelloMessage,
        AutopushClientError,
    >)
        ensures
            final(self)@ == after_receive_hello(old(self)@, incoming_view(reply)),
            outcome_view(r) == if old(self)@.phase == Phase::HelloSent {
                hello_outcome(incoming_view(reply))
            } else {
                Err(out_of_sequence())
            },
    {
        match &self.stage {
            Stage::HelloSent => {
                let r = read_hello_reply(reply);
                match &r {
                    Ok(answer) => {
                        self.uaid = Some(String::from_str(answer.uaid()));
                        self.stage = Stage::HelloReceived;
                    },
                    Err(_) => {
                        self.stage = Stage::Disconnected;
                    },
                }
                r
            },
            _ => Err(error_of(ErrorKind::OutOfSequence, "operation out of sequence")),
        }
    }

    /// Hands out the register to send once the handshake is complete, and
    /// takes the key material of the channel into keeping.
    pub fn post_register(&mut self, message: ClientRegisterMessage, keys: KeyMaterial) -> (r:
        Result<String, AutopushClientError>)
        ensures
            final(self)@ == after_post_register(old(self)@, message@, keys@),
            match r {
                Ok(frame) => old(self)@.phase == Phase::HelloReceived && frame@
                    == client_register_text(message@),
                Err(error) => old(self)@.phase != Phase::HelloReceived && error@
                    == out_of_sequence(),
            },
    {
        match &self.stage {
            Stage::HelloReceived => {
                self.channel_id = Some(String::from_str(message.channel_id()));
                self.stage = Stage::RegisterSent(keys);
                Ok(message.to_json())
            },
            _ => Err(error_of(ErrorKind::OutOfSequence, "operation out of sequence")),
        }
    }

    /// Takes the answer to the register, or the failure to read one.
    ///
    /// On success the channel is bound to its endpoint and the session is
    /// active. On failure no channel has become usable and the session is
    /// disconnected.
    pub fn receive_register(&mut self, reply: Result<Frame, TransportError>) -> (r: Result<
        ServerRegisterMessage,
        AutopushClientError,
    >)
        ensures
            final(self)@ == after_receive_register(old(self)@, incoming_view(reply)),
            outcome_view(r) == if old(self)@.phase == Phase::RegisterSent {
                register_outcome(incoming_view(reply))
            } else {
                Err(out_of_sequence())
            },
    {
        let mut stage = Stage::Disconnected;
        core::mem::swap(&mut stage, &mut self.stage);
        match stage {
            Stage::RegisterSent(keys) => {
                let r = read_register_reply(reply);
                match &r {
                    Ok(answer) => {
                        self.channels.insert(
                            Channel {
                                channel_id: String::from_str(answer.channel_id()),
                                endpoint: String::from_str(answer.push_endpoint()),
                                keys,
                            },
                        );
                        self.stage = Stage::Active;
                    },
                    Err(_) => {},
                }
                r
            },
            other => {
                self.stage = other;
                Err(error_of(ErrorKind::OutOfSequence, "operation out of sequence"))
            },
        }
    }

    /// Takes what one read of the transport gave while notifications are
    /// awaited.
    ///
    /// A notification is handed on. For a ping the payload of the pong to
    /// send comes back and nothing is delivered. Anything else is an
    /// error that leaves the session in place.
    pub fn receive_notification(&mut self, incoming: Result<Frame, TransportError>) -> (r: Result<
        Inbound,
        AutopushClientError,
    >)
        ensures
            final(self)@ == after_receive_notification(old(self)@, incoming_view(incoming)),
            outcome_view(r) == if receives(old(self)@.phase) {
                inbound_outcome(incoming_view(incoming))
            } else {
                Err(out_of_sequence())
            },
    {
        match &self.stage {
            Stage::Active | Stage::Resuming => {
                if incoming.is_ok() {
                    self.stage = Stage::Active;
                }
                read_inbound(incoming)
            },
            _ => Err(error_of(ErrorKind::OutOfSequence, "operation out of sequence")),
        }
    }

    /// Starts over on a fresh transport, with the subscriber id and the
    /// channel that the session holds.
    ///
    /// The caller opens a transport to [`url`](Self::url), sends the hello
    /// that comes back, and goes on reading; the register is not sent
    /// again. One attempt is made per call. The hello is handed out in
    /// every phase but the two in which an answer is awaited.
    pub fn reconnect(&mut self) -> (r: Result<String, AutopushClientError>)
        ensures
            final(self)@ == after_reconnect(old(self)@),
            match r {
                Ok(frame) => !awaits_reply(old(self)@.phase) && frame@ == client_hello_text(
                    session_hello(old(self)@),
                ),
                Err(error) => awaits_reply(old(self)@.phase) && error@ == out_of_sequence(),
            },
    {
        match &self.stage {
            Stage::HelloSent | Stage::RegisterSent(_) => Err(
                error_of(ErrorKind::OutOfSequence, "operation out of sequence"),
            ),
            _ => {
                self.stage = Stage::Resuming;
                Ok(self.hello().to_json())
            },
        }
    }

    /// The hello of this session: WebPush, with the subscriber id and the
    /// channel that the session holds.
    pub fn hello(&self) -> (message: ClientHelloMessage)
        ensures
            message@ == session_hello(self@),
    {
        ClientHelloMessage::new(true, clone_text(&self.uaid), clone_text(&self.channel_id))
    }

    /// The state of the connection.
    pub fn state(&self) -> (state: ConnectionState)
        ensures
            state == state_of(self@.phase),
    {
        match &self.stage {
            Stage::Disconnected => ConnectionState::Disconnected,
            Stage::Connecting => ConnectionState::Connecting,
            Stage::HelloSent => ConnectionState::Handshaking,
            Stage::HelloReceived => ConnectionState::Handshaking,
            Stage::RegisterSent(_) => ConnectionState::Registering,
            Stage::Active => ConnectionState::Active,
            Stage::Resuming => ConnectionState::Connecting,
        }
    }

    /// Where exactly the session stands.
    pub fn phase(&self) -> (phase: Phase)
        ensures
            phase == self@.phase,
    {
        match &self.stage {
            Stage::Disconnected => Phase::Disconnected,
            Stage::Connecting => Phase::Connecting,
            Stage::HelloSent => Phase::HelloSent,
            Stage::HelloReceived => Phase::HelloReceived,
            Stage::RegisterSent(_) => Phase::RegisterSent,
            Stage::Active => Phase::Active,
            Stage::Resuming => Phase::Resuming,
        }
    }

    /// Where the push service is reached.
    pub fn url(&self) -> (url: &str)
        ensures
            url@ == self@.url,
    {
        self.url.as_str()
    }

    /// Whether the caller is asked to log the frames it moves.
    pub fn debug(&self) -> (debug: bool)
        ensures
            debug == self@.debug,
    {
        self.debug
    }

    /// The subscriber id, once known.
    pub fn uaid(&self) -> (uaid: Option<String>)
        ensures
            text_view(uaid) == self@.uaid,
    {
        clone_text(&self.uaid)
    }

    /// The channel that a hello of this session names.
    pub fn channel_id(&self) -> (channel_id: Option<String>)
        ensures
            text_view(channel_id) == self@.channel_id,
    {
        clone_text(&self.channel_id)
    }

    /// A channel with its endpoint and key material, once the service has
    /// registered it.
    pub fn channel(&self, channel_id: &str) -> (r: Option<&Channel>)
        ensures
            match r {
                Some(channel) => self@.channels.contains_key(channel_id@)
                    && self@.channels[channel_id@] == channel@ && channel.channel_id@
                    == channel_id@,
                None => !self@.channels.contains_key(channel_id@),
            },
    {
        self.channels.get(channel_id)
    }

    /// The number of channels that the service has registered.
    pub fn channel_count(&self) -> (n: usize)
        ensures
            self@.channels.dom().finite(),
            n == self@.channels.len(),
    {
        self.channels.len()
    }

    /// Opens a notification with the key material of its channel.
    pub fn decrypt(&self, notification: &Notification) -> (r: Result<Vec<u8>, EnvelopeError>)
        ensures
            decoded_view(r) == decrypt_spec(self@, notification@),
    {
        match self.channels.get(notification.channel_id()) {
            Some(channel) => decode_envelope(notification.data(), &channel.keys),
            None => Err(EnvelopeError::UnknownChannel),
        }
    }
}

/// Every step leaves a session well formed.
pub proof fn lemma_steps_keep_well_formed(
    session: SessionView,
    reply: IncomingView,
    register: ClientRegisterView,
    keys: KeyMaterialView,
)
    requires
        well_formed(session),
    ensures
        well_formed(after_connect(session)),
        well_formed(after_post_hello(session)),
        well_formed(after_receive_hello(session, reply)),
        well_formed(after_post_register(session, register, keys)),
        well_formed(after_receive_register(session, reply)),
        well_formed(after_receive_notification(session, reply)),
        well_formed(after_reconnect(session)),
{
}

/// Requests are answered one at a time: while an answer is awaited, no
/// request is handed out and the session does not move, whatever is asked
/// of it, until the answer has been taken.
pub proof fn lemma_one_request_at_a_time(
    session: SessionView,
    register: ClientRegisterView,
    keys: KeyMaterialView,
    incoming: IncomingView,
)
    requires
        awaits_reply(session.phase),
    ensures
        after_connect(session) == session,
        after_post_hello(session) == session,
        after_post_register(session, register, keys) == session,
        after_receive_notification(session, incoming) == session,
        after_reconnect(session) == session,
        session.phase == Phase::HelloSent ==> after_receive_register(session, incoming)
            == session && !awaits_reply(after_receive_hello(session, incoming).phase),
        session.phase == Phase::RegisterSent ==> after_receive_hello(session, incoming)
            == session && !awaits_reply(after_receive_register(session, incoming).phase),
{
}

/// A session is established by a hello and a register that are both
/// answered well: it is then active, knows the subscriber id of the hello
/// answer, and holds the channel of the register answer with that answer's
/// endpoint and the key material that came with the register.
pub proof fn lemma_establishment(
    start: SessionView,
    hello_reply: IncomingView,
    register: ClientRegisterView,
    keys: KeyMaterialView,
    register_reply: IncomingView,
)
    requires
        start.phase == Phase::Disconnected,
        hello_outcome(hello_reply) is Ok,
        register_outcome(register_reply) is Ok,
    ensures
        ({
            let greeted = after_receive_hello(
                after_post_hello(after_connect(start)),
                hello_reply,
            );
            let established = after_receive_register(
                after_post_register(greeted, register, keys),
                register_reply,
            );
            let hello = hello_outcome(hello_reply)->Ok_0;
            let registered = register_outcome(register_reply)->Ok_0;
            &&& established.phase == Phase::Active
            &&& established.url == start.url
            &&& established.uaid == Some(hello.uaid)
            &&& established.channel_id == Some(register.channel_id)
            &&& is_success(hello.status)
            &&& is_success(registered.status)
            &&& established.channels == start.channels.insert(
                registered.channel_id,
                ChannelView { endpoint: registered.push_endpoint, keys },
            )
        }),
{
}

/// A handshake or a registration that fails ends the attempt and binds no
/// channel: the session is disconnected and its channels are those it had.
pub proof fn lemma_failure_ends_the_attempt(session: SessionView, reply: IncomingView)
    ensures
        session.phase == Phase::HelloSent && hello_outcome(reply) is Err ==> after_receive_hello(
            session,
            reply,
        ) == (SessionView { phase: Phase::Disconnected, ..session }),
        session.phase == Phase::RegisterSent && register_outcome(reply) is Err ==> {
            &&& after_receive_register(session, reply).phase == Phase::Disconnected
            &&& after_receive_register(session, reply).channels == session.channels
            &&& after_receive_register(session, reply).pending_keys is None
        },
{
}

/// Receiving keeps the subscription: whatever is read, the session goes on
/// receiving, and its address, subscriber id, channel and registered
/// channels stay as they are. A failed read does not even change the
/// phase.
pub proof fn lemma_receiving_keeps_the_subscription(session: SessionView, incoming: IncomingView)
    requires
        receives(session.phase),
    ensures
        receives(after_receive_notification(session, incoming).phase),
        after_receive_notification(session, incoming) == (SessionView {
            phase: after_receive_notification(session, incoming).phase,
            ..session
        }),
        incoming is Err ==> after_receive_notification(session, incoming) == session,
        incoming is Ok ==> after_receive_notification(session, incoming).phase == Phase::Active,
{
}

/// Reconnecting resumes and keeps the subscription: from every phase in
/// which no answer is awaited, and so from a session that was only just
/// made, the session comes to receive, and its address, subscriber id,
/// channel and registered channels stay as they are. However often the
/// caller reconnects, the outcome is the same, and the hello that goes out
/// names the same subscriber and channel.
pub proof fn lemma_reconnecting_resumes(session: SessionView)
    requires
        !awaits_reply(session.phase),
    ensures
        after_reconnect(session) == (SessionView { phase: Phase::Resuming, ..session }),
        receives(after_reconnect(session).phase),
        after_reconnect(after_reconnect(session)) == after_reconnect(session),
        session_hello(after_reconnect(session)) == session_hello(session),
{
}

/// A notification that was delivered opens to what its sender sealed: where
/// the session has registered the channel that the notification names, the
/// notification's text is base64 of a record laid out around a ciphertext,
/// and AES-GCM releases a plaintext for that ciphertext under the key and
/// nonce of the channel's key material, decrypting yields that plaintext.
pub proof fn lemma_delivered_notification_decrypts(
    session: SessionView,
    notification: NotificationView,
    salt: Seq<u8>,
    record_size: u32,
    sender_public_key: Seq<u8>,
    sealed: Seq<u8>,
    plaintext: Seq<u8>,
)
    requires
        session.channels.contains_key(notification.channel_id),
        base64url_decode(notification.data) == Some(
            record_bytes(salt, record_size, sender_public_key, sealed),
        ),
        salt.len() == SALT_LEN,
        is_uncompressed_point(sender_public_key),
        ({
            let keys = session.channels[notification.channel_id].keys;
            derive_record_keys_spec(
                keys.private_key,
                keys.public_key,
                sender_public_key,
                keys.auth_secret,
                salt,
            ) matches Ok(record_keys) && aes128gcm_open(
                record_keys.key,
                record_keys.nonce,
                sealed,
            ) == Some(plaintext)
        }),
    ensures
        decrypt_spec(session, notification) == Ok::<Seq<u8>, EnvelopeError>(plaintext),
{
    lemma_sealed_record_decodes(
        session.channels[notification.channel_id].keys,
        salt,
        record_size,
        sender_public_key,
        sealed,
        plaintext,
    );
}

/// A ping is never delivered and a notification is never answered: what
/// the receive loop hands on is a notification exactly for a text frame
/// that reads as one, and a pong exactly for a ping, with the ping's
/// payload.
pub proof fn lemma_inbound_kinds(incoming: IncomingView)
    ensures
        match inbound_outcome(incoming) {
            Ok(InboundView::Notification(notification)) => incoming matches Ok(
                FrameView::Text(text),
            ) && parse_notification(text) == Some(notification),
            Ok(InboundView::Pong(payload)) => incoming == Ok::<FrameView, TransportErrorView>(
                FrameView::Ping(payload),
            ),
            Err(error) => (error.kind == ErrorKind::Transport) == (incoming is Err),
        },
        match incoming {
            Ok(FrameView::Text(text)) => parse_notification(text) is Some ==> inbound_outcome(
                incoming,
            ) is Ok,
            Ok(FrameView::Ping(payload)) => inbound_outcome(incoming) == Ok::<
                InboundView,
                ClientErrorView,
            >(InboundView::Pong(payload)),
            _ => inbound_outcome(incoming) is Err,
        },
{
}

} // verus!
