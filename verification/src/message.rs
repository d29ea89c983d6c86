//! The text frames of the push service protocol.
//!
//! | direction | frame |
//! |---|---|
//! | to the service | `{"messageType":"hello","use_webpush":true,"uaid":..,"channelID":..}` |
//! | from the service | `{"messageType":"hello","status":..,"uaid":..,"channelID":..}` |
//! | to the service | `{"messageType":"register","channelID":..,"key":..}` |
//! | from the service | `{"messageType":"register","channelID":..,"status":..,"pushEndpoint":..}` |
//! | from the service | `{"messageType":"notification","channelID":..,"data":..}` |
//!
//! `uaid` and `channelID` of a hello are left out where the client has none.
//! A frame from the service is read leniently in one respect only: members
//! that the protocol does not name are passed over.

use vstd::prelude::*;
use vstd::string::StringExecFns;
use crate::json::{
    clone_text, flag_text, json_document, json_string_literal, optional_text_member,
    push_flag_member, push_text_member, text_member, text_view, u32_member, with_member,
    JsonDocument, Members,
};

verus! {

/// The hello that opens a session.
#[derive(Debug)]
pub struct ClientHelloMessage {
    message_type: String,
    use_webpush: Option<bool>,
    uaid: Option<String>,
    channel_id: Option<String>,
}

/// The mathematical content of a [`ClientHelloMessage`].
pub ghost struct ClientHelloView {
    pub message_type: Seq<char>,
    pub use_webpush: Option<bool>,
    pub uaid: Option<Seq<char>>,
    pub channel_id: Option<Seq<char>>,
}

impl View for ClientHelloMessage {
    type V = ClientHelloView;

    closed spec fn view(&self) -> ClientHelloView {
        ClientHelloView {
            message_type: self.message_type@,
            use_webpush: self.use_webpush,
            uaid: text_view(self.uaid),
            channel_id: text_view(self.channel_id),
        }
    }
}

/// The service's answer to a hello.
#[derive(Debug)]
pub struct ServerHelloMessage {
    message_type: String,
    status: u32,
    uaid: String,
    channel_id: Option<String>,
}

/// The mathematical content of a [`ServerHelloMessage`].
pub ghost struct ServerHelloView {
    pub message_type: Seq<char>,
    pub status: u32,
    pub uaid: Seq<char>,
    pub channel_id: Option<Seq<char>>,
}

impl View for ServerHelloMessage {
    type V = ServerHelloView;

    closed spec fn view(&self) -> ServerHelloView {
        ServerHelloView {
            message_type: self.message_type@,
            status: self.status,
            uaid: self.uaid@,
            channel_id: text_view(self.channel_id),
        }
    }
}

/// The request for a delivery endpoint on one channel.
#[derive(Debug)]
pub struct ClientRegisterMessage {
    message_type: String,
    channel_id: String,
    key: String,
}

/// The mathematical content of a [`ClientRegisterMessage`].
pub ghost struct ClientRegisterView {
    pub message_type: Seq<char>,
    pub channel_id: Seq<char>,
    pub key: Seq<char>,
}

impl View for ClientRegisterMessage {
    type V = ClientRegisterView;

    closed spec fn view(&self) -> ClientRegisterView {
        ClientRegisterView {
            message_type: self.message_type@,
            channel_id: self.channel_id@,
            key: self.key@,
        }
    }
}

/// The service's answer to a register.
#[derive(Debug)]
pub struct ServerRegisterMessage {
    message_type: String,
    channel_id: String,
    status: u32,
    pub push_endpoint: String,
}

/// The mathematical content of a [`ServerRegisterMessage`].
pub ghost struct ServerRegisterView {
    pub message_type: Seq<char>,
    pub channel_id: Seq<char>,
    pub status: u32,
    pub push_endpoint: Seq<char>,
}

impl View for ServerRegisterMessage {
    type V = ServerRegisterView;

    closed spec fn view(&self) -> ServerRegisterView {
        ServerRegisterView {
            message_type: self.message_type@,
            channel_id: self.channel_id@,
            status: self.status,
            push_endpoint: self.push_endpoint@,
        }
    }
}

/// One notification as it arrives: the channel it is for and the payload,
/// still in base64 and still encrypted.
#[derive(Debug)]
pub struct Notification {
    message_type: String,
    channel_id: String,
    data: String,
}

/// The mathematical content of a [`Notification`].
pub ghost struct NotificationView {
    pub message_type: Seq<char>,
    pub channel_id: Seq<char>,
    pub data: Seq<char>,
}

impl View for Notification {
    type V = NotificationView;

    closed spec fn view(&self) -> NotificationView {
        NotificationView {
            message_type: self.message_type@,
            channel_id: self.channel_id@,
            data: self.data@,
        }
    }
}

/// The frame that a hello is sent as.
pub open spec fn client_hello_text(message: ClientHelloView) -> Seq<char> {
    let typed = with_member(
        "{"@,
        true,
        "messageType"@,
        json_string_literal(message.message_type),
    );
    let flagged = match message.use_webpush {
        Some(flag) => with_member(typed, false, "use_webpush"@, flag_text(flag)),
        None => typed,
    };
    let identified = match message.uaid {
        Some(uaid) => with_member(flagged, false, "uaid"@, json_string_literal(uaid)),
        None => flagged,
    };
    let channelled = match message.channel_id {
        Some(channel_id) => with_member(
            identified,
            false,
            "channelID"@,
            json_string_literal(channel_id),
        ),
        None => identified,
    };
    channelled + "}"@
}

/// The frame that a register is sent as.
pub open spec fn client_register_text(message: ClientRegisterView) -> Seq<char> {
    let typed = with_member(
        "{"@,
        true,
        "messageType"@,
        json_string_literal(message.message_type),
    );
    let channelled = with_member(
        typed,
        false,
        "channelID"@,
        json_string_literal(message.channel_id),
    );
    with_member(channelled, false, "key"@, json_string_literal(message.key)) + "}"@
}

/// The answer to a hello that the members of a frame stand for: type
/// `hello`, a status of 32 bits, a `uaid`, and a `channelID` or none.
pub open spec fn server_hello_of(members: Members) -> Option<ServerHelloView> {
    match (
        text_member(members, "messageType"@),
        u32_member(members, "status"@),
        text_member(members, "uaid"@),
        optional_text_member(members, "channelID"@),
    ) {
        (Some(message_type), Some(status), Some(uaid), Some(channel_id)) => if message_type
            == "hello"@ {
            Some(ServerHelloView { message_type, status, uaid, channel_id })
        } else {
            None
        },
        _ => None,
    }
}

/// The answer to a register that the members of a frame stand for: type
/// `register`, a `channelID`, a status of 32 bits and a `pushEndpoint`.
pub open spec fn server_register_of(members: Members) -> Option<ServerRegisterView> {
    match (
        text_member(members, "messageType"@),
        text_member(members, "channelID"@),
        u32_member(members, "status"@),
        text_member(members, "pushEndpoint"@),
    ) {
        (Some(message_type), Some(channel_id), Some(status), Some(push_endpoint)) => if message_type
            == "register"@ {
            Some(ServerRegisterView { message_type, channel_id, status, push_endpoint })
        } else {
            None
        },
        _ => None,
    }
}

/// The notification that the members of a frame stand for: type
/// `notification`, a `channelID` and `data`.
pub open spec fn notification_of(members: Members) -> Option<NotificationView> {
    match (
        text_member(members, "messageType"@),
        text_member(members, "channelID"@),
        text_member(members, "data"@),
    ) {
        (Some(message_type), Some(channel_id), Some(data)) => if message_type
            == "notification"@ {
            Some(NotificationView { message_type, channel_id, data })
        } else {
            None
        },
        _ => None,
    }
}

/// The answer to a hello that a frame stands for; nothing where the frame
/// is not JSON or not such an answer.
pub open spec fn parse_server_hello(text: Seq<char>) -> Option<ServerHelloView> {
    match json_document(text) {
        Some(members) => server_hello_of(members),
        None => None,
    }
}

/// The answer to a register that a frame stands for; nothing where the
/// frame is not JSON or not such an answer.
pub open spec fn parse_server_register(text: Seq<char>) -> Option<ServerRegisterView> {
    match json_document(text) {
        Some(members) => server_register_of(members),
        None => None,
    }
}

/// The notification that a frame stands for; nothing where the frame is not
/// JSON or not a notification.
pub open spec fn parse_notification(text: Seq<char>) -> Option<NotificationView> {
    match json_document(text) {
        Some(members) => notification_of(members),
        None => None,
    }
}

/// The view of an optional hello answer.
pub open spec fn server_hello_view(r: Option<ServerHelloMessage>) -> Option<ServerHelloView> {
    match r {
        Some(message) => Some(message@),
        None => None,
    }
}

/// The view of an optional register answer.
pub open spec fn server_register_view(r: Option<ServerRegisterMessage>) -> Option<
    ServerRegisterView,
> {
    match r {
        Some(message) => Some(message@),
        None => None,
    }
}

/// The view of an optional notification.
pub open spec fn notification_view(r: Option<Notification>) -> Option<NotificationView> {
    match r {
        Some(message) => Some(message@),
        None => None,
    }
}

impl ClientHelloMessage {
    /// A hello of type `hello` that asks for WebPush or not and names the
    /// subscriber and the channel where the client knows them.
    pub fn new(use_webpush: bool, uaid: Option<String>, channel_id: Option<String>) -> (message:
        Self)
        ensures
            message@ == (ClientHelloView {
                message_type: "hello"@,
                use_webpush: Some(use_webpush),
                uaid: text_view(uaid),
                channel_id: text_view(channel_id),
            }),
    {
        Self {
            message_type: String::from_str("hello"),
            use_webpush: Some(use_webpush),
            uaid: uaid,
            channel_id: channel_id,
        }
    }

    /// The frame to send.
    pub fn to_json(&self) -> (text: String)
        ensures
            text@ == client_hello_text(self@),
    {
        let mut text = String::from_str("{");
        push_text_member(&mut text, true, "messageType", self.message_type.as_str());
        match self.use_webpush {
            Some(flag) => {
                push_flag_member(&mut text, false, "use_webpush", flag);
            },
            None => {},
        }
        match &self.uaid {
            Some(uaid) => {
                push_text_member(&mut text, false, "uaid", uaid.as_str());
            },
            None => {},
        }
        match &self.channel_id {
            Some(channel_id) => {
                push_text_member(&mut text, false, "channelID", channel_id.as_str());
            },
            None => {},
        }
        text.append("}");
        text
    }

    /// The subscriber id that the hello names.
    pub fn uaid(&self) -> (r: Option<String>)
        ensures
            text_view(r) == self@.uaid,
    {
        clone_text(&self.uaid)
    }

    /// The channel that the hello names.
    pub fn channel_id(&self) -> (r: Option<String>)
        ensures
            text_view(r) == self@.channel_id,
    {
        clone_text(&self.channel_id)
    }
}

impl ClientRegisterMessage {
    /// A register of type `register` for a channel, with the application
    /// server's key.
    pub fn new(channel_id: String, key: String) -> (message: Self)
        ensures
            message@ == (ClientRegisterView {
                message_type: "register"@,
                channel_id: channel_id@,
                key: key@,
            }),
    {
        Self { message_type: String::from_str("register"), channel_id, key }
    }

    /// The frame to send.
    pub fn to_json(&self) -> (text: String)
        ensures
            text@ == client_register_text(self@),
    {
        let mut text = String::from_str("{");
        push_text_member(&mut text, true, "messageType", self.message_type.as_str());
        push_text_member(&mut text, false, "channelID", self.channel_id.as_str());
        push_text_member(&mut text, false, "key", self.key.as_str());
        text.append("}");
        text
    }

    /// The channel that the register is for.
    pub fn channel_id(&self) -> (r: &str)
        ensures
            r@ == self@.channel_id,
    {
        self.channel_id.as_str()
    }
}

impl ServerHelloMessage {
    /// Reads the answer to a hello out of a parsed frame.
    pub fn from_document(document: &JsonDocument) -> (r: Option<Self>)
        ensures
            server_hello_view(r) == server_hello_of(document@),
    {
        let message_type = document.text("messageType");
        let status = document.number("status");
        let uaid = document.text("uaid");
        let channel_id = document.optional_text("channelID");
        match (message_type, status, uaid, channel_id) {
            (Some(message_type), Some(status), Some(uaid), Some(channel_id)) => {
                if message_type == String::from_str("hello") {
                    Some(Self { message_type, status, uaid, channel_id })
                } else {
                    None
                }
            },
            _ => None,
        }
    }

    /// Reads the answer to a hello out of a frame.
    pub fn from_json(text: &str) -> (r: Option<Self>)
        ensures
            server_hello_view(r) == parse_server_hello(text@),
    {
        match JsonDocument::parse(text) {
            Some(document) => Self::from_document(&document),
            None => None,
        }
    }

    /// The status that the service reports.
    pub fn status(&self) -> (r: u32)
        ensures
            r == self@.status,
    {
        self.status
    }

    /// The subscriber id that the service assigned.
    pub fn uaid(&self) -> (r: &str)
        ensures
            r@ == self@.uaid,
    {
        self.uaid.as_str()
    }

    /// The channel that the service echoes, if any.
    pub fn channel_id(&self) -> (r: Option<String>)
        ensures
            text_view(r) == self@.channel_id,
    {
        clone_text(&self.channel_id)
    }
}

impl ServerRegisterMessage {
    /// Reads the answer to a register out of a parsed frame.
    pub fn from_document(document: &JsonDocument) -> (r: Option<Self>)
        ensures
            server_register_view(r) == server_register_of(document@),
    {
        let message_type = document.text("messageType");
        let channel_id = document.text("channelID");
        let status = document.number("status");
        let push_endpoint = document.text("pushEndpoint");
        match (message_type, channel_id, status, push_endpoint) {
            (Some(message_type), Some(channel_id), Some(status), Some(push_endpoint)) => {
                if message_type == String::from_str("register") {
                    Some(Self { message_type, channel_id, status, push_endpoint })
                } else {
                    None
                }
            },
            _ => None,
        }
    }

    /// Reads the answer to a register out of a frame.
    pub fn from_json(text: &str) -> (r: Option<Self>)
        ensures
            server_register_view(r) == parse_server_register(text@),
    {
        match JsonDocument::parse(text) {
            Some(document) => Self::from_document(&document),
            None => None,
        }
    }

    /// The channel that the endpoint is for.
    pub fn channel_id(&self) -> (r: &str)
        ensures
            r@ == self@.channel_id,
    {
        self.channel_id.as_str()
    }

    /// The status that the service reports.
    pub fn status(&self) -> (r: u32)
        ensures
            r == self@.status,
    {
        self.status
    }

    /// The delivery endpoint of the channel.
    pub fn push_endpoint(&self) -> (r: &str)
        ensures
            r@ == self@.push_endpoint,
    {
        self.push_endpoint.as_str()
    }
}

impl Notification {
    /// Reads a notification out of a parsed frame.
    pub fn from_document(document: &JsonDocument) -> (r: Option<Self>)
        ensures
            notification_view(r) == notification_of(document@),
    {
        let message_type = document.text("messageType");
        let channel_id = document.text("channelID");
        let data = document.text("data");
        match (message_type, channel_id, data) {
            (Some(message_type), Some(channel_id), Some(data)) => {
                if message_type == String::from_str("notification") {
                    Some(Self { message_type, channel_id, data })
                } else {
                    None
                }
            },
            _ => None,
        }
    }

    /// Reads a notification out of a frame.
    pub fn from_json(text: &str) -> (r: Option<Self>)
        ensures
            notification_view(r) == parse_notification(text@),
    {
        match JsonDocument::parse(text) {
            Some(document) => Self::from_document(&document),
            None => None,
        }
    }

    /// The channel that the notification is for.
    pub fn channel_id(&self) -> (r: &str)
        ensures
            r@ == self@.channel_id,
    {
        self.channel_id.as_str()
    }

    /// The payload: base64 text of one encrypted record.
    pub fn data(&self) -> (r: &str)
        ensures
            r@ == self@.data,
    {
        self.data.as_str()
    }
}

} // verus!
