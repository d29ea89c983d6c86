//! A sans-I/O core for a WebPush subscriber.
//!
//! The crate holds the pieces of a push client that carry logic: the
//! binary layout of an `aes128gcm` record, the key schedule and
//! authenticated decryption of one record, the text frames of the push
//! service protocol, and the state machine of the subscription session.
//! Sockets, HTTP and the process environment stay with the caller, which
//! feeds the session the frames it has read and carries out what the
//! session hands back.
//!
//! | module | holds |
//! |---|---|
//! | [`record`] | the layout of a record and its parser |
//! | [`kdf`] | ECDH and the three HKDF rounds that give key and nonce |
//! | [`keys`] | the key material of a channel |
//! | [`decoder`] | a payload to its plaintext |
//! | [`json`] | flat JSON objects, read and written |
//! | [`message`] | the frames of the protocol |
//! | [`transport`] | frames and failures as the caller reports them |
//! | [`channel`] | channel ids and the set of registered channels |
//! | [`session`] | the session state machine |
//! | [`endpoint`] | the registration request for the application server |

pub mod channel;
pub mod decoder;
pub mod endpoint;
pub mod json;
pub mod kdf;
pub mod keys;
pub mod message;
pub mod record;
pub mod session;
pub mod transport;

pub use crate::channel::{new_channel_id, Channel, ChannelSet};
pub use crate::decoder::{decode, decode_envelope, open_record, EnvelopeError};
pub use crate::endpoint::{
    Header, NicoPushEndpointClient, PostRequest, RegisterWebPushEndpointRequest,
    RegisterWebPushEndpointRequestEndpoint,
};
pub use crate::json::{JsonDocument, JsonField};
pub use crate::kdf::{derive_from_shared_secret, derive_record_keys, KeyAgreementError, RecordKeys};
pub use crate::keys::KeyMaterial;
pub use crate::message::{
    ClientHelloMessage, ClientRegisterMessage, Notification, ServerHelloMessage,
    ServerRegisterMessage,
};
pub use crate::record::{parse_record, DecodeError, Record};
pub use crate::session::{
    AutoPushClient, AutopushClientError, ConnectionState, ErrorKind, Inbound, Phase,
};
pub use crate::transport::{Frame, TransportError, TransportErrorKind};
