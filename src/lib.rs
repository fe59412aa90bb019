//! Session and data-plane core of a user-space VPN endpoint.
//!
//! The wire codec (`wire`, `packet_encoder`, `packet_decoder`), the frame
//! envelopes (`aead`, `obfuscation`), the session registry (`registry`), the
//! control-channel handshake (`session_context`) and the UDP/tunnel routing
//! decisions (`forwarding`). Sockets, the tunnel device, the user store and
//! token checking are left to the caller.
pub mod message_type;
pub mod wire;
pub mod aead;
pub mod agreement;
pub mod obfuscation;
pub mod packet_encoder;
pub mod packet_decoder;
pub mod user;
pub mod session_payload;
pub mod registry;
pub mod session_saturate;
pub mod session_context;
pub mod forwarding;
pub mod session_claims;

pub use message_type::MessageType;
pub use aead::AeadKey;
pub use packet_decoder::PacketDecoder;
pub use packet_encoder::PacketEncoder;
pub use registry::{Endpoint, RegistryError, SessionIdentity, SessionRegistry};
pub use session_claims::SessionClaims;
pub use session_context::{Action, SessionContext};
pub use session_payload::SessionPayload;
pub use session_saturate::SessionSaturate;
pub use user::User;
