use vstd::prelude::*;
use vstd::utf8::{decode_utf8, valid_utf8};
use crate::aead::{
    is_sealing_of, lemma_sealed_frame_is_sealing, open_frame, random_nonce, seal_with_nonce, sealed_frame, AeadKey, KEY_LEN,
};
use crate::agreement::{ephemeral_agreement, PUBLIC_KEY_LEN};
use crate::message_type::{decoded_opcode, opcode_byte, MessageType};
use crate::packet_decoder::PacketDecoder;
use crate::packet_encoder::PacketEncoder;
use crate::registry::{admissible, Endpoint, SessionIdentity, SessionRegistry};
use crate::session_payload::SessionPayload;
use crate::session_saturate::SessionSaturate;
use crate::user::User;
use crate::wire::{decode_bytes, decode_u16, encode_primitive, Primitive};

verus! {

/// Relies on std's `String::from_utf8`: it succeeds exactly on valid UTF-8,
/// and the string holds the characters that the bytes encode.
#[verifier::external_body]
fn utf8_string(bytes: Vec<u8>) -> (r: Option<String>)
    ensures
        r is Some == valid_utf8(bytes@),
        r matches Some(s) ==> s@ == decode_utf8(bytes@),
{
    String::from_utf8(bytes).ok()
}

/// What the connection's driver does after a control-channel event.
pub enum Action {
    /// Send these bytes and keep reading.
    Reply(Vec<u8>),
    /// Check the access token, load its user, and hand the user to
    /// `SessionContext::approve` with the UDP port.
    Authenticate { access_token: String, udp_port: u16 },
    /// A heartbeat: keep reading.
    Keepalive,
    /// Close the connection and evict its session.
    Terminate,
}

/// The success marker that an approval carries.
pub open spec fn approval_marker() -> Seq<u8> {
    seq![0x6fu8, 0x6bu8]
}

/// The plaintext of the server's approval frame: opcode and marker.
pub open spec fn approval_plaintext() -> Seq<u8> {
    seq![opcode_byte(MessageType::SignApprove)] + encode_primitive(Primitive::Bytes(approval_marker()))
}

/// The server's reply to a key share: opcode and its own public key.
pub open spec fn key_share_reply(public: Seq<u8>) -> Seq<u8> {
    seq![opcode_byte(MessageType::SignWaitApprove)] + encode_primitive(Primitive::Bytes(public))
}

/// A reply to a key share that carries some 32-byte public key.
pub open spec fn is_key_share_reply(b: Seq<u8>) -> bool {
    exists|public: Seq<u8>| public.len() == PUBLIC_KEY_LEN && b == #[trigger] key_share_reply(public)
}

/// The plaintext of a frame as this context reads it: the frame itself before
/// a key is installed, its opening under the key after.
pub open spec fn frame_message(key: Option<AeadKey>, frame: Seq<u8>) -> Option<Seq<u8>> {
    match key {
        None => Some(frame),
        Some(k) => open_frame(k@, frame),
    }
}

/// The opcodes that each stage accepts.
pub open spec fn accepts(state: SessionSaturate, op: MessageType) -> bool {
    ||| state == SessionSaturate::Init && op == MessageType::Sign
    ||| state == SessionSaturate::WaitApprove && op == MessageType::SignApprove
    ||| state == SessionSaturate::Success && op == MessageType::Trace
}

/// The opcode that starts a message, if it is not empty.
pub open spec fn message_opcode(m: Option<Seq<u8>>) -> Option<MessageType> {
    match m {
        Some(p) => if p.len() > 0 {
            Some(decoded_opcode(p[0]))
        } else {
            None
        },
        None => None,
    }
}

/// The body of a message, after its opcode.
pub open spec fn message_body(m: Option<Seq<u8>>) -> Seq<u8> {
    match m {
        Some(p) => p.skip(1),
        None => Seq::empty(),
    }
}

/// What an approval body carries: the access token, decoded as UTF-8, and the
/// client's UDP port. `None` when it is truncated or the token is not UTF-8.
pub open spec fn approval_request(body: Seq<u8>) -> Option<(Seq<char>, u16)> {
    match decode_bytes(body) {
        Some((token, rest)) => match decode_u16(rest) {
            Some((port, _)) => if valid_utf8(token) {
                Some((decode_utf8(token), port))
            } else {
                None
            },
            None => None,
        },
        None => None,
    }
}

/// The client key that a key-share body carries, if it is well framed.
pub open spec fn key_share_request(body: Seq<u8>) -> Option<Seq<u8>> {
    match decode_bytes(body) {
        Some((public, _)) => Some(public),
        None => None,
    }
}

/// The identity under which an approved client is registered: its UDP
/// endpoint is the control connection's address with the announced port.
pub open spec fn approved_identity(user: User, tcp: Endpoint, udp_port: u16) -> SessionIdentity {
    SessionIdentity {
        udp: Endpoint { ip: tcp.ip, port: udp_port },
        tunnel_ipv4: user.local_tunnel_address,
        tcp: tcp,
    }
}

/// Per-connection handshake state: the stage, and the key once agreed.
pub struct SessionContext {
    pub less_safe_key: Option<AeadKey>,
    pub saturate: SessionSaturate,
}

impl SessionContext {
    pub fn new() -> (r: SessionContext)
        ensures
            r.less_safe_key is None,
            r.saturate == SessionSaturate::Init,
    {
        SessionContext { less_safe_key: None, saturate: SessionSaturate::Init }
    }

    pub fn set_pk(&mut self, pk: AeadKey)
        ensures
            final(self).less_safe_key == Some(pk),
            final(self).saturate == old(self).saturate,
    {
        self.less_safe_key = Some(pk);
    }

    pub fn pk(&self) -> (r: Option<AeadKey>)
        ensures
            r == self.less_safe_key,
    {
        self.less_safe_key
    }

    pub fn saturate(&mut self, saturate: SessionSaturate)
        ensures
            final(self).saturate == saturate,
            final(self).less_safe_key == old(self).less_safe_key,
    {
        self.saturate = saturate;
    }

    /// Completes a key exchange with the outcome of an X25519 agreement: the
    /// shared secret becomes the session key, and the reply carries the
    /// server's public key in the clear. Only a context in `Init` with a 32-byte
    /// public key and a 32-byte secret proceeds; otherwise the connection ends.
    pub fn accept_key_exchange(&mut self, server_public: &[u8], shared_secret: &[u8]) -> (r: Action)
        ensures
            (r is Reply) == (old(self).saturate == SessionSaturate::Init
                && server_public@.len() == PUBLIC_KEY_LEN && shared_secret@.len() == KEY_LEN),
            r matches Action::Reply(b) ==> (b@ == key_share_reply(server_public@)
                && final(self).saturate == SessionSaturate::WaitApprove
                && (final(self).less_safe_key matches Some(k) && k@ == shared_secret@)),
            !(r is Reply) ==> (r is Terminate && *final(self) == *old(self)),
    {
        if self.saturate != SessionSaturate::Init || server_public.len() != PUBLIC_KEY_LEN {
            return Action::Terminate;
        }
        let key = match AeadKey::from_bytes(shared_secret) {
            Some(k) => k,
            None => return Action::Terminate,
        };
        let mut packet = PacketEncoder::new();
        packet.write_opcode(MessageType::SignWaitApprove);
        packet.write_string(server_public);
        let reply = match packet.to_bytes(None) {
            Some(b) => b,
            None => return Action::Terminate,
        };
        self.set_pk(key);
        self.saturate(SessionSaturate::WaitApprove);
        Action::Reply(reply)
    }

    /// Handles one control frame read from the connection.
    pub fn on_frame(&mut self, frame: &[u8]) -> (r: Action)
        ensures
            ({
                let m = frame_message(old(self).less_safe_key, frame@);
                let op = message_opcode(m);
                let body = message_body(m);
                &&& op is None ==> r is Terminate
                &&& (op is Some && !accepts(old(self).saturate, op->0)) ==> r is Terminate
                &&& !(r is Reply) ==> *final(self) == *old(self)
                &&& (r is Keepalive) == (old(self).saturate == SessionSaturate::Success
                    && op == Some(MessageType::Trace))
                &&& (r is Authenticate) == (old(self).saturate == SessionSaturate::WaitApprove
                    && op == Some(MessageType::SignApprove) && approval_request(body) is Some)
                &&& r matches Action::Authenticate { access_token, udp_port }
                    ==> approval_request(body) == Some((access_token@, udp_port))
                &&& r matches Action::Reply(b) ==> (old(self).saturate == SessionSaturate::Init
                    && op == Some(MessageType::Sign)
                    && (key_share_request(body) matches Some(client) && client.len() == PUBLIC_KEY_LEN)
                    && is_key_share_reply(b@)
                    && final(self).saturate == SessionSaturate::WaitApprove
                    && final(self).less_safe_key is Some)
            }),
    {
        let mut packet = match PacketDecoder::new(frame, self.less_safe_key) {
            Some(d) => d,
            None => return Action::Terminate,
        };
        let ghost m = packet@;
        let opcode = match packet.read_opcode() {
            Some(o) => o,
            None => return Action::Terminate,
        };
        assert(packet@ == m.skip(1));
        if opcode == MessageType::Sign && self.saturate == SessionSaturate::Init {
            let client_public = match packet.read_string() {
                Some(s) => s,
                None => return Action::Terminate,
            };
            match ephemeral_agreement(client_public.as_slice()) {
                Some((public, shared)) => {
                    let r = self.accept_key_exchange(public.as_slice(), shared.as_slice());
                    proof {
                        if r is Reply {
                            assert(is_key_share_reply(r->Reply_0@));
                        }
                    }
                    r
                },
                None => Action::Terminate,
            }
        } else if opcode == MessageType::SignApprove && self.saturate == SessionSaturate::WaitApprove {
            let token = match packet.read_string() {
                Some(t) => t,
                None => return Action::Terminate,
            };
            let udp_port = match packet.read_uint16() {
                Some(p) => p,
                None => return Action::Terminate,
            };
            match utf8_string(token) {
                Some(access_token) => Action::Authenticate { access_token, udp_port },
                None => Action::Terminate,
            }
        } else if opcode == MessageType::Trace && self.saturate == SessionSaturate::Success {
            Action::Keepalive
        } else {
            Action::Terminate
        }
    }

    /// Registers an authenticated user with a given nonce for the sealed
    /// approval. Only a context in `WaitApprove` with a key proceeds, and only
    /// when the session's identity shares no component with a live session (in
    /// particular its tunnel address); then the session is inserted with the
    /// context's key, and the context reaches `Success`.
    pub fn approve_with_nonce(
        &mut self,
        registry: &mut SessionRegistry,
        user: User,
        tcp: Endpoint,
        udp_port: u16,
        nonce: [u8; 12],
    ) -> (r: Action)
        ensures
            ({
                let id = approved_identity(user, tcp, udp_port);
                &&& (r is Reply) == (old(self).saturate == SessionSaturate::WaitApprove
                    && old(self).less_safe_key is Some && admissible(old(registry)@, id))
                &&& r matches Action::Reply(b) ==> (old(self).less_safe_key matches Some(k)
                    && b@ == sealed_frame(k@, nonce@, approval_plaintext())
                    && final(registry)@ == old(registry)@.push((id, SessionPayload { payload: user, less_safe_key: old(self).less_safe_key }))
                    && final(self).saturate == SessionSaturate::Success
                    && final(self).less_safe_key == old(self).less_safe_key)
                &&& !(r is Reply) ==> (r is Terminate && *final(self) == *old(self)
                    && final(registry)@ == old(registry)@)
            }),
    {
        if self.saturate != SessionSaturate::WaitApprove {
            return Action::Terminate;
        }
        let key = match self.less_safe_key {
            Some(k) => k,
            None => return Action::Terminate,
        };
        let ghost spec_user = user;
        let id = SessionIdentity {
            udp: Endpoint { ip: tcp.ip, port: udp_port },
            tunnel_ipv4: user.local_tunnel_address,
            tcp,
        };
        let mut packet = PacketEncoder::new();
        packet.write_opcode(MessageType::SignApprove);
        let marker: [u8; 2] = [0x6f, 0x6b];
        assert(marker@ =~= approval_marker());
        packet.write_string(marker.as_slice());
        let plain = match packet.to_bytes(None) {
            Some(b) => b,
            None => return Action::Terminate,
        };
        assert(plain@ =~= approval_plaintext());
        let reply = seal_with_nonce(&key, nonce, plain.as_slice());
        match registry.insert(id, SessionPayload::new(user, Some(key))) {
            Ok(()) => {
                self.saturate(SessionSaturate::Success);
                Action::Reply(reply)
            },
            Err(_) => Action::Terminate,
        }
    }

    /// Registers an authenticated user: as `approve_with_nonce`, with a fresh
    /// random nonce. The connection also ends when no nonce could be had.
    pub fn approve(&mut self, registry: &mut SessionRegistry, user: User, tcp: Endpoint, udp_port: u16) -> (r: Action)
        ensures
            ({
                let id = approved_identity(user, tcp, udp_port);
                &&& r is Reply ==> (old(self).saturate == SessionSaturate::WaitApprove
                    && admissible(old(registry)@, id))
                &&& !(old(self).saturate == SessionSaturate::WaitApprove && old(self).less_safe_key is Some
                    && admissible(old(registry)@, id)) ==> r is Terminate
                &&& r matches Action::Reply(b) ==> (old(self).less_safe_key matches Some(k)
                    && is_sealing_of(k@, b@, approval_plaintext())
                    && final(registry)@ == old(registry)@.push((id, SessionPayload { payload: user, less_safe_key: old(self).less_safe_key }))
                    && final(self).saturate == SessionSaturate::Success
                    && final(self).less_safe_key == old(self).less_safe_key)
                &&& !(r is Reply) ==> (r is Terminate && *final(self) == *old(self)
                    && final(registry)@ == old(registry)@)
            }),
    {
        match random_nonce() {
            Some(nonce) => {
                let r = self.approve_with_nonce(registry, user, tcp, udp_port, nonce);
                proof {
                    if r is Reply {
                        let k = old(self).less_safe_key->0;
                        lemma_sealed_frame_is_sealing(k@, nonce@, approval_plaintext());
                    }
                }
                r
            },
            None => Action::Terminate,
        }
    }
}

} // verus!
