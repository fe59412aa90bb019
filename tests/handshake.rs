use ring::agreement::{agree_ephemeral, EphemeralPrivateKey, UnparsedPublicKey, X25519};
use ring::rand::SystemRandom;
use vpn_core::{
    Action, AeadKey, Endpoint, MessageType, PacketDecoder, PacketEncoder, SessionContext, SessionRegistry,
    SessionSaturate, User,
};

const CLIENT_IP: u32 = 0xc0a8_0105;
const TUNNEL: u32 = 0x0a08_0002;

fn user(tunnel: u32) -> User {
    User {
        id: 17,
        username: String::from("alice"),
        local_tunnel_address: tunnel,
        local_tunnel_address_str: String::from("10.8.0.2"),
    }
}

fn tcp(port: u16) -> Endpoint {
    Endpoint { ip: CLIENT_IP, port }
}

fn sign_frame(public: &[u8]) -> Vec<u8> {
    let mut enc = PacketEncoder::new();
    enc.write_opcode(MessageType::Sign);
    enc.write_string(public);
    enc.to_bytes(None).unwrap()
}

fn approve_frame(key: AeadKey, token: &[u8], port: u16) -> Vec<u8> {
    let mut enc = PacketEncoder::new();
    enc.write_opcode(MessageType::SignApprove);
    enc.write_string(token);
    enc.write_u16(port);
    enc.to_bytes(Some(key)).unwrap()
}

/// Runs the key exchange as a client would, and returns the agreed key.
fn exchange_keys(ctx: &mut SessionContext) -> AeadKey {
    let rng = SystemRandom::new();
    let client = EphemeralPrivateKey::generate(&X25519, &rng).unwrap();
    let client_public = client.compute_public_key().unwrap();
    let reply = match ctx.on_frame(&sign_frame(client_public.as_ref())) {
        Action::Reply(b) => b,
        _ => panic!("key share was not answered"),
    };
    assert_eq!(reply.len(), 37);
    assert_eq!(&reply[..5], &[0x23, 0, 0, 0, 0x20]);
    let shared = agree_ephemeral(client, &UnparsedPublicKey::new(&X25519, &reply[5..]), |m| m.to_vec()).unwrap();
    AeadKey::from_bytes(&shared).unwrap()
}

#[test]
fn happy_path_handshake() {
    let mut reg = SessionRegistry::new();
    let mut ctx = SessionContext::new();
    let key = exchange_keys(&mut ctx);
    assert_eq!(ctx.saturate, SessionSaturate::WaitApprove);
    assert_eq!(ctx.pk().unwrap().to_bytes(), key.to_bytes());

    let (token, port) = match ctx.on_frame(&approve_frame(key, b"header.claims.signature", 50000)) {
        Action::Authenticate { access_token, udp_port } => (access_token, udp_port),
        _ => panic!("approval was not decoded"),
    };
    assert_eq!(token, "header.claims.signature");
    assert_eq!(port, 50000);
    assert_eq!(ctx.saturate, SessionSaturate::WaitApprove);

    let reply = match ctx.approve(&mut reg, user(TUNNEL), tcp(40000), port) {
        Action::Reply(b) => b,
        _ => panic!("approval was refused"),
    };
    assert_eq!(ctx.saturate, SessionSaturate::Success);
    let mut dec = PacketDecoder::new(&reply, Some(key)).unwrap();
    assert_eq!(dec.read_opcode(), Some(MessageType::SignApprove));
    assert_eq!(dec.read_string(), Some(b"ok".to_vec()));

    assert_eq!(reg.len(), 1);
    let (id, payload) = reg.find_by_udp_endpoint(Endpoint { ip: CLIENT_IP, port: 50000 }).unwrap();
    assert_eq!(id.tunnel_ipv4, TUNNEL);
    assert_eq!(id.tcp, tcp(40000));
    assert_eq!(payload.payload.username, "alice");
    // The registered key is the one that opened the approval frame.
    assert_eq!(payload.less_safe_key().unwrap().to_bytes(), key.to_bytes());
}

#[test]
fn trace_is_a_keepalive_after_success() {
    let mut reg = SessionRegistry::new();
    let mut ctx = SessionContext::new();
    let key = exchange_keys(&mut ctx);
    ctx.on_frame(&approve_frame(key, b"t", 50000));
    assert!(matches!(ctx.approve(&mut reg, user(TUNNEL), tcp(40000), 50000), Action::Reply(_)));

    let mut enc = PacketEncoder::new();
    enc.write_opcode(MessageType::Trace);
    let trace = enc.to_bytes(Some(key)).unwrap();
    assert!(matches!(ctx.on_frame(&trace), Action::Keepalive));
    assert!(matches!(ctx.on_frame(&trace), Action::Keepalive));
    // A plaintext frame does not open once the key is installed.
    assert!(matches!(ctx.on_frame(&enc.to_bytes(None).unwrap()), Action::Terminate));
}

#[test]
fn init_does_not_accept_sign_approve() {
    let mut ctx = SessionContext::new();
    let mut enc = PacketEncoder::new();
    enc.write_opcode(MessageType::SignApprove);
    enc.write_string(b"token");
    enc.write_u16(50000);
    assert!(matches!(ctx.on_frame(&enc.to_bytes(None).unwrap()), Action::Terminate));
    assert!(matches!(ctx.on_frame(&[0x25]), Action::Terminate));
    assert!(matches!(ctx.on_frame(&[0x77]), Action::Terminate));
    assert!(matches!(ctx.on_frame(&[]), Action::Terminate));
    assert_eq!(ctx.saturate, SessionSaturate::Init);
}

#[test]
fn second_sign_after_wait_approve_terminates() {
    let mut ctx = SessionContext::new();
    let key = exchange_keys(&mut ctx);
    // Again in the clear: it does not open under the key.
    assert!(matches!(ctx.on_frame(&sign_frame(&[1u8; 32])), Action::Terminate));
    // Sealed: it opens, but `Sign` is not accepted while waiting for approval.
    let mut enc = PacketEncoder::new();
    enc.write_opcode(MessageType::Sign);
    enc.write_string(&[1u8; 32]);
    assert!(matches!(ctx.on_frame(&enc.to_bytes(Some(key)).unwrap()), Action::Terminate));
    assert_eq!(ctx.saturate, SessionSaturate::WaitApprove);
}

#[test]
fn success_accepts_neither_sign_nor_approval() {
    let mut reg = SessionRegistry::new();
    let mut ctx = SessionContext::new();
    let key = exchange_keys(&mut ctx);
    ctx.on_frame(&approve_frame(key, b"t", 50000));
    ctx.approve(&mut reg, user(TUNNEL), tcp(40000), 50000);
    assert_eq!(ctx.saturate, SessionSaturate::Success);
    assert!(matches!(ctx.on_frame(&approve_frame(key, b"t", 50001)), Action::Terminate));
    let mut enc = PacketEncoder::new();
    enc.write_opcode(MessageType::Sign);
    enc.write_string(&[1u8; 32]);
    assert!(matches!(ctx.on_frame(&enc.to_bytes(Some(key)).unwrap()), Action::Terminate));
    assert!(matches!(ctx.approve(&mut reg, user(0x0a08_0009), tcp(40001), 50002), Action::Terminate));
    assert_eq!(reg.len(), 1);
}

#[test]
fn key_share_of_wrong_length_terminates() {
    let mut ctx = SessionContext::new();
    assert!(matches!(ctx.on_frame(&sign_frame(&[9u8; 31])), Action::Terminate));
    assert!(matches!(ctx.on_frame(&[0x22, 0, 0, 0, 32, 1]), Action::Terminate));
    assert_eq!(ctx.saturate, SessionSaturate::Init);
    assert!(ctx.pk().is_none());
}

#[test]
fn accept_key_exchange_exact_reply() {
    let mut ctx = SessionContext::new();
    let public = [0x11u8; 32];
    let secret = [0x22u8; 32];
    let reply = match ctx.accept_key_exchange(&public, &secret) {
        Action::Reply(b) => b,
        _ => panic!("exchange refused"),
    };
    let mut expected = vec![0x23, 0, 0, 0, 32];
    expected.extend_from_slice(&public);
    assert_eq!(reply, expected);
    assert_eq!(ctx.pk().unwrap().to_bytes(), secret);
    assert!(matches!(ctx.accept_key_exchange(&public, &secret), Action::Terminate));
    let mut fresh = SessionContext::new();
    assert!(matches!(fresh.accept_key_exchange(&public[..31], &secret), Action::Terminate));
    assert!(matches!(fresh.accept_key_exchange(&public, &secret[..16]), Action::Terminate));
}

#[test]
fn non_utf8_token_terminates() {
    let mut ctx = SessionContext::new();
    let key = exchange_keys(&mut ctx);
    assert!(matches!(ctx.on_frame(&approve_frame(key, &[0xff, 0xfe], 50000)), Action::Terminate));
    let mut enc = PacketEncoder::new();
    enc.write_opcode(MessageType::SignApprove);
    enc.write_string(b"token");
    assert!(matches!(ctx.on_frame(&enc.to_bytes(Some(key)).unwrap()), Action::Terminate));
}

#[test]
fn duplicate_login_is_rejected() {
    let mut reg = SessionRegistry::new();
    let mut first = SessionContext::new();
    let k1 = exchange_keys(&mut first);
    first.on_frame(&approve_frame(k1, b"t", 50000));
    assert!(matches!(first.approve(&mut reg, user(TUNNEL), tcp(40000), 50000), Action::Reply(_)));

    let mut second = SessionContext::new();
    let k2 = exchange_keys(&mut second);
    assert!(matches!(second.on_frame(&approve_frame(k2, b"t", 50001)), Action::Authenticate { .. }));
    assert!(matches!(second.approve(&mut reg, user(TUNNEL), tcp(40001), 50001), Action::Terminate));
    assert_eq!(second.saturate, SessionSaturate::WaitApprove);
    assert_eq!(reg.len(), 1);
    assert_eq!(reg.find_by_tunnel_ipv4(TUNNEL).unwrap().0.tcp, tcp(40000));
    // The rejected connection closes; eviction finds nothing of its own.
    assert_eq!(reg.evict_connection(tcp(40001)), None);
    assert_eq!(reg.len(), 1);
}

#[test]
fn closed_connection_evicts_its_session() {
    let mut reg = SessionRegistry::new();
    let mut ctx = SessionContext::new();
    let key = exchange_keys(&mut ctx);
    ctx.on_frame(&approve_frame(key, b"t", 50000));
    ctx.approve(&mut reg, user(TUNNEL), tcp(40000), 50000);
    assert_eq!(reg.len(), 1);
    let evicted = reg.evict_connection(tcp(40000)).unwrap();
    assert_eq!(evicted.udp, Endpoint { ip: CLIENT_IP, port: 50000 });
    assert_eq!(reg.len(), 0);
}

#[test]
fn timed_out_handshake_leaves_no_entry() {
    let mut reg = SessionRegistry::new();
    let mut ctx = SessionContext::new();
    exchange_keys(&mut ctx);
    assert_eq!(reg.len(), 0);
    assert_eq!(reg.evict_connection(tcp(40000)), None);
}
