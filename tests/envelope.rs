use vpn_core::aead::{open, seal, seal_with_nonce};
use vpn_core::{AeadKey, MessageType, PacketDecoder, PacketEncoder};

fn key(byte: u8) -> AeadKey {
    AeadKey::from_bytes(&[byte; 32]).unwrap()
}

#[test]
fn key_must_be_32_bytes() {
    assert!(AeadKey::from_bytes(&[1u8; 31]).is_none());
    assert!(AeadKey::from_bytes(&[1u8; 33]).is_none());
    assert_eq!(key(3).to_bytes(), [3u8; 32]);
}

#[test]
fn seal_then_open_round_trip() {
    let k = key(7);
    let plain = b"an inner ip packet".to_vec();
    let sealed = seal(&k, &plain).unwrap();
    assert_eq!(sealed.len(), plain.len() + 28);
    assert_ne!(&sealed[..plain.len()], &plain[..]);
    assert_eq!(open(&k, &sealed), Some(plain));
}

#[test]
fn sealed_frame_ends_with_its_nonce() {
    let k = key(9);
    let nonce = [5u8; 12];
    let sealed = seal_with_nonce(&k, nonce, b"abc");
    assert_eq!(sealed.len(), 3 + 16 + 12);
    assert_eq!(&sealed[sealed.len() - 12..], &nonce[..]);
    assert_ne!(&sealed[..3], b"abc");
    assert_eq!(open(&k, &sealed), Some(b"abc".to_vec()));
    assert_eq!(seal_with_nonce(&k, nonce, b"abc"), sealed);
}

#[test]
fn tampered_frame_does_not_open() {
    let k = key(7);
    let sealed = seal(&k, b"payload").unwrap();
    for i in 0..sealed.len() {
        for bit in 0..8 {
            let mut tampered = sealed.clone();
            tampered[i] ^= 1 << bit;
            assert_eq!(open(&k, &tampered), None, "byte {} bit {}", i, bit);
        }
    }
}

#[test]
fn wrong_key_or_short_frame_does_not_open() {
    let sealed = seal(&key(1), b"payload").unwrap();
    assert_eq!(open(&key(2), &sealed), None);
    assert_eq!(open(&key(1), &sealed[..27]), None);
    assert_eq!(open(&key(1), &[]), None);
}

#[test]
fn encoder_seals_and_decoder_opens() {
    let k = key(4);
    let mut enc = PacketEncoder::new();
    enc.write_opcode(MessageType::Trace);
    enc.write_u16(7);
    let sealed = enc.to_bytes(Some(k)).unwrap();
    assert_eq!(sealed.len(), 3 + 28);

    let mut dec = PacketDecoder::new(&sealed, Some(k)).unwrap();
    assert_eq!(dec.read_opcode(), Some(MessageType::Trace));
    assert_eq!(dec.read_uint16(), Some(7));

    assert!(PacketDecoder::new(&sealed, Some(key(5))).is_none());
    let plain = enc.to_bytes(None).unwrap();
    assert!(PacketDecoder::new(&plain, Some(k)).is_none());
}
