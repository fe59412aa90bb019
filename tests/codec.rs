use vpn_core::obfuscation::xor_transform;
use vpn_core::{MessageType, PacketDecoder, PacketEncoder};

fn plain_decoder(bytes: &[u8]) -> PacketDecoder {
    PacketDecoder::new(bytes, None).expect("no key: the frame is read as it is")
}

#[test]
fn encode_then_decode_primitives() {
    let mut enc = PacketEncoder::new();
    enc.write_opcode(MessageType::SignApprove);
    enc.write_u8(0xab);
    enc.write_u16(50000);
    enc.write_u32(0xdead_beef);
    enc.write_string(b"token");
    enc.write_string(b"");
    let bytes = enc.to_bytes(None).unwrap();

    let mut dec = plain_decoder(&bytes);
    assert_eq!(dec.read_opcode(), Some(MessageType::SignApprove));
    assert_eq!(dec.read_uint8(), Some(0xab));
    assert_eq!(dec.read_uint16(), Some(50000));
    assert_eq!(dec.read_uint32(), Some(0xdead_beef));
    assert_eq!(dec.read_string(), Some(b"token".to_vec()));
    assert_eq!(dec.read_string(), Some(Vec::new()));
    assert_eq!(dec.read_uint8(), None);
}

#[test]
fn integers_are_big_endian() {
    let mut enc = PacketEncoder::new();
    enc.write_u16(0xabcd);
    enc.write_u32(0x0102_0304);
    enc.write_string(&[9, 8]);
    assert_eq!(enc.to_bytes(None).unwrap(), vec![0xab, 0xcd, 1, 2, 3, 4, 0, 0, 0, 2, 9, 8]);
}

#[test]
fn empty_string_is_four_zero_bytes() {
    let mut enc = PacketEncoder::new();
    enc.write_string(&[]);
    let bytes = enc.to_bytes(None).unwrap();
    assert_eq!(bytes, vec![0, 0, 0, 0]);
    let mut dec = plain_decoder(&bytes);
    assert_eq!(dec.read_string(), Some(Vec::new()));
}

#[test]
fn reading_past_the_end_fails_and_keeps_position() {
    let mut dec = plain_decoder(&[0, 0, 0, 5, 1, 2]);
    assert_eq!(dec.read_string(), None);
    assert_eq!(dec.read_uint32(), Some(5));
    assert_eq!(dec.read_uint32(), None);
    assert_eq!(dec.read_uint16(), Some(0x0102));
    assert_eq!(dec.read_uint16(), None);
    assert_eq!(dec.read_uint8(), None);
    assert_eq!(dec.read_opcode(), None);
}

#[test]
fn opcode_bytes() {
    assert_eq!(u8::from(MessageType::Sign), 0x22);
    assert_eq!(u8::from(MessageType::SignWaitApprove), 0x23);
    assert_eq!(u8::from(MessageType::SignApprove), 0x24);
    assert_eq!(u8::from(MessageType::Trace), 0x25);
    assert_eq!(u8::from(MessageType::Undefined), 0x99);
    assert_eq!(MessageType::try_from(0x25u8), Ok(MessageType::Trace));
    assert_eq!(MessageType::try_from(0x99u8), Err(()));
    assert_eq!(MessageType::from_byte(0x42), MessageType::Undefined);
    let mut dec = plain_decoder(&[0x22, 0x07]);
    assert_eq!(dec.read_opcode(), Some(MessageType::Sign));
    assert_eq!(dec.read_opcode(), Some(MessageType::Undefined));
}

#[test]
fn xor_keystream_exact_bytes() {
    assert_eq!(xor_transform(&[0xff], &[0x01, 0x02, 0x03]), vec![0xfe, 0xfd, 0xfc]);
    assert_eq!(xor_transform(&[0x0f, 0xf0], &[0x00, 0x00, 0xff]), vec![0x0f, 0xf0, 0xf0]);
    assert_eq!(xor_transform(&[1, 2, 3], &[]), Vec::<u8>::new());
}

#[test]
fn xor_encode_then_decode_is_identity() {
    let shared = b"example world!".to_vec();
    let mut enc = PacketEncoder::new();
    enc.write_opcode(MessageType::Trace);
    enc.write_string(b"query payload that is longer than the key");
    let plain = enc.to_bytes(None).unwrap();
    let obfuscated = enc.to_bytes_with_xor(shared.clone());
    assert_ne!(obfuscated, plain);
    assert_eq!(xor_transform(&shared, &obfuscated), plain);

    let mut dec = PacketDecoder::new_xor(&obfuscated, shared);
    assert_eq!(dec.read_opcode(), Some(MessageType::Trace));
    assert_eq!(dec.read_string(), Some(b"query payload that is longer than the key".to_vec()));
}
