use vstd::prelude::*;
use crate::aead::{seal, is_sealing_of, AeadKey, MAX_SEAL_INPUT, MIN_SEALED_LEN};
use crate::message_type::{opcode_byte, MessageType};
use crate::obfuscation::{xor_keystream, xor_transform};
use crate::wire::{encode_primitive, Primitive};

verus! {

/// Append-only writer of wire primitives.
pub struct PacketEncoder {
    buf: Vec<u8>,
}

impl View for PacketEncoder {
    type V = Seq<u8>;

    /// The bytes written so far.
    closed spec fn view(&self) -> Seq<u8> {
        self.buf@
    }
}

impl PacketEncoder {
    pub fn new() -> (r: PacketEncoder)
        ensures
            r@ == Seq::<u8>::empty(),
    {
        PacketEncoder { buf: Vec::new() }
    }

    pub fn write_u8(&mut self, value: u8)
        ensures
            final(self)@ == old(self)@ + encode_primitive(Primitive::Byte(value)),
    {
        self.buf.push(value);
        assert(self.buf@ =~= old(self)@ + encode_primitive(Primitive::Byte(value)));
    }

    pub fn write_u16(&mut self, value: u16)
        ensures
            final(self)@ == old(self)@ + encode_primitive(Primitive::Short(value)),
    {
        self.buf.push(((value >> 8u16) & 0xffu16) as u8);
        self.buf.push((value & 0xffu16) as u8);
        assert(self.buf@ =~= old(self)@ + encode_primitive(Primitive::Short(value)));
    }

    pub fn write_u32(&mut self, value: u32)
        ensures
            final(self)@ == old(self)@ + encode_primitive(Primitive::Word(value)),
    {
        self.buf.push(((value >> 24u32) & 0xffu32) as u8);
        self.buf.push(((value >> 16u32) & 0xffu32) as u8);
        self.buf.push(((value >> 8u32) & 0xffu32) as u8);
        self.buf.push((value & 0xffu32) as u8);
        assert(self.buf@ =~= old(self)@ + encode_primitive(Primitive::Word(value)));
    }

    pub fn write_opcode(&mut self, value: MessageType)
        ensures
            final(self)@ == old(self)@ + seq![opcode_byte(value)],
    {
        let b: u8 = value.into();
        self.write_u8(b);
    }

    /// Writes a `string`: its length as a `u32`, then its bytes.
    pub fn write_string(&mut self, value: &[u8])
        requires
            value@.len() <= u32::MAX,
        ensures
            final(self)@ == old(self)@ + encode_primitive(Primitive::Bytes(value@)),
    {
        self.write_u32(value.len() as u32);
        let ghost start = self.buf@;
        let mut i: usize = 0;
        while i < value.len()
            invariant
                i <= value@.len(),
                self.buf@ == start + value@.take(i as int),
            decreases value@.len() - i,
        {
            self.buf.push(value[i]);
            i = i + 1;
            assert(self.buf@ =~= start + value@.take(i as int));
        }
        assert(value@.take(i as int) =~= value@);
        assert(self.buf@ =~= old(self)@ + encode_primitive(Primitive::Bytes(value@)));
    }

    /// The frame to send: the bytes as written when there is no key, or their
    /// sealing under the key with a fresh nonce. `None` when sealing is not
    /// possible (plaintext too long, or no random nonce could be had).
    pub fn to_bytes(&self, shared: Option<AeadKey>) -> (r: Option<Vec<u8>>)
        ensures
            shared is None ==> (r matches Some(v) && v@ == self@),
            (shared is Some && self@.len() > MAX_SEAL_INPUT) ==> r is None,
            shared matches Some(k) ==> (r matches Some(v) ==> (is_sealing_of(k@, v@, self@)
                && v@.len() == self@.len() + MIN_SEALED_LEN)),
    {
        match shared {
            Some(key) => seal(&key, self.buf.as_slice()),
            None => Some(vstd::slice::slice_to_vec(self.buf.as_slice())),
        }
    }

    /// The bytes as written, under the XOR keystream of `shared`.
    pub fn to_bytes_with_xor(&self, shared: Vec<u8>) -> (r: Vec<u8>)
        requires
            shared@.len() > 0,
        ensures
            r@ == xor_keystream(shared@, self@),
    {
        xor_transform(shared.as_slice(), self.buf.as_slice())
    }
}

} // verus!
