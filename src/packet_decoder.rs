use vstd::prelude::*;
use vstd::slice::{slice_subrange, slice_to_vec};
use crate::aead::{open, open_frame, AeadKey};
use crate::message_type::{decoded_opcode, MessageType};
use crate::obfuscation::{xor_keystream, xor_transform};
use crate::wire::{decode_bytes, decode_u16, decode_u32, decode_u8};

verus! {

/// Cursor-style reader of wire primitives over a decoded frame. Reading past
/// the end gives `None` and leaves the reader as it was.
pub struct PacketDecoder {
    buf: Vec<u8>,
    pos: usize,
}

impl View for PacketDecoder {
    type V = Seq<u8>;

    /// The bytes not read yet.
    closed spec fn view(&self) -> Seq<u8> {
        self.buf@.skip(self.pos as int)
    }
}

impl PacketDecoder {
    #[verifier::type_invariant]
    spec fn inv(&self) -> bool {
        self.pos <= self.buf@.len()
    }

    /// A reader over `buf` taken off the XOR keystream of `shared`.
    pub fn new_xor(buf: &[u8], shared: Vec<u8>) -> (r: PacketDecoder)
        requires
            shared@.len() > 0,
        ensures
            r@ == xor_keystream(shared@, buf@),
    {
        let plain = xor_transform(shared.as_slice(), buf);
        assert(plain@.skip(0) =~= plain@);
        PacketDecoder { buf: plain, pos: 0 }
    }

    /// A reader over a frame: the frame itself when no key is installed, or its
    /// plaintext when it opens under the key. `None` when it does not open.
    pub fn new(buf: &[u8], shared: Option<AeadKey>) -> (r: Option<PacketDecoder>)
        ensures
            shared is None ==> (r matches Some(d) && d@ == buf@),
            shared matches Some(k) ==> (r is Some == open_frame(k@, buf@) is Some),
            shared matches Some(k) ==> (r matches Some(d) ==> open_frame(k@, buf@) == Some(d@)),
    {
        match shared {
            Some(key) => match open(&key, buf) {
                Some(plain) => {
                    assert(plain@.skip(0) =~= plain@);
                    Some(PacketDecoder { buf: plain, pos: 0 })
                },
                None => None,
            },
            None => {
                let plain = slice_to_vec(buf);
                assert(plain@.skip(0) =~= plain@);
                Some(PacketDecoder { buf: plain, pos: 0 })
            },
        }
    }

    pub fn read_uint8(&mut self) -> (r: Option<u8>)
        ensures
            (match decode_u8(old(self)@) {
                Some((v, rest)) => r == Some(v) && final(self)@ == rest,
                None => r is None && final(self)@ == old(self)@,
            }),
    {
        proof {
            use_type_invariant(&*self);
        }
        if self.buf.len() - self.pos < 1 {
            return None;
        }
        let v = self.buf[self.pos];
        self.pos = self.pos + 1;
        assert(self@ =~= old(self)@.skip(1));
        Some(v)
    }

    pub fn read_uint16(&mut self) -> (r: Option<u16>)
        ensures
            (match decode_u16(old(self)@) {
                Some((v, rest)) => r == Some(v) && final(self)@ == rest,
                None => r is None && final(self)@ == old(self)@,
            }),
    {
        proof {
            use_type_invariant(&*self);
        }
        if self.buf.len() - self.pos < 2 {
            return None;
        }
        let a = self.buf[self.pos];
        let b = self.buf[self.pos + 1];
        self.pos = self.pos + 2;
        assert(self@ =~= old(self)@.skip(2));
        Some(((a as u16) << 8u16) | (b as u16))
    }

    pub fn read_uint32(&mut self) -> (r: Option<u32>)
        ensures
            (match decode_u32(old(self)@) {
                Some((v, rest)) => r == Some(v) && final(self)@ == rest,
                None => r is None && final(self)@ == old(self)@,
            }),
    {
        proof {
            use_type_invariant(&*self);
        }
        if self.buf.len() - self.pos < 4 {
            return None;
        }
        let a = self.buf[self.pos];
        let b = self.buf[self.pos + 1];
        let c = self.buf[self.pos + 2];
        let d = self.buf[self.pos + 3];
        self.pos = self.pos + 4;
        assert(self@ =~= old(self)@.skip(4));
        Some(((a as u32) << 24u32) | ((b as u32) << 16u32) | ((c as u32) << 8u32) | (d as u32))
    }

    /// Reads a byte and reports the opcode it denotes, `Undefined` for an
    /// unknown byte.
    pub fn read_opcode(&mut self) -> (r: Option<MessageType>)
        ensures
            (match decode_u8(old(self)@) {
                Some((v, rest)) => r == Some(decoded_opcode(v)) && final(self)@ == rest,
                None => r is None && final(self)@ == old(self)@,
            }),
    {
        match self.read_uint8() {
            Some(b) => Some(MessageType::from_byte(b)),
            None => None,
        }
    }

    /// Reads a `string`: a `u32` length, then that many bytes.
    pub fn read_string(&mut self) -> (r: Option<Vec<u8>>)
        ensures
            (match decode_bytes(old(self)@) {
                Some((v, rest)) => (r matches Some(s) && s@ == v) && final(self)@ == rest,
                None => r is None && final(self)@ == old(self)@,
            }),
    {
        proof {
            use_type_invariant(&*self);
        }
        if self.buf.len() - self.pos < 4 {
            return None;
        }
        let a = self.buf[self.pos];
        let b = self.buf[self.pos + 1];
        let c = self.buf[self.pos + 2];
        let d = self.buf[self.pos + 3];
        let n: u32 = ((a as u32) << 24u32) | ((b as u32) << 16u32) | ((c as u32) << 8u32) | (d as u32);
        let body = self.pos + 4;
        if (n as usize) > self.buf.len() - body {
            return None;
        }
        let end = body + n as usize;
        let s = slice_to_vec(slice_subrange(self.buf.as_slice(), body, end));
        let ghost after_len = old(self)@.skip(4);
        assert(after_len =~= self.buf@.skip(body as int));
        self.pos = end;
        assert(s@ =~= after_len.take(n as int));
        assert(self@ =~= after_len.skip(n as int));
        Some(s)
    }
}

} // verus!
