use vstd::prelude::*;

verus! {

/// Big-endian bytes of a `u16`.
pub open spec fn be16(v: u16) -> Seq<u8> {
    seq![((v >> 8u16) & 0xffu16) as u8, (v & 0xffu16) as u8]
}

/// Big-endian bytes of a `u32`.
pub open spec fn be32(v: u32) -> Seq<u8> {
    seq![
        ((v >> 24u32) & 0xffu32) as u8,
        ((v >> 16u32) & 0xffu32) as u8,
        ((v >> 8u32) & 0xffu32) as u8,
        (v & 0xffu32) as u8,
    ]
}

/// The `u16` whose big-endian bytes are `a, b`.
pub open spec fn u16_from_be(a: u8, b: u8) -> u16 {
    ((a as u16) << 8u16) | (b as u16)
}

/// The `u32` whose big-endian bytes are `a, b, c, d`.
pub open spec fn u32_from_be(a: u8, b: u8, c: u8, d: u8) -> u32 {
    ((a as u32) << 24u32) | ((b as u32) << 16u32) | ((c as u32) << 8u32) | (d as u32)
}

/// One wire primitive, as a value.
pub enum Primitive {
    Byte(u8),
    Short(u16),
    Word(u32),
    /// A `string`: a `u32` length, then that many raw bytes.
    Bytes(Seq<u8>),
}

/// The shape of a primitive, which a reader must know in advance.
#[derive(PartialEq, Eq, Structural, Clone, Copy)]
pub enum Kind {
    Byte,
    Short,
    Word,
    Bytes,
}

pub open spec fn kind_of(p: Primitive) -> Kind {
    match p {
        Primitive::Byte(_) => Kind::Byte,
        Primitive::Short(_) => Kind::Short,
        Primitive::Word(_) => Kind::Word,
        Primitive::Bytes(_) => Kind::Bytes,
    }
}

/// A primitive that fits the wire format: a `string` is at most `u32::MAX` bytes.
pub open spec fn encodable(p: Primitive) -> bool {
    match p {
        Primitive::Bytes(b) => b.len() <= u32::MAX,
        _ => true,
    }
}

/// The bytes that encode one primitive.
pub open spec fn encode_primitive(p: Primitive) -> Seq<u8> {
    match p {
        Primitive::Byte(v) => seq![v],
        Primitive::Short(v) => be16(v),
        Primitive::Word(v) => be32(v),
        Primitive::Bytes(b) => be32(b.len() as u32) + b,
    }
}

/// The bytes that encode a sequence of primitives, one after another.
pub open spec fn encode_all(ps: Seq<Primitive>) -> Seq<u8>
    decreases ps.len(),
{
    if ps.len() == 0 {
        Seq::empty()
    } else {
        encode_primitive(ps[0]) + encode_all(ps.skip(1))
    }
}

/// Reads a byte off the front of `s`: the value and what is left.
pub open spec fn decode_u8(s: Seq<u8>) -> Option<(u8, Seq<u8>)> {
    if s.len() >= 1 {
        Some((s[0], s.skip(1)))
    } else {
        None
    }
}

/// Reads a big-endian `u16` off the front of `s`.
pub open spec fn decode_u16(s: Seq<u8>) -> Option<(u16, Seq<u8>)> {
    if s.len() >= 2 {
        Some((u16_from_be(s[0], s[1]), s.skip(2)))
    } else {
        None
    }
}

/// Reads a big-endian `u32` off the front of `s`.
pub open spec fn decode_u32(s: Seq<u8>) -> Option<(u32, Seq<u8>)> {
    if s.len() >= 4 {
        Some((u32_from_be(s[0], s[1], s[2], s[3]), s.skip(4)))
    } else {
        None
    }
}

/// Reads a `string` off the front of `s`: a `u32` length, then that many bytes.
pub open spec fn decode_bytes(s: Seq<u8>) -> Option<(Seq<u8>, Seq<u8>)> {
    match decode_u32(s) {
        Some((n, rest)) => if n <= rest.len() {
            Some((rest.take(n as int), rest.skip(n as int)))
        } else {
            None
        },
        None => None,
    }
}

/// Reads one primitive of the given shape off the front of `s`.
pub open spec fn decode_primitive(k: Kind, s: Seq<u8>) -> Option<(Primitive, Seq<u8>)> {
    match k {
        Kind::Byte => match decode_u8(s) {
            Some((v, r)) => Some((Primitive::Byte(v), r)),
            None => None,
        },
        Kind::Short => match decode_u16(s) {
            Some((v, r)) => Some((Primitive::Short(v), r)),
            None => None,
        },
        Kind::Word => match decode_u32(s) {
            Some((v, r)) => Some((Primitive::Word(v), r)),
            None => None,
        },
        Kind::Bytes => match decode_bytes(s) {
            Some((v, r)) => Some((Primitive::Bytes(v), r)),
            None => None,
        },
    }
}

/// Reads primitives of the given shapes, in order, off the front of `s`.
pub open spec fn decode_all(ks: Seq<Kind>, s: Seq<u8>) -> Option<(Seq<Primitive>, Seq<u8>)>
    decreases ks.len(),
{
    if ks.len() == 0 {
        Some((Seq::empty(), s))
    } else {
        match decode_primitive(ks[0], s) {
            Some((p, rest)) => match decode_all(ks.skip(1), rest) {
                Some((ps, tail)) => Some((seq![p] + ps, tail)),
                None => None,
            },
            None => None,
        }
    }
}

proof fn lemma_be16_round_trip(v: u16)
    ensures
        u16_from_be(be16(v)[0], be16(v)[1]) == v,
{
    let a = ((v >> 8u16) & 0xffu16) as u8;
    let b = (v & 0xffu16) as u8;
    assert(((a as u16) << 8u16) | (b as u16) == v) by (bit_vector)
        requires
            a == ((v >> 8u16) & 0xffu16) as u8,
            b == (v & 0xffu16) as u8,
    ;
}

proof fn lemma_be32_round_trip(v: u32)
    ensures
        u32_from_be(be32(v)[0], be32(v)[1], be32(v)[2], be32(v)[3]) == v,
{
    let a = ((v >> 24u32) & 0xffu32) as u8;
    let b = ((v >> 16u32) & 0xffu32) as u8;
    let c = ((v >> 8u32) & 0xffu32) as u8;
    let d = (v & 0xffu32) as u8;
    assert(((a as u32) << 24u32) | ((b as u32) << 16u32) | ((c as u32) << 8u32) | (d as u32) == v)
        by (bit_vector)
        requires
            a == ((v >> 24u32) & 0xffu32) as u8,
            b == ((v >> 16u32) & 0xffu32) as u8,
            c == ((v >> 8u32) & 0xffu32) as u8,
            d == (v & 0xffu32) as u8,
    ;
}

/// Reading one primitive back from its encoding, followed by anything,
/// gives the primitive and leaves exactly what followed.
pub proof fn lemma_primitive_round_trip(p: Primitive, tail: Seq<u8>)
    requires
        encodable(p),
    ensures
        decode_primitive(kind_of(p), encode_primitive(p) + tail) == Some((p, tail)),
{
    let s = encode_primitive(p) + tail;
    match p {
        Primitive::Byte(v) => {
            assert(s.skip(1) =~= tail);
        },
        Primitive::Short(v) => {
            lemma_be16_round_trip(v);
            assert(s.skip(2) =~= tail);
        },
        Primitive::Word(v) => {
            lemma_be32_round_trip(v);
            assert(s.skip(4) =~= tail);
        },
        Primitive::Bytes(b) => {
            let n = b.len() as u32;
            lemma_be32_round_trip(n);
            let rest = s.skip(4);
            assert(rest =~= b + tail);
            assert(rest.take(n as int) =~= b);
            assert(rest.skip(n as int) =~= tail);
        },
    }
}

/// Encode-then-decode of any sequence of primitives gives back the sequence,
/// and leaves whatever bytes followed the encoding.
pub proof fn lemma_round_trip(ps: Seq<Primitive>, tail: Seq<u8>)
    requires
        forall|i: int| 0 <= i < ps.len() ==> encodable(#[trigger] ps[i]),
    ensures
        decode_all(ps.map_values(|p: Primitive| kind_of(p)), encode_all(ps) + tail) == Some((ps, tail)),
    decreases ps.len(),
{
    let ks = ps.map_values(|p: Primitive| kind_of(p));
    if ps.len() == 0 {
        assert(encode_all(ps) + tail =~= tail);
    } else {
        let rest = ps.skip(1);
        lemma_round_trip(rest, tail);
        assert(ks.skip(1) =~= rest.map_values(|p: Primitive| kind_of(p)));
        assert(encode_all(ps) + tail =~= encode_primitive(ps[0]) + (encode_all(rest) + tail));
        lemma_primitive_round_trip(ps[0], encode_all(rest) + tail);
        assert(seq![ps[0]] + rest =~= ps);
    }
}

} // verus!
