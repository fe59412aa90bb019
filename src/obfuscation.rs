use vstd::prelude::*;

verus! {

/// XOR keystream: byte `i` of `b` XOR byte `i mod |shared|` of `shared`.
pub open spec fn xor_keystream(shared: Seq<u8>, b: Seq<u8>) -> Seq<u8>
    recommends
        shared.len() > 0,
{
    Seq::new(b.len(), |i: int| b[i] ^ shared[i % (shared.len() as int)])
}

/// Applies the XOR keystream of `shared` to `bytes`; the same call encodes and
/// decodes.
pub fn xor_transform(shared: &[u8], bytes: &[u8]) -> (r: Vec<u8>)
    requires
        shared@.len() > 0,
    ensures
        r@ == xor_keystream(shared@, bytes@),
{
    let mut out: Vec<u8> = Vec::new();
    let mut i: usize = 0;
    while i < bytes.len()
        invariant
            shared@.len() > 0,
            i <= bytes@.len(),
            out@ =~= xor_keystream(shared@, bytes@.take(i as int)),
        decreases bytes@.len() - i,
    {
        out.push(bytes[i] ^ shared[i % shared.len()]);
        i = i + 1;
        assert(out@ =~= xor_keystream(shared@, bytes@.take(i as int)));
    }
    assert(bytes@.take(i as int) =~= bytes@);
    out
}

/// XOR obfuscation is an involution: applying it twice with the same non-empty
/// key gives back the input.
pub proof fn lemma_xor_involution(shared: Seq<u8>, b: Seq<u8>)
    requires
        shared.len() > 0,
    ensures
        xor_keystream(shared, xor_keystream(shared, b)) == b,
{
    let once = xor_keystream(shared, b);
    let twice = xor_keystream(shared, once);
    assert forall|i: int| 0 <= i < b.len() implies twice[i] == b[i] by {
        let x = b[i];
        let k = shared[i % (shared.len() as int)];
        assert((x ^ k) ^ k == x) by (bit_vector);
    }
    assert(twice =~= b);
}

} // verus!
