use vstd::prelude::*;
use vstd::slice::slice_subrange;
use vstd::slice::slice_to_vec;
use ring::aead::{Aad, LessSafeKey, Nonce, UnboundKey, AES_256_GCM};
use ring::rand::{SecureRandom, SystemRandom};

verus! {

/// Bytes of an AES-256-GCM key.
pub const KEY_LEN: usize = 32;

/// Bytes of a GCM nonce; a sealed frame ends with it.
pub const NONCE_LEN: usize = 12;

/// Bytes of the authentication tag that sealing appends.
pub const TAG_LEN: usize = 16;

/// The shortest sealed frame: a tag and a nonce around an empty plaintext.
pub const MIN_SEALED_LEN: usize = 28;

/// The longest plaintext sealed in one call: within ring's AES-GCM input limit
/// on every target (its bit length must fit a 32-bit `usize` too).
pub const MAX_SEAL_INPUT: u64 = 536_870_911;

/// What AES-256-GCM sealing of `plain` under `key` and `nonce`, with empty
/// associated data, returns: the ciphertext followed by the tag.
pub uninterp spec fn aes_gcm_seal(key: Seq<u8>, nonce: Seq<u8>, plain: Seq<u8>) -> Seq<u8>;

/// What AES-256-GCM opening of `sealed` (ciphertext followed by tag) under `key`
/// and `nonce`, with empty associated data, returns; `None` when it does not
/// authenticate.
pub uninterp spec fn aes_gcm_open(key: Seq<u8>, nonce: Seq<u8>, sealed: Seq<u8>) -> Option<Seq<u8>>;

/// Relies on ring's `LessSafeKey::seal_in_place_append_tag` (AES-256-GCM,
/// empty associated data): it appends a 16-byte tag to the ciphertext, and fails
/// only on over-long input, which `MAX_SEAL_INPUT` stays below.
#[verifier::external_body]
fn seal_in_place(key: &[u8; 32], nonce: &[u8; 12], buf: &mut Vec<u8>)
    requires
        old(buf)@.len() <= MAX_SEAL_INPUT,
    ensures
        final(buf)@ == aes_gcm_seal(key@, nonce@, old(buf)@),
        final(buf)@.len() == old(buf)@.len() + TAG_LEN,
{
    let sealer = LessSafeKey::new(UnboundKey::new(&AES_256_GCM, key).unwrap());
    sealer.seal_in_place_append_tag(Nonce::assume_unique_for_key(*nonce), Aad::empty(), buf).unwrap();
}

/// `result` is the plaintext whenever `sealed` is the sealing of some plaintext
/// under `key` and `nonce`.
pub open spec fn opens_to_sealed(key: Seq<u8>, nonce: Seq<u8>, sealed: Seq<u8>, result: Option<Vec<u8>>) -> bool {
    forall|p: Seq<u8>|
        p.len() <= MAX_SEAL_INPUT && sealed == #[trigger] aes_gcm_seal(key, nonce, p)
            ==> (result matches Some(v) && v@ == p)
}

/// Relies on ring's `LessSafeKey::open_in_place` (AES-256-GCM, empty associated
/// data): it strips and checks the trailing 16-byte tag, and opens exactly what
/// sealing under the same key and nonce produced.
#[verifier::external_body]
fn open_in_place(key: &[u8; 32], nonce: &[u8; 12], sealed: &[u8]) -> (r: Option<Vec<u8>>)
    ensures
        r is Some == aes_gcm_open(key@, nonce@, sealed@) is Some,
        r matches Some(v) ==> aes_gcm_open(key@, nonce@, sealed@) == Some(v@),
        sealed@.len() < TAG_LEN ==> r is None,
        r matches Some(v) ==> v@.len() + TAG_LEN == sealed@.len(),
        opens_to_sealed(key@, nonce@, sealed@, r),
{
    let opener = LessSafeKey::new(UnboundKey::new(&AES_256_GCM, key).unwrap());
    let mut buf = sealed.to_vec();
    match opener.open_in_place(Nonce::assume_unique_for_key(*nonce), Aad::empty(), &mut buf) {
        Ok(plain) => Some(plain.to_vec()),
        Err(_) => None,
    }
}

/// Relies on ring's `SystemRandom::fill` for 12 fresh bytes; it may fail, and
/// nothing is known of the bytes.
#[verifier::external_body]
pub(crate) fn random_nonce() -> (r: Option<[u8; 12]>)
{
    let mut nonce = [0u8; 12];
    match SystemRandom::new().fill(&mut nonce) {
        Ok(()) => Some(nonce),
        Err(_) => None,
    }
}

/// The frame that sealing `plain` under `key` with `nonce` gives:
/// `ciphertext || tag || nonce`.
pub open spec fn sealed_frame(key: Seq<u8>, nonce: Seq<u8>, plain: Seq<u8>) -> Seq<u8> {
    aes_gcm_seal(key, nonce, plain) + nonce
}

/// The trailing nonce of a frame.
pub open spec fn frame_nonce(frame: Seq<u8>) -> Seq<u8> {
    frame.subrange(frame.len() - NONCE_LEN, frame.len() as int)
}

/// What precedes the trailing nonce of a frame.
pub open spec fn frame_body(frame: Seq<u8>) -> Seq<u8> {
    frame.subrange(0, frame.len() - NONCE_LEN)
}

/// The plaintext of a sealed frame: `None` when it is shorter than
/// `MIN_SEALED_LEN` or does not authenticate under `key`.
pub open spec fn open_frame(key: Seq<u8>, frame: Seq<u8>) -> Option<Seq<u8>> {
    if frame.len() < MIN_SEALED_LEN {
        None
    } else {
        aes_gcm_open(key, frame_nonce(frame), frame_body(frame))
    }
}

/// A frame that is the sealing of `plain` under `key` with the nonce it ends with.
pub open spec fn is_sealing_of(key: Seq<u8>, frame: Seq<u8>, plain: Seq<u8>) -> bool {
    &&& frame.len() >= NONCE_LEN
    &&& frame == sealed_frame(key, frame_nonce(frame), plain)
}

/// A frame sealed with a 12-byte nonce ends with that nonce, so it is a
/// sealing of its plaintext.
pub proof fn lemma_sealed_frame_is_sealing(key: Seq<u8>, nonce: Seq<u8>, plain: Seq<u8>)
    requires
        nonce.len() == NONCE_LEN,
    ensures
        is_sealing_of(key, sealed_frame(key, nonce, plain), plain),
{
    let f = sealed_frame(key, nonce, plain);
    assert(frame_nonce(f) =~= nonce);
}

/// A session's AES-256-GCM key, held as its 32 raw bytes.
#[derive(Clone, Copy)]
pub struct AeadKey {
    bytes: [u8; 32],
}

impl View for AeadKey {
    type V = Seq<u8>;

    closed spec fn view(&self) -> Seq<u8> {
        self.bytes@
    }
}

impl AeadKey {
    /// The key whose bytes are `material`; `None` unless it is 32 bytes long.
    pub fn from_bytes(material: &[u8]) -> (r: Option<AeadKey>)
        ensures
            material@.len() == KEY_LEN <==> r is Some,
            r matches Some(k) ==> k@ == material@,
    {
        if material.len() != KEY_LEN {
            return None;
        }
        let mut bytes = [0u8; 32];
        let mut i: usize = 0;
        while i < KEY_LEN
            invariant
                material@.len() == KEY_LEN,
                i <= KEY_LEN,
                bytes@.len() == KEY_LEN,
                forall|j: int| 0 <= j < i ==> bytes@[j] == material@[j],
            decreases KEY_LEN - i,
        {
            bytes[i] = material[i];
            i = i + 1;
        }
        assert(bytes@ =~= material@);
        Some(AeadKey { bytes })
    }

    /// The key's 32 bytes.
    pub fn to_bytes(&self) -> (r: [u8; 32])
        ensures
            r@ == self@,
    {
        self.bytes
    }
}

/// Seals `plain` under `key` with the given nonce: `ciphertext || tag || nonce`.
pub fn seal_with_nonce(key: &AeadKey, nonce: [u8; 12], plain: &[u8]) -> (r: Vec<u8>)
    requires
        plain@.len() <= MAX_SEAL_INPUT,
    ensures
        r@ == sealed_frame(key@, nonce@, plain@),
        is_sealing_of(key@, r@, plain@),
        r@.len() == plain@.len() + MIN_SEALED_LEN,
{
    let mut buf = slice_to_vec(plain);
    seal_in_place(&key.bytes, &nonce, &mut buf);
    let mut i: usize = 0;
    let ghost sealed = buf@;
    while i < NONCE_LEN
        invariant
            i <= NONCE_LEN,
            nonce@.len() == NONCE_LEN,
            buf@ == sealed + nonce@.take(i as int),
        decreases NONCE_LEN - i,
    {
        buf.push(nonce[i]);
        i = i + 1;
        assert(buf@ =~= sealed + nonce@.take(i as int));
    }
    assert(nonce@.take(12) =~= nonce@);
    assert(frame_nonce(buf@) =~= nonce@);
    buf
}

/// Seals `plain` under `key` with a fresh random nonce. `None` when the
/// plaintext is too long for one sealing or no random nonce could be had.
pub fn seal(key: &AeadKey, plain: &[u8]) -> (r: Option<Vec<u8>>)
    ensures
        plain@.len() > MAX_SEAL_INPUT ==> r is None,
        r matches Some(v) ==> is_sealing_of(key@, v@, plain@) && v@.len() == plain@.len() + MIN_SEALED_LEN,
{
    if plain.len() as u64 > MAX_SEAL_INPUT {
        return None;
    }
    match random_nonce() {
        Some(nonce) => Some(seal_with_nonce(key, nonce, plain)),
        None => None,
    }
}

/// Opens a sealed frame under `key`. Whatever was sealed under `key`, with any
/// nonce, opens to the plaintext that was sealed.
pub fn open(key: &AeadKey, frame: &[u8]) -> (r: Option<Vec<u8>>)
    ensures
        r is Some == open_frame(key@, frame@) is Some,
        r matches Some(v) ==> open_frame(key@, frame@) == Some(v@),
        forall|p: Seq<u8>|
            p.len() <= MAX_SEAL_INPUT && #[trigger] is_sealing_of(key@, frame@, p)
                ==> (r matches Some(v) && v@ == p),
{
    if frame.len() < NONCE_LEN {
        return None;
    }
    let split = frame.len() - NONCE_LEN;
    let mut nonce = [0u8; 12];
    let mut i: usize = 0;
    while i < NONCE_LEN
        invariant
            i <= NONCE_LEN,
            split + NONCE_LEN == frame@.len(),
            frame@.len() <= usize::MAX,
            nonce@.len() == NONCE_LEN,
            forall|j: int| 0 <= j < i ==> nonce@[j] == frame@[split + j],
        decreases NONCE_LEN - i,
    {
        nonce[i] = frame[split + i];
        i = i + 1;
    }
    assert(nonce@ =~= frame_nonce(frame@));
    let body = slice_subrange(frame, 0, split);
    assert(body@ =~= frame_body(frame@));
    let r = open_in_place(&key.bytes, &nonce, body);
    proof {
        assert forall|p: Seq<u8>|
            p.len() <= MAX_SEAL_INPUT && #[trigger] is_sealing_of(key@, frame@, p)
            implies (r matches Some(v) && v@ == p) by {
            let s = aes_gcm_seal(key@, nonce@, p);
            assert(frame@ == s + nonce@);
            assert(body@ =~= s);
        }
    }
    r
}

} // verus!
