//! The stream cipher engine: a deterministic keystream derived from a fixed
//! key and nonce, combined with data byte-wise by XOR.

use chacha20::cipher::KeyIvInit;
use chacha20::cipher::StreamCipher;
use chacha20::cipher::StreamCipherSeek;
use chacha20::ChaCha20;
use vstd::prelude::*;

verus! {

broadcast use vstd::array::group_array_axioms;

/// Highest stream position (in bytes) the engine will generate up to. The
/// cipher's 32-bit block counter can produce just under `2^38` keystream
/// bytes; staying at or below `2^37` keeps every request comfortably inside
/// that capacity.
pub const STREAM_LIMIT: u64 = 0x20_0000_0000;

/// The byte the keystream holds at position `pos`, for a given key and nonce.
/// The stream is a pure function of these three arguments and nothing else;
/// its value is stated nowhere, so nothing is assumed about it beyond
/// determinism.
pub uninterp spec fn keystream_byte(key: Seq<u8>, nonce: Seq<u8>, pos: int) -> u8;

/// What the transform leaves in a buffer: each byte XORed with the keystream
/// byte at its stream position, the first byte sitting at position `pos`.
pub open spec fn xor_with_keystream(data: Seq<u8>, key: Seq<u8>, nonce: Seq<u8>, pos: int) -> Seq<u8> {
    Seq::new(data.len(), |i: int| data[i] ^ keystream_byte(key, nonce, pos + i))
}

/// Relies on `chacha20::ChaCha20` with `cipher::StreamCipherSeek`: the cipher
/// produces a keystream determined by key, nonce and stream position alone;
/// `seek` places it at byte position `pos`, and `apply_keystream` XORs it into
/// the buffer byte-wise. The position bound keeps the request inside the
/// 32-bit block counter's capacity, where neither call fails.
#[verifier::external_body]
pub(crate) fn keystream_xor_at(key: &[u8; 32], nonce: &[u8; 12], pos: u64, data: &[u8]) -> (r: Vec<u8>)
    requires
        pos + data@.len() <= STREAM_LIMIT,
    ensures
        r@.len() == data@.len(),
        forall|i: int| 0 <= i < data@.len() ==> r@[i] == (data@[i] ^ keystream_byte(
            key@,
            nonce@,
            pos + i,
        )),
        r@ == xor_with_keystream(data@, key@, nonce@, pos as int),
{
    let mut cipher = ChaCha20::new(key.into(), nonce.into());
    cipher.seek(pos);
    let mut out = data.to_vec();
    cipher.apply_keystream(&mut out);
    out
}

/// The fixed, non-secret key, as the contracts speak of it.
pub open spec fn default_key_spec() -> Seq<u8> {
    Seq::new(32, |i: int| 0x42u8)
}

/// The fixed, non-secret nonce, as the contracts speak of it.
pub open spec fn default_nonce_spec() -> Seq<u8> {
    Seq::new(12, |i: int| 0x24u8)
}

/// The fixed, non-secret key this tool measures with.
pub fn default_key() -> (k: [u8; 32])
    ensures
        k@ == default_key_spec(),
{
    let k = [0x42u8; 32];
    proof {
        assert(k@ =~= default_key_spec());
    }
    k
}

/// The fixed, non-secret nonce paired with the key.
pub fn default_nonce() -> (n: [u8; 12])
    ensures
        n@ == default_nonce_spec(),
{
    let n = [0x24u8; 12];
    proof {
        assert(n@ =~= default_nonce_spec());
    }
    n
}

/// The stream cipher engine: a key and nonce together with the byte position
/// the keystream has advanced to.
pub struct CipherState {
    pub key: [u8; 32],
    pub nonce: [u8; 12],
    pub pos: u64,
}

/// A fresh engine whose keystream stands at position zero.
pub fn new_cipher(key: [u8; 32], nonce: [u8; 12]) -> (c: CipherState)
    ensures
        c.key == key,
        c.nonce == nonce,
        c.pos == 0,
{
    CipherState { key, nonce, pos: 0 }
}

impl CipherState {
    /// Generates as many keystream bytes as the buffer holds, starting from
    /// the engine's current position, and XORs them in; the position advances
    /// past the bytes consumed.
    pub fn apply(&mut self, data: &[u8]) -> (r: Vec<u8>)
        requires
            old(self).pos + data@.len() <= STREAM_LIMIT,
        ensures
            final(self).key == old(self).key,
            final(self).nonce == old(self).nonce,
            final(self).pos == old(self).pos + data@.len(),
            r@ == xor_with_keystream(data@, old(self).key@, old(self).nonce@, old(self).pos as int),
    {
        let r = keystream_xor_at(&self.key, &self.nonce, self.pos, data);
        self.pos = self.pos + data.len() as u64;
        r
    }

    /// Returns the keystream to position zero, as each stripe of the striped
    /// transform demands.
    pub fn reset(&mut self)
        ensures
            final(self).key == old(self).key,
            final(self).nonce == old(self).nonce,
            final(self).pos == 0,
    {
        self.pos = 0;
    }
}

/// Whole-buffer transform under the fixed key and nonce, the keystream taken
/// from position zero.
pub fn chacha20_encrypt(bytes: &[u8]) -> (r: Vec<u8>)
    requires
        bytes@.len() <= STREAM_LIMIT,
    ensures
        r@ == xor_with_keystream(bytes@, default_key_spec(), default_nonce_spec(), 0),
        r@.len() == bytes@.len(),
{
    let key = default_key();
    let nonce = default_nonce();
    keystream_xor_at(&key, &nonce, 0, bytes)
}

proof fn lemma_u8_xor_cancels(a: u8, b: u8)
    by (bit_vector)
    ensures
        (a ^ b) ^ b == a,
{
}

/// Law: transforming a buffer twice from the same stream position returns the
/// original buffer, whatever the key, nonce and position — XOR with the same
/// keystream segment is an involution.
pub proof fn lemma_xor_involution(data: Seq<u8>, key: Seq<u8>, nonce: Seq<u8>, pos: int)
    ensures
        xor_with_keystream(xor_with_keystream(data, key, nonce, pos), key, nonce, pos) == data,
{
    let once = xor_with_keystream(data, key, nonce, pos);
    let twice = xor_with_keystream(once, key, nonce, pos);
    assert forall|i: int| 0 <= i < data.len() implies twice[i] == data[i] by {
        lemma_u8_xor_cancels(data[i], keystream_byte(key, nonce, pos + i));
    }
    assert(twice =~= data);
}

/// Law: the transform is deterministic — any two outcomes the contract of
/// `chacha20_encrypt` admits for the same input are equal.
pub proof fn lemma_transform_deterministic(bytes: Seq<u8>, r1: Seq<u8>, r2: Seq<u8>)
    requires
        r1 == xor_with_keystream(bytes, default_key_spec(), default_nonce_spec(), 0),
        r2 == xor_with_keystream(bytes, default_key_spec(), default_nonce_spec(), 0),
    ensures
        r1 == r2,
{
}

} // verus!
