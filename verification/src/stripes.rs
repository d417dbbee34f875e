//! The striped transform coordinator: partitions a buffer into alternating
//! transform and skip windows and runs the stream cipher engine on the
//! transform windows only.
//!
//! A final window shorter than the stripe length is transformed as it stands
//! (the partial remainder is masked rather than rejected); only a stripe
//! length of zero is refused, since the cursor would never advance.

use crate::keystream::default_key;
use crate::keystream::default_key_spec;
use crate::keystream::default_nonce;
use crate::keystream::default_nonce_spec;
use crate::keystream::keystream_byte;
use crate::keystream::xor_with_keystream;
use crate::keystream::STREAM_LIMIT;
use vstd::arithmetic::div_mod::lemma_fundamental_div_mod;
use vstd::arithmetic::div_mod::lemma_fundamental_div_mod_converse;
use vstd::prelude::*;

verus! {

/// Conditions under which a measurement cannot proceed.
#[derive(Clone, Copy, Debug, PartialEq, Eq, Structural)]
pub enum MeasureError {
    /// The buffer is shorter than the requested stripe length, so the
    /// striped and whole-buffer transforms cannot be compared.
    SizeError,
    /// The stripe length is zero: the cursor would never advance.
    ConfigError,
}

/// Whether every stripe restarts the keystream at position zero, or the
/// keystream advances continuously from one stripe to the next.
#[derive(Clone, Copy, Debug, PartialEq, Eq, Structural)]
pub enum KeystreamMode {
    /// Every stripe is masked with the same initial keystream segment. This
    /// is the default the tool measures with.
    ResetPerStripe,
    /// Each stripe continues the keystream where the previous stripe left it.
    Continuous,
}

/// Whether buffer index `i` falls inside a transformed stripe, for windows of
/// `stripe` transformed bytes followed by `skip` untouched bytes.
pub open spec fn in_stripe(i: int, stripe: int, skip: int) -> bool {
    i % (stripe + skip) < stripe
}

/// The keystream position used for buffer index `i` of a transformed stripe:
/// its offset within the stripe when every stripe resets the keystream, and
/// the number of transformed bytes before it when the keystream is
/// continuous.
pub open spec fn stripe_ks_pos(i: int, stripe: int, skip: int, mode: KeystreamMode) -> int {
    if mode is Continuous {
        (i / (stripe + skip)) * stripe + i % (stripe + skip)
    } else {
        i % (stripe + skip)
    }
}

/// What the striped transform leaves at each index: bytes of transform
/// windows XORed with their keystream byte, bytes of skip windows unchanged.
pub open spec fn striped_view(
    data: Seq<u8>,
    key: Seq<u8>,
    nonce: Seq<u8>,
    stripe: int,
    skip: int,
    mode: KeystreamMode,
) -> Seq<u8> {
    Seq::new(
        data.len(),
        |i: int|
            if in_stripe(i, stripe, skip) {
                data[i] ^ keystream_byte(key, nonce, stripe_ks_pos(i, stripe, skip, mode))
            } else {
                data[i]
            },
    )
}

/// The coordinator's loop: walk the buffer window by window, masking each
/// transform window with the engine's keystream and copying each skip window
/// unchanged.
fn striped_apply(data: &[u8], stripe: usize, skip: usize, mode: KeystreamMode) -> (r: Vec<u8>)
    requires
        stripe > 0,
        stripe + skip <= usize::MAX,
        data@.len() <= STREAM_LIMIT,
    ensures
        r@ == striped_view(
            data@,
            default_key_spec(),
            default_nonce_spec(),
            stripe as int,
            skip as int,
            mode,
        ),
{
    let ghost sv = striped_view(
        data@,
        default_key_spec(),
        default_nonce_spec(),
        stripe as int,
        skip as int,
        mode,
    );
    let key = default_key();
    let nonce = default_nonce();
    let len = data.len();
    let period = stripe + skip;
    let mut out: Vec<u8> = Vec::new();
    let mut transformed: u64 = 0;
    while out.len() < len
        invariant
            len == data@.len(),
            len <= STREAM_LIMIT,
            0 < stripe,
            stripe + skip <= usize::MAX,
            period == stripe + skip,
            key@ == default_key_spec(),
            nonce@ == default_nonce_spec(),
            sv == striped_view(
                data@,
                default_key_spec(),
                default_nonce_spec(),
                stripe as int,
                skip as int,
                mode,
            ),
            out@.len() <= len,
            (out@.len() as int) % (period as int) == 0 || out@.len() == len,
            transformed <= out@.len(),
            (out@.len() as int) % (period as int) == 0 ==> transformed == (out@.len() as int
                / period as int) * (stripe as int),
            forall|i: int| 0 <= i < out@.len() ==> out@[i] == sv[i],
        decreases len - out@.len(),
    {
        let start = out.len();
        let ghost prefix = out@;
        let ghost s0 = start as int;
        let ghost p = period as int;
        let ghost st = stripe as int;
        let ghost sk = skip as int;
        let ghost q = s0 / p;
        proof {
            lemma_fundamental_div_mod(s0, p);
            assert(p * q == q * p) by (nonlinear_arith);
        }
        let rem = len - start;
        let w = if stripe < rem {
            stripe
        } else {
            rem
        };
        let mut window: Vec<u8> = Vec::new();
        let mut j: usize = 0;
        while j < w
            invariant
                j <= w,
                start + w <= len,
                len == data@.len(),
                window@.len() == j,
                forall|t: int| 0 <= t < j ==> window@[t] == data@[start + t],
            decreases w - j,
        {
            window.push(data[start + j]);
            j = j + 1;
        }
        let pos: u64 = match mode {
            KeystreamMode::Continuous => transformed,
            KeystreamMode::ResetPerStripe => 0,
        };
        let mut enc = crate::keystream::keystream_xor_at(&key, &nonce, pos, window.as_slice());
        let ghost enc_view = enc@;
        out.append(&mut enc);
        let avail = len - out.len();
        let s = if skip < avail {
            skip
        } else {
            avail
        };
        let mut tail: Vec<u8> = Vec::new();
        let mut k: usize = 0;
        while k < s
            invariant
                k <= s,
                start + w + s <= len,
                len == data@.len(),
                tail@.len() == k,
                forall|t: int| 0 <= t < k ==> tail@[t] == data@[start + w + t],
            decreases s - k,
        {
            tail.push(data[start + w + k]);
            k = k + 1;
        }
        let ghost tail_view = tail@;
        out.append(&mut tail);
        proof {
            assert(out@ == prefix + enc_view + tail_view);
            assert(out@.len() == s0 + w + s);
            assert forall|i: int| s0 <= i < s0 + w + s implies out@[i] == sv[i] by {
                lemma_fundamental_div_mod_converse(i, p, q, i - s0);
                if i < s0 + w {
                    assert(out@[i] == enc_view[i - s0]);
                    assert(enc_view[i - s0] == data@[i] ^ keystream_byte(
                        default_key_spec(),
                        default_nonce_spec(),
                        pos + (i - s0),
                    ));
                    assert(in_stripe(i, st, sk));
                    assert(stripe_ks_pos(i, st, sk, mode) == pos + (i - s0));
                } else {
                    assert(out@[i] == tail_view[i - s0 - w]);
                    assert(out@[i] == data@[i]);
                    assert(!in_stripe(i, st, sk));
                }
            }
        }
        let new_transformed = transformed + w as u64;
        proof {
            let nl = s0 + w + s;
            if w == stripe && s == skip {
                assert((q + 1) * p == q * p + p) by (nonlinear_arith);
                lemma_fundamental_div_mod_converse(nl, p, q + 1, 0);
                assert((q + 1) * st == q * st + st) by (nonlinear_arith);
            } else {
                lemma_fundamental_div_mod_converse(nl, p, q, (w + s) as int);
                assert(nl % p != 0);
                assert(out@.len() == len);
            }
        }
        transformed = new_transformed;
    }
    proof {
        assert(out@ =~= sv);
    }
    out
}

/// Striped transform of a buffer: bytes of each transform window are masked
/// with the engine's keystream under the fixed key and nonce, bytes of each
/// skip window are left unchanged, and a final window shorter than the stripe
/// length is masked as it stands. A stripe length of zero is refused, and
/// nothing else is.
pub fn stripe_transform(
    data: &[u8],
    stripe_len: usize,
    skip_len: usize,
    mode: KeystreamMode,
) -> (r: Result<Vec<u8>, MeasureError>)
    requires
        stripe_len + skip_len <= usize::MAX,
        data@.len() <= STREAM_LIMIT,
    ensures
        match r {
            Ok(out) => stripe_len > 0 && out@ == striped_view(
                data@,
                default_key_spec(),
                default_nonce_spec(),
                stripe_len as int,
                skip_len as int,
                mode,
            ) && out@.len() == data@.len(),
            Err(e) => e == MeasureError::ConfigError && stripe_len == 0,
        },
{
    if stripe_len == 0 {
        Err(MeasureError::ConfigError)
    } else {
        Ok(striped_apply(data, stripe_len, skip_len, mode))
    }
}

/// Reset-per-stripe coordinator under the fixed key and nonce: every stripe
/// is masked with the same initial keystream segment, which is the entropy
/// signature this tool measures.
pub fn striped_encryption_coordinator(bytes: Vec<u8>, stripe: usize, skip: usize) -> (r: Vec<u8>)
    requires
        stripe > 0,
        stripe + skip <= usize::MAX,
        bytes@.len() <= STREAM_LIMIT,
    ensures
        r@ == striped_view(
            bytes@,
            default_key_spec(),
            default_nonce_spec(),
            stripe as int,
            skip as int,
            KeystreamMode::ResetPerStripe,
        ),
        r@.len() == bytes@.len(),
{
    striped_apply(bytes.as_slice(), stripe, skip, KeystreamMode::ResetPerStripe)
}

/// Law: with a single stripe covering the whole buffer and no skip, the
/// striped transform equals the whole-buffer transform, in either keystream
/// mode — the one case where the per-stripe keystream reset has no observable
/// effect.
pub proof fn lemma_single_stripe_is_full_transform(
    data: Seq<u8>,
    key: Seq<u8>,
    nonce: Seq<u8>,
    mode: KeystreamMode,
)
    requires
        data.len() > 0,
    ensures
        striped_view(data, key, nonce, data.len() as int, 0, mode) == xor_with_keystream(
            data,
            key,
            nonce,
            0,
        ),
{
    let n = data.len() as int;
    assert forall|i: int| 0 <= i < n implies striped_view(data, key, nonce, n, 0, mode)[i]
        == xor_with_keystream(data, key, nonce, 0)[i] by {
        lemma_fundamental_div_mod_converse(i, n, 0, i);
        assert((i / n) * n == 0) by (nonlinear_arith)
            requires
                i / n == 0,
        ;
    }
    assert(striped_view(data, key, nonce, n, 0, mode) =~= xor_with_keystream(data, key, nonce, 0));
}

/// Law: with no skip region and a continuous keystream, striping has no
/// effect at all — the result equals the whole-buffer transform for every
/// stripe length, since the keystream advances through the buffer without a
/// gap.
pub proof fn lemma_continuous_no_skip_is_full(
    data: Seq<u8>,
    key: Seq<u8>,
    nonce: Seq<u8>,
    stripe: int,
)
    requires
        stripe > 0,
    ensures
        striped_view(data, key, nonce, stripe, 0, KeystreamMode::Continuous) == xor_with_keystream(
            data,
            key,
            nonce,
            0,
        ),
{
    let m = KeystreamMode::Continuous;
    assert forall|i: int| 0 <= i < data.len() implies striped_view(data, key, nonce, stripe, 0, m)[i]
        == xor_with_keystream(data, key, nonce, 0)[i] by {
        lemma_fundamental_div_mod(i, stripe);
        assert((i / stripe) * stripe == stripe * (i / stripe)) by (nonlinear_arith);
        assert(stripe_ks_pos(i, stripe, 0, m) == i);
        assert(in_stripe(i, stripe, 0));
    }
    assert(striped_view(data, key, nonce, stripe, 0, m) =~= xor_with_keystream(
        data,
        key,
        nonce,
        0,
    ));
}

} // verus!
