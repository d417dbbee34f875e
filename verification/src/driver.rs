//! The decision stage of the measurement driver: validate the stripe
//! parameters against the buffer, then produce the two transformed copies
//! whose entropies the measurement compares. Reading the buffer, timing the
//! phases and estimating entropies happen around this stage, not in it.

use crate::keystream::chacha20_encrypt;
use crate::keystream::default_key_spec;
use crate::keystream::default_nonce_spec;
use crate::keystream::xor_with_keystream;
use crate::keystream::STREAM_LIMIT;
use crate::stripes::stripe_transform;
use crate::stripes::striped_view;
use crate::stripes::KeystreamMode;
use crate::stripes::MeasureError;
use vstd::prelude::*;

verus! {

/// The two transformed copies of one measured buffer. The buffer itself is
/// left untouched, so the baseline, whole-buffer and striped phases never
/// observe each other's bytes.
pub struct TransformOutcome {
    /// The whole buffer masked with the keystream from position zero.
    pub full: Vec<u8>,
    /// The buffer with only its stripes masked.
    pub striped: Vec<u8>,
}

/// Validates the stripe parameters and runs both transforms on independent
/// copies: a zero stripe length is a configuration error, a buffer shorter
/// than the stripe length a size error, and on every other input both
/// transformed copies are produced.
pub fn run_transforms(data: &[u8], stripe: usize, skip: usize, mode: KeystreamMode) -> (r: Result<
    TransformOutcome,
    MeasureError,
>)
    requires
        stripe + skip <= usize::MAX,
        data@.len() <= STREAM_LIMIT,
    ensures
        match r {
            Ok(out) => stripe > 0 && stripe <= data@.len() && out.full@ == xor_with_keystream(
                data@,
                default_key_spec(),
                default_nonce_spec(),
                0,
            ) && out.striped@ == striped_view(
                data@,
                default_key_spec(),
                default_nonce_spec(),
                stripe as int,
                skip as int,
                mode,
            ),
            Err(e) => (e == MeasureError::ConfigError && stripe == 0) || (e
                == MeasureError::SizeError && 0 < stripe && data@.len() < stripe),
        },
{
    if stripe == 0 {
        return Err(MeasureError::ConfigError);
    }
    if data.len() < stripe {
        return Err(MeasureError::SizeError);
    }
    let full = chacha20_encrypt(data);
    let striped = match stripe_transform(data, stripe, skip, mode) {
        Ok(v) => v,
        Err(_) => {
            proof {
                assert(false);
            }
            Vec::new()
        },
    };
    Ok(TransformOutcome { full, striped })
}

} // verus!
