//! Measures how much statistical randomness a byte buffer gains when only
//! periodic stripes of it are transformed by a deterministic stream cipher,
//! compared to transforming the whole buffer.

mod driver;
mod histogram;
mod keystream;
mod stripes;

pub use driver::run_transforms;
pub use driver::TransformOutcome;
pub use stripes::in_stripe;
pub use stripes::lemma_continuous_no_skip_is_full;
pub use stripes::lemma_single_stripe_is_full_transform;
pub use stripes::stripe_transform;
pub use stripes::striped_encryption_coordinator;
pub use stripes::stripe_ks_pos;
pub use stripes::striped_view;
pub use stripes::KeystreamMode;
pub use stripes::MeasureError;

pub use histogram::byte_histogram;
pub use histogram::count_byte;
pub use histogram::lemma_repeated_byte_counts;

pub use keystream::chacha20_encrypt;
pub use keystream::default_key;
pub use keystream::default_key_spec;
pub use keystream::default_nonce;
pub use keystream::default_nonce_spec;
pub use keystream::keystream_byte;
pub use keystream::lemma_transform_deterministic;
pub use keystream::lemma_xor_involution;
pub use keystream::new_cipher;
pub use keystream::xor_with_keystream;
pub use keystream::CipherState;
pub use keystream::STREAM_LIMIT;
