//! RIPEMD-160: a 20-byte cryptographic digest of an arbitrary byte stream,
//! computed incrementally.
//!
//! The mathematical definition of the hash lives in [`model`]; the executable
//! compression function is proved against it in [`compress`], and the
//! streaming hasher with its buffering and padding discipline in [`hasher`].
mod compress;
mod hasher;
mod model;

pub use compress::compress;
pub use hasher::fed_all;
pub use hasher::lemma_chunking_invariance;
pub use hasher::Ripemd160;
pub use hasher::BLOCK_LEN;
pub use hasher::DIGEST_LEN;
pub use model::digest_spec;
