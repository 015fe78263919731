//! Token fingerprinting for a bitmap-based inverted index.
//!
//! A token (a word or a stemmed word form) is compressed into a fixed
//! 9-byte key: a saturated length byte plus an 8-byte hash.  Short tokens
//! are stored verbatim in the hash bytes; longer ones are fingerprinted by
//! two independent 64-bit mixing functions.  A separate one-byte tag
//! distinguishes an exact word occurrence from a stemmed occurrence of the
//! same token in the same field.

pub mod key;
pub mod tag;

pub use key::BitmapHash;
pub use key::MAX_TOKEN_LENGTH;
pub use tag::TokenType;
