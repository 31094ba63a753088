//! Hardware-backed P-256 key management: the canonical key and signature
//! codec, the translation of native failures, and the decision logic of the
//! native key operations, independent of the platform that performs them.

pub mod error;
pub mod der;
pub mod codec;
pub mod native;
pub mod generate;
pub mod lookup;
pub mod key;
pub mod environment;
