//! Fixed-length containers of cryptographically strong random bytes.
//!
//! The crate pairs a capability trait for sources of random bytes
//! ([`EntropySource`]) with a fixed-length container ([`Entropy`]) that can
//! only be built by successfully drawing bytes through that capability. An
//! operating-system-backed source ([`OsEntropy`]) is provided.

pub mod container;
pub mod os_provider;
pub mod source;

pub use container::Entropy;
pub use os_provider::OsEntropy;
pub use os_provider::OsEntropySourceError;
pub use source::EntropySource;
