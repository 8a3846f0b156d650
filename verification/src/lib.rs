//! Scoped capability injection for sandboxed runtime code.
//!
//! A [`ScopedContextSlot`] holds a host capability (an implementation of
//! [`Externalities`]) for the dynamic extent of a [`with_externalities`]
//! call.  Free storage accessors resolve the active capability through the
//! slot and degrade to documented defaults when no capability is installed.

mod crypto;
mod decode;
mod externalities;
mod scope;

pub use crypto::blake2_256;
pub use crypto::blake2_256_of;
pub use crypto::ed25519_valid;
pub use crypto::ed25519_verify;
pub use crypto::twox_128;
pub use crypto::twox_128_of;
pub use crypto::twox_256;
pub use crypto::twox_256_of;
pub use crypto::xxhash64_of;

pub use decode::FixedDecode;
pub use decode::storage_into;
pub use decode::u32_le_bytes;
pub use decode::u64_le_bytes;
pub use decode::u64_to_le_bytes;

pub use externalities::Externalities;
pub use externalities::lemma_set_then_get;
pub use externalities::MemoryExternalities;
pub use externalities::NoError;
pub use externalities::stored_or_empty;
pub use scope::ScopedContextSlot;
pub use scope::chain_id;
pub use scope::read_into;
pub use scope::read_storage;
pub use scope::set_storage;
pub use scope::storage;
pub use scope::with_externalities;
