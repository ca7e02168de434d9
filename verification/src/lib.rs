//! Component version and rollback engine.
//!
//! A small, fully specified core for safe hot-reload of application
//! components: loading is gated behind a successful build, in-memory state is
//! preserved and restored across reloads, and an ordered, addressable history
//! of versions enables point-in-time rollback.

use vstd::prelude::*;

pub mod compiler;
pub mod component;
pub mod errors;
pub mod gate;
pub mod history;
pub mod permissions;
pub mod registry;
pub mod routing;
pub mod state;
pub mod text;
pub mod view;

verus! {

/// The 64-bit FNV-1a offset basis.
pub const FNV_OFFSET_BASIS: u64 = 0xcbf2_9ce4_8422_2325;

/// The 64-bit FNV-1a prime.
pub const FNV_PRIME: u64 = 0x100_0000_01b3;

/// FNV-1a over the first `n` bytes of `bytes`: each byte is folded into the
/// accumulator with an exclusive-or followed by a wrapping multiply by the
/// FNV prime.
pub open spec fn fnv1a_prefix(bytes: Seq<u8>, n: int) -> u64
    decreases n,
{
    if n <= 0 {
        FNV_OFFSET_BASIS
    } else {
        (((fnv1a_prefix(bytes, n - 1) ^ (bytes[n - 1] as u64)) * FNV_PRIME)
            % 0x1_0000_0000_0000_0000) as u64
    }
}

/// Identity hash of an artifact: 64-bit FNV-1a over the full byte content,
/// so every byte of the artifact contributes.
pub open spec fn spec_simple_hash(bytes: Seq<u8>) -> u64 {
    fnv1a_prefix(bytes, bytes.len() as int)
}

/// Derive a stable component identity from artifact bytes.
///
/// The same bytes always give the same identity, in every process and on
/// every machine; the whole content is hashed.
pub fn simple_hash(bytes: &[u8]) -> (r: u64)
    ensures
        r == spec_simple_hash(bytes@),
{
    let n = bytes.len();
    let mut hash: u64 = FNV_OFFSET_BASIS;
    let mut i: usize = 0;
    while i < n
        invariant
            i <= n,
            n == bytes@.len(),
            hash == fnv1a_prefix(bytes@, i as int),
        decreases n - i,
    {
        hash = (hash ^ (bytes[i] as u64)).wrapping_mul(FNV_PRIME);
        i = i + 1;
    }
    hash
}

} // verus!
