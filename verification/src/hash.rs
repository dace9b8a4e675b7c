//! A small hashing utility over byte strings.

use vstd::prelude::*;
use vstd::std_specs::hash::DefaultHasherAdditionalSpecFns;
use std::collections::hash_map::DefaultHasher;
use std::hash::Hasher;

verus! {

/// The standard hasher's digest of one byte string.
pub fn hash_of(bytes: &[u8]) -> (r: u64)
    ensures
        r == DefaultHasher::spec_finish(seq![bytes@]),
{
    let mut hasher = DefaultHasher::new();
    hasher.write(bytes);
    assert(hasher@ == seq![bytes@]);
    hasher.finish()
}

} // verus!
