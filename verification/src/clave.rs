//! The hash under which passwords are stored.
use vstd::prelude::*;

use std::collections::hash_map::DefaultHasher;
use std::hash::{BuildHasher, BuildHasherDefault};

verus! {

/// The 64-bit hash that std's `DefaultHasher`, created with `DefaultHasher::new()`,
/// gives to a text. It depends on the text alone: that hasher uses fixed keys, so every
/// process built with the same standard library gives the same hash.
pub uninterp spec fn hash_de_texto(s: Seq<char>) -> u64;

/// Calls std's `BuildHasher::hash_one` on a `BuildHasherDefault<DefaultHasher>`, which
/// hashes `s` with a fresh `DefaultHasher::default()` (the same as `DefaultHasher::new()`)
/// and returns `finish()`. The contract names the result; it states nothing of its value.
#[verifier::external_body]
fn hash_texto(s: &str) -> (res: u64)
    ensures
        res == hash_de_texto(s@),
{
    BuildHasherDefault::<DefaultHasher>::default().hash_one(s)
}

/// The stored hash of a password: the text's hash read as a signed integer.
pub fn get_hash(pass: &str) -> (res: i64)
    ensures
        res == hash_de_texto(pass@) as i64,
{
    hash_texto(pass) as i64
}

} // verus!
