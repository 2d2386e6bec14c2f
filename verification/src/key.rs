//! The keys that a keyed lock accepts.
use std::hash::Hash;
use vstd::prelude::*;

verus! {

/// A key of a keyed lock.
///
/// Implement it only for a type whose `Hash`, `Eq`, `Clone` and `Drop` never
/// panic: dropping a guard gives its key back to the registry, which hashes,
/// compares, clones and drops keys, and a drop must not unwind. This crate
/// implements it for the integer types, `bool`, `char`, `String` and `&str`.
pub trait LockKey: Eq + Hash + Clone {}

impl LockKey for u8 {}

impl LockKey for u16 {}

impl LockKey for u32 {}

impl LockKey for u64 {}

impl LockKey for u128 {}

impl LockKey for usize {}

impl LockKey for i8 {}

impl LockKey for i16 {}

impl LockKey for i32 {}

impl LockKey for i64 {}

impl LockKey for i128 {}

impl LockKey for isize {}

impl LockKey for bool {}

impl LockKey for char {}

impl LockKey for String {}

impl<'a> LockKey for &'a str {}

} // verus!
