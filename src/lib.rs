#![allow(non_camel_case_types)]
#![allow(non_snake_case)]
#![allow(non_upper_case_globals)]

use vstd::prelude::*;

pub mod bitfield;
pub mod bytes;
pub mod crypt;
pub mod handle;
pub mod sb;

verus! {

/// A lock head of a resizable hash table. The library only passes it around
/// behind a reference and never looks inside, so it carries nothing.
pub enum rhash_lock_head {
    Opaque,
}

/// A sleepable read-copy-update domain. The library only passes it around behind
/// a reference and never looks inside, so it carries nothing.
pub enum srcu_struct {
    Opaque,
}

} // verus!
