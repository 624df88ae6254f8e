//! The records that the service takes in.

use vstd::prelude::*;

verus! {

/// What a client sends to have a person created.
#[derive(Debug)]
pub struct CreatePerson {
    pub name: String,
    pub age: u8,
    pub is_cool: bool,
}

} // verus!
