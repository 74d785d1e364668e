//! A registry of user identities and their login activity, with aggregate
//! statistics over the registered population.
//!
//! `model` holds the records, `engine` decides what one operation writes given
//! what is stored, and `registry` keeps both records in memory and runs the
//! four operations over them. `lemmas` states what holds of sequences of
//! those operations.

use vstd::prelude::*;

pub mod engine;
pub mod lemmas;
pub mod model;
pub mod registry;

verus! {

} // verus!
