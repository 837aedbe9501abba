//! Showcase catalogue data and a two-player mental poker protocol.
//!
//! The `data` module holds the catalogue of demos, categories, code examples,
//! keyboard shortcuts and responsive breakpoints, with their validation rules.
//! The `poker` module sequences and checks the calls of a verifiable-shuffle
//! backend: key ownership, a chain of verified shuffles, a deal by deck
//! position, and an all-players reveal of single cards.
use vstd::prelude::*;

pub mod data;
pub mod poker;

verus! {

} // verus!
