//! A two-player mental poker hand over a verifiable-shuffle backend.
use vstd::prelude::*;

pub mod backend;
pub mod protocol;
pub mod types;

pub use protocol::{GameState, Player};
pub use types::{CardId, Message, PlayerKeys, PokerError, RevealShare, ShuffledDeck};

verus! {

} // verus!
