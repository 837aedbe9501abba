//! Values that players hold and exchange during a hand.
use vstd::prelude::*;

use ziffle::{
    MaskedDeck, OwnershipProof, PublicKey, RevealToken, RevealTokenProof, SecretKey,
    ShuffleProof, Verified,
};

verus! {

/// A card's identity: its position, 0 to 51, in the backend's open deck.
pub type CardId = u8;

/// One player's keys. The secret key stays with the player that owns it.
pub struct PlayerKeys {
    pub sk: SecretKey,
    pub pk: PublicKey,
    pub ownership_proof: OwnershipProof,
    pub verified_pk: Verified<PublicKey>,
}

/// A deck produced by a shuffle, with the proof that it permutes and remasks
/// the previous one.
pub struct ShuffledDeck {
    pub deck: MaskedDeck<52>,
    pub proof: ShuffleProof<52>,
}

/// One player's partial decryption of one card, with its proof.
pub struct RevealShare {
    pub token: RevealToken,
    pub proof: RevealTokenProof,
}

/// The messages that players send one another.
pub enum Message {
    PublishKey { from: u8, pk: PublicKey, proof: OwnershipProof },
    Shuffle { from: u8, deck: MaskedDeck<52>, proof: ShuffleProof<52> },
    RevealToken { from: u8, index: u8, token: RevealToken, proof: RevealTokenProof },
}

/// Why a protocol step was refused.
#[derive(Debug, Clone, Copy, PartialEq, Eq)]
pub enum PokerError {
    /// An ownership, shuffle or reveal-share proof did not verify.
    ProofInvalid,
    /// A shuffle claims to extend a deck that is not the canonical one.
    MismatchedPrevious,
    /// Not every player's reveal share was there to aggregate.
    MissingParticipant,
    /// An aggregate token did not unmask a card of the deck.
    CardNotFound,
    /// Wire bytes did not decode.
    SerializationError,
    /// The operating system gave no entropy for a fresh generator.
    EntropyUnavailable,
    /// A player id outside the table.
    UnknownPlayer,
    /// The cards asked for have not been dealt.
    NotDealt,
}

} // verus!
