//! The verifiable-shuffle backend (`ziffle`) and the entropy source, as this
//! library relies on them.
//!
//! Every value of the backend is opaque here. What the protocol needs to know
//! of a call is stated in the wrapper's contract, over the names declared
//! below for the results of the backend's deterministic functions.
use vstd::prelude::*;

use ark_std::rand::rngs::StdRng;
use ark_std::rand::SeedableRng;
use ziffle::{
    AggregatePublicKey, AggregateRevealToken, MaskedCard, MaskedDeck, OwnershipProof, PublicKey,
    RevealToken, RevealTokenProof, SecretKey, Shuffle, ShuffleProof, Verified,
};

verus! {

/// Number of cards in a deck.
pub const DECK_SIZE: usize = 52;

#[verifier::external_type_specification]
#[verifier::external_body]
pub struct ExShuffle<const N: usize>(Shuffle<N>);

#[verifier::external_type_specification]
#[verifier::external_body]
pub struct ExMaskedDeck<const N: usize>(MaskedDeck<N>);

#[verifier::external_type_specification]
#[verifier::external_body]
pub struct ExShuffleProof<const N: usize>(ShuffleProof<N>);

#[verifier::external_type_specification]
#[verifier::external_body]
#[verifier::reject_recursive_types(T)]
pub struct ExVerified<T>(Verified<T>);

#[verifier::external_type_specification]
#[verifier::external_body]
pub struct ExPublicKey(PublicKey);

#[verifier::external_type_specification]
#[verifier::external_body]
pub struct ExSecretKey(SecretKey);

#[verifier::external_type_specification]
#[verifier::external_body]
pub struct ExOwnershipProof(OwnershipProof);

#[verifier::external_type_specification]
#[verifier::external_body]
pub struct ExAggregatePublicKey(AggregatePublicKey);

#[verifier::external_type_specification]
#[verifier::external_body]
pub struct ExRevealToken(RevealToken);

#[verifier::external_type_specification]
#[verifier::external_body]
pub struct ExRevealTokenProof(RevealTokenProof);

#[verifier::external_type_specification]
#[verifier::external_body]
pub struct ExAggregateRevealToken(AggregateRevealToken);

#[verifier::external_type_specification]
#[verifier::external_body]
pub struct ExMaskedCard(MaskedCard);

#[verifier::external_type_specification]
#[verifier::external_body]
pub struct ExStdRng(StdRng);

/// The public key that `Shuffle::keygen` derives from a secret key
/// (`pk = sk·G`).
pub uninterp spec fn public_key_of(sk: SecretKey) -> PublicKey;

/// A public key marked as verified: what `OwnershipProof::verify` returns
/// when it accepts a proof for that key (`Some(Verified(pk))`).
pub uninterp spec fn verified_key(pk: PublicKey) -> Verified<PublicKey>;

/// A deck marked as verified: what `Shuffle::verify_initial_shuffle` and
/// `Shuffle::verify_shuffle` return when they accept a proof for that deck
/// (`Some(Verified(MaskedDeck(next)))`).
pub uninterp spec fn verified_deck(next: MaskedDeck<52>) -> Verified<MaskedDeck<52>>;

/// What `OwnershipProof::verify` returns for a proof, a key and a context.
pub uninterp spec fn ownership_check(proof: OwnershipProof, pk: PublicKey, ctx: Seq<u8>) -> Option<Verified<PublicKey>>;

/// What `AggregatePublicKey::new` returns for a sequence of verified keys.
pub uninterp spec fn aggregate_keys(pks: Seq<Verified<PublicKey>>) -> AggregatePublicKey;

/// What `Shuffle::verify_initial_shuffle` returns for a backend, an aggregate
/// key, a deck, a proof and a context.
pub uninterp spec fn initial_shuffle_check(backend: Shuffle<52>, apk: AggregatePublicKey, next: MaskedDeck<52>, proof: ShuffleProof<52>, ctx: Seq<u8>) -> Option<Verified<MaskedDeck<52>>>;

/// What `Shuffle::verify_shuffle` returns for a backend, an aggregate key, a
/// previous verified deck, a new deck, a proof and a context.
pub uninterp spec fn shuffle_check(backend: Shuffle<52>, apk: AggregatePublicKey, prev: Verified<MaskedDeck<52>>, next: MaskedDeck<52>, proof: ShuffleProof<52>, ctx: Seq<u8>) -> Option<Verified<MaskedDeck<52>>>;

/// The card that `Verified::<MaskedDeck<52>>::get` returns at a position
/// below the deck size.
pub uninterp spec fn deck_card(deck: Verified<MaskedDeck<52>>, idx: usize) -> MaskedCard;

/// The reveal share that `MaskedCard::reveal_token` computes for a card and a
/// secret key (its proof is drawn at random; the share is not).
pub uninterp spec fn share_of(card: MaskedCard, sk: SecretKey) -> RevealToken;

/// A reveal share marked as verified: what `RevealTokenProof::verify`
/// returns when it accepts that share (`Some(Verified(token))`).
pub uninterp spec fn accepted_share(token: RevealToken) -> Verified<RevealToken>;

/// What `RevealTokenProof::verify` returns for a proof, a verified key, a
/// share, a card and a context.
pub uninterp spec fn share_check(proof: RevealTokenProof, vpk: Verified<PublicKey>, token: RevealToken, card: MaskedCard, ctx: Seq<u8>) -> Option<Verified<RevealToken>>;

/// What `AggregateRevealToken::new` returns for a sequence of verified shares.
pub uninterp spec fn aggregate_shares(tokens: Seq<Verified<RevealToken>>) -> AggregateRevealToken;

/// What `Shuffle::reveal_card` returns for a backend, an aggregate token and a
/// card.
pub uninterp spec fn reveal_index(backend: Shuffle<52>, art: AggregateRevealToken, card: MaskedCard) -> Option<usize>;

/// Relies on getrandom::getrandom: fills a seed from the operating system's
/// entropy source, or reports that it could not.
#[verifier::external_body]
pub(crate) fn os_seed() -> (r: Option<[u8; 32]>) {
    let mut seed = [0u8; 32];
    match getrandom::getrandom(&mut seed) {
        Ok(()) => Some(seed),
        Err(_) => None,
    }
}

/// Relies on `SeedableRng::from_seed` for ark_std's `StdRng`: a generator
/// that starts from the given seed.
#[verifier::external_body]
pub(crate) fn seeded_rng(seed: [u8; 32]) -> (r: StdRng) {
    StdRng::from_seed(seed)
}

/// Relies on `Shuffle::<52>::default`: the backend for a 52-card deck.
#[verifier::external_body]
pub(crate) fn new_backend() -> (r: Shuffle<52>) {
    Shuffle::<52>::default()
}

/// Relies on `Shuffle::keygen`: a fresh key pair whose ownership proof, made
/// under `ctx`, passes `OwnershipProof::verify` under the same `ctx` (the
/// Schnorr response `z = w + e·sk` meets the check `z·G == a + e·pk`), and
/// whose public key is derived from its secret key.
#[verifier::external_body]
pub(crate) fn keygen(backend: &Shuffle<52>, rng: &mut StdRng, ctx: &[u8]) -> (r: (SecretKey, PublicKey, OwnershipProof))
    ensures
        ownership_check(r.2, r.1, ctx@) is Some,
        r.1 == public_key_of(r.0),
{
    backend.keygen(rng, ctx)
}

/// Relies on `OwnershipProof::verify`: whether the proof shows knowledge of
/// the secret key of `pk` under `ctx`; on success it returns `pk` marked as
/// verified.
#[verifier::external_body]
pub(crate) fn verify_ownership(proof: &OwnershipProof, pk: PublicKey, ctx: &[u8]) -> (r: Option<Verified<PublicKey>>)
    ensures
        r == ownership_check(*proof, pk, ctx@),
        r is Some ==> r == Some(verified_key(pk)),
{
    proof.verify(pk, ctx)
}

/// Relies on `AggregatePublicKey::new`: the combination of the verified keys.
#[verifier::external_body]
pub(crate) fn aggregate_public_key(pks: &[Verified<PublicKey>]) -> (r: AggregatePublicKey)
    ensures
        r == aggregate_keys(pks@),
{
    AggregatePublicKey::new(pks)
}

/// Relies on `Shuffle::shuffle_initial_deck`: a shuffled and masked deck
/// with its proof. The backend checks the proof with the same routine as
/// `verify_initial_shuffle` before it returns (it panics otherwise), so the
/// pair passes that check.
#[verifier::external_body]
pub(crate) fn shuffle_initial(backend: &Shuffle<52>, rng: &mut StdRng, apk: AggregatePublicKey, ctx: &[u8]) -> (r: (MaskedDeck<52>, ShuffleProof<52>))
    ensures
        initial_shuffle_check(*backend, apk, r.0, r.1, ctx@) is Some,
{
    backend.shuffle_initial_deck(rng, apk, ctx)
}

/// Relies on `Shuffle::verify_initial_shuffle`: on success it returns `next`
/// marked as verified.
#[verifier::external_body]
pub(crate) fn check_initial_shuffle(backend: &Shuffle<52>, apk: AggregatePublicKey, next: MaskedDeck<52>, proof: ShuffleProof<52>, ctx: &[u8]) -> (r: Option<Verified<MaskedDeck<52>>>)
    ensures
        r == initial_shuffle_check(*backend, apk, next, proof, ctx@),
        r is Some ==> r == Some(verified_deck(next)),
{
    backend.verify_initial_shuffle(apk, next, proof, ctx)
}

/// Relies on `Shuffle::shuffle_deck`: a reshuffled and remasked deck with its
/// proof. The backend checks the proof with the same routine as
/// `verify_shuffle` before it returns (it panics otherwise), so the pair
/// passes that check against `prev`.
#[verifier::external_body]
pub(crate) fn shuffle_next(backend: &Shuffle<52>, rng: &mut StdRng, apk: AggregatePublicKey, prev: &Verified<MaskedDeck<52>>, ctx: &[u8]) -> (r: (MaskedDeck<52>, ShuffleProof<52>))
    ensures
        shuffle_check(*backend, apk, *prev, r.0, r.1, ctx@) is Some,
{
    backend.shuffle_deck(rng, apk, prev, ctx)
}

/// Relies on `Shuffle::verify_shuffle`: on success it returns `next` marked
/// as verified.
#[verifier::external_body]
pub(crate) fn check_shuffle(backend: &Shuffle<52>, apk: AggregatePublicKey, prev: &Verified<MaskedDeck<52>>, next: MaskedDeck<52>, proof: ShuffleProof<52>, ctx: &[u8]) -> (r: Option<Verified<MaskedDeck<52>>>)
    ensures
        r == shuffle_check(*backend, apk, *prev, next, proof, ctx@),
        r is Some ==> r == Some(verified_deck(next)),
{
    backend.verify_shuffle(apk, prev, next, proof, ctx)
}

/// Relies on the `PartialEq` that ziffle derives for `Verified` and
/// `MaskedDeck`, which compares every coordinate of every card.
#[verifier::external_body]
pub(crate) fn same_deck(a: &Verified<MaskedDeck<52>>, b: &Verified<MaskedDeck<52>>) -> (r: bool)
    ensures
        r == (*a == *b),
{
    a == b
}

/// Relies on `Verified::<MaskedDeck<52>>::get`: the card at `idx`, present
/// exactly when `idx` is below the deck size.
#[verifier::external_body]
pub(crate) fn deck_get(deck: &Verified<MaskedDeck<52>>, idx: usize) -> (r: Option<MaskedCard>)
    ensures
        idx < DECK_SIZE ==> r == Some(deck_card(*deck, idx)),
        idx >= DECK_SIZE ==> r is None,
{
    deck.get(idx)
}

/// Relies on `MaskedCard::reveal_token`: the share of `sk` for the card
/// (`c1·sk`), with a Chaum-Pedersen proof drawn at random. When `pk` is the
/// key of `sk`, the proof passes `RevealTokenProof::verify` under `pk`
/// marked as verified and the same `ctx` (with `z = w - e·sk`, both checks
/// `t_g == z·G + e·pk` and `t_c1 == z·c1 + e·share` hold).
#[verifier::external_body]
pub(crate) fn reveal_share(card: &MaskedCard, rng: &mut StdRng, sk: &SecretKey, pk: PublicKey, ctx: &[u8]) -> (r: (RevealToken, RevealTokenProof))
    ensures
        r.0 == share_of(*card, *sk),
        pk == public_key_of(*sk) ==> share_check(r.1, verified_key(pk), r.0, *card, ctx@) is Some,
{
    card.reveal_token(rng, sk, pk, ctx)
}

/// Relies on `RevealTokenProof::verify`: on success it returns the share it
/// was given, marked as verified.
#[verifier::external_body]
pub(crate) fn verify_share(proof: &RevealTokenProof, vpk: Verified<PublicKey>, token: RevealToken, card: MaskedCard, ctx: &[u8]) -> (r: Option<Verified<RevealToken>>)
    ensures
        r == share_check(*proof, vpk, token, card, ctx@),
        r is Some ==> r == Some(accepted_share(token)),
{
    proof.verify(vpk, token, card, ctx)
}

/// Relies on `AggregateRevealToken::new`: the combination of the verified
/// shares.
#[verifier::external_body]
pub(crate) fn aggregate_reveal(tokens: &[Verified<RevealToken>]) -> (r: AggregateRevealToken)
    ensures
        r == aggregate_shares(tokens@),
{
    AggregateRevealToken::new(tokens)
}

/// Relies on `Shuffle::reveal_card`: the position in the backend's open deck
/// of the card that the token unmasks, if any. A position of a 52-entry
/// array is below 52.
#[verifier::external_body]
pub(crate) fn reveal_card_index(backend: &Shuffle<52>, art: AggregateRevealToken, card: MaskedCard) -> (r: Option<usize>)
    ensures
        r == reveal_index(*backend, art, card),
        r matches Some(i) ==> i < DECK_SIZE,
{
    backend.reveal_card(art, card)
}

} // verus!
