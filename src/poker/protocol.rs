//! Key registry, deck pipeline, deal and reveal for one hand.
use vstd::prelude::*;

use ark_std::rand::rngs::StdRng;
use vstd::slice::slice_to_vec;
use ziffle::{
    AggregatePublicKey, AggregateRevealToken, MaskedCard, MaskedDeck, OwnershipProof, PublicKey,
    RevealToken, SecretKey, Shuffle, ShuffleProof, Verified,
};

use super::backend::{
    accepted_share, aggregate_keys, aggregate_public_key, aggregate_reveal, aggregate_shares,
    check_initial_shuffle, check_shuffle, deck_card, deck_get, initial_shuffle_check, keygen,
    new_backend, os_seed, ownership_check, reveal_card_index, reveal_index, reveal_share,
    public_key_of, same_deck, seeded_rng, share_of, shuffle_check, shuffle_initial, shuffle_next,
    verified_deck, verified_key, verify_ownership, verify_share, DECK_SIZE,
};
use super::types::{CardId, PlayerKeys, PokerError, ShuffledDeck};

verus! {

/// Players at the table.
pub const PLAYER_COUNT: usize = 2;

/// Hole cards dealt to each player.
pub const HOLE_CARDS: usize = 2;

/// Community cards: flop (3), turn (1), river (1).
pub const COMMUNITY_CARDS: usize = 5;

/// Deck position of the hole card that `player` receives in `round` of the
/// round-robin deal.
pub open spec fn hole_position(player: int, round: int) -> int {
    round * PLAYER_COUNT + player
}

/// Deck position of the `k`-th community card: the block right after the
/// hole cards.
pub open spec fn community_position(k: int) -> int {
    HOLE_CARDS * PLAYER_COUNT + k
}

/// A fresh generator, seeded from the operating system for this operation only.
fn rng() -> (r: Result<StdRng, PokerError>)
    ensures
        r matches Err(e) ==> e == PokerError::EntropyUnavailable,
{
    match os_seed() {
        Some(seed) => Ok(seeded_rng(seed)),
        None => Err(PokerError::EntropyUnavailable),
    }
}

/// What `verify_identity` returns for a key, a proof and a context.
pub open spec fn identity_outcome(pk: PublicKey, proof: OwnershipProof, ctx: Seq<u8>) -> Result<Verified<PublicKey>, PokerError> {
    match ownership_check(proof, pk, ctx) {
        Some(v) => Ok(v),
        None => Err(PokerError::ProofInvalid),
    }
}

/// Draws a key pair and a proof of its ownership bound to `ctx`.
pub fn generate_identity(backend: &Shuffle<52>, ctx: &[u8]) -> (r: Result<(SecretKey, PublicKey, OwnershipProof), PokerError>)
    ensures
        r matches Ok(id) ==> identity_outcome(id.1, id.2, ctx@) is Ok && id.1 == public_key_of(id.0),
        r matches Err(e) ==> e == PokerError::EntropyUnavailable,
{
    let mut g = match rng() {
        Ok(g) => g,
        Err(e) => return Err(e),
    };
    Ok(keygen(backend, &mut g, ctx))
}

/// Checks that `proof` shows ownership of `pk` under `ctx`.
pub fn verify_identity(pk: PublicKey, proof: &OwnershipProof, ctx: &[u8]) -> (r: Result<Verified<PublicKey>, PokerError>)
    ensures
        r == identity_outcome(pk, *proof, ctx@),
        r is Ok ==> r == Ok::<Verified<PublicKey>, PokerError>(verified_key(pk)),
{
    match verify_ownership(proof, pk, ctx) {
        Some(v) => Ok(v),
        None => Err(PokerError::ProofInvalid),
    }
}

/// What `verify_initial` returns for a deck and its proof.
pub open spec fn initial_outcome(backend: Shuffle<52>, apk: AggregatePublicKey, deck: MaskedDeck<52>, proof: ShuffleProof<52>, ctx: Seq<u8>) -> Result<Verified<MaskedDeck<52>>, PokerError> {
    match initial_shuffle_check(backend, apk, deck, proof, ctx) {
        Some(v) => Ok(v),
        None => Err(PokerError::ProofInvalid),
    }
}

/// Checks the proof of a first shuffle; on success the deck may become canonical.
pub fn verify_initial(backend: &Shuffle<52>, apk: AggregatePublicKey, deck: MaskedDeck<52>, proof: ShuffleProof<52>, ctx: &[u8]) -> (r: Result<Verified<MaskedDeck<52>>, PokerError>)
    ensures
        r == initial_outcome(*backend, apk, deck, proof, ctx@),
        r is Ok ==> r == Ok::<Verified<MaskedDeck<52>>, PokerError>(verified_deck(deck)),
{
    match check_initial_shuffle(backend, apk, deck, proof, ctx) {
        Some(v) => Ok(v),
        None => Err(PokerError::ProofInvalid),
    }
}

/// True when every player's share is present, one per player.
pub open spec fn all_shares_present(shares: Seq<Option<Verified<RevealToken>>>) -> bool {
    &&& shares.len() == PLAYER_COUNT
    &&& forall|i: int| 0 <= i < shares.len() ==> (#[trigger] shares[i]) is Some
}

/// What `aggregate_reveal_shares` returns for the shares collected for a card.
pub open spec fn aggregate_outcome(shares: Seq<Option<Verified<RevealToken>>>) -> Result<AggregateRevealToken, PokerError> {
    if all_shares_present(shares) {
        Ok(aggregate_shares(Seq::new(shares.len(), |i: int| shares[i]->Some_0)))
    } else {
        Err(PokerError::MissingParticipant)
    }
}

/// Combines the verified reveal shares of every player for one card. A
/// missing share (one that did not arrive in time) refuses the aggregation:
/// there is no partial reveal.
pub fn aggregate_reveal_shares(shares: &Vec<Option<Verified<RevealToken>>>) -> (r: Result<AggregateRevealToken, PokerError>)
    ensures
        r == aggregate_outcome(shares@),
{
    if shares.len() != PLAYER_COUNT {
        return Err(PokerError::MissingParticipant);
    }
    let mut tokens: Vec<Verified<RevealToken>> = Vec::new();
    let mut i: usize = 0;
    while i < shares.len()
        invariant
            i <= shares@.len(),
            tokens@.len() == i,
            forall|j: int| 0 <= j < i ==> (#[trigger] shares@[j]) is Some && tokens@[j] == shares@[j]->Some_0,
        decreases shares@.len() - i,
    {
        match shares[i] {
            Some(v) => tokens.push(v),
            None => return Err(PokerError::MissingParticipant),
        }
        i = i + 1;
    }
    assert(tokens@ =~= Seq::new(shares@.len(), |j: int| shares@[j]->Some_0));
    Ok(aggregate_reveal(tokens.as_slice()))
}

/// The identity that the backend recovers for `card` from the shares of two
/// players with secret keys `sk0` and `sk1`.
pub open spec fn card_identity(backend: Shuffle<52>, card: MaskedCard, sk0: SecretKey, sk1: SecretKey) -> Option<usize> {
    reveal_index(
        backend,
        aggregate_shares(seq![accepted_share(share_of(card, sk0)), accepted_share(share_of(card, sk1))]),
        card,
    )
}

/// A player at the table.
pub struct Player {
    pub id: u8,
    pub keys: PlayerKeys,
}

/// The state of one hand: players, aggregate key, canonical deck and deal.
pub struct GameState {
    shuffle: Shuffle<52>,
    ctx: Vec<u8>,
    players: [Player; 2],
    apk: AggregatePublicKey,
    deck: Verified<MaskedDeck<52>>,
    hole_cards: [Vec<MaskedCard>; 2],
    community: Vec<MaskedCard>,
}

/// The hand as the protocol sees it.
pub struct HandView {
    pub backend: Shuffle<52>,
    pub ctx: Seq<u8>,
    pub players: Seq<Player>,
    pub apk: AggregatePublicKey,
    pub deck: Verified<MaskedDeck<52>>,
    pub hole: Seq<Seq<MaskedCard>>,
    pub community: Seq<MaskedCard>,
}

impl View for GameState {
    type V = HandView;

    closed spec fn view(&self) -> HandView {
        HandView {
            backend: self.shuffle,
            ctx: self.ctx@,
            players: self.players@,
            apk: self.apk,
            deck: self.deck,
            hole: Seq::new(PLAYER_COUNT as nat, |p: int| self.hole_cards@[p]@),
            community: self.community@,
        }
    }
}

impl HandView {
    /// The card at a position of the canonical deck.
    pub open spec fn card_at(self, pos: int) -> MaskedCard {
        deck_card(self.deck, pos as usize)
    }

    /// Hole cards of each player, dealt round-robin from the top of the deck.
    pub open spec fn hole_deal(self) -> Seq<Seq<MaskedCard>> {
        Seq::new(
            PLAYER_COUNT as nat,
            |p: int| Seq::new(HOLE_CARDS as nat, |round: int| self.card_at(hole_position(p, round))),
        )
    }

    /// Community cards, in flop, turn, river order.
    pub open spec fn community_deal(self) -> Seq<MaskedCard> {
        Seq::new(COMMUNITY_CARDS as nat, |k: int| self.card_at(community_position(k)))
    }

    /// The hand after the hole cards are dealt.
    pub open spec fn after_deal_hole(self) -> HandView {
        HandView { hole: self.hole_deal(), ..self }
    }

    /// The hand after the community cards are dealt.
    pub open spec fn after_deal_community(self) -> HandView {
        HandView { community: self.community_deal(), ..self }
    }

    /// The hand once `deck` became canonical; nothing else changes.
    pub open spec fn after_shuffle(self, deck: Verified<MaskedDeck<52>>) -> HandView {
        HandView { deck, ..self }
    }

    /// What verifying a shuffle from `prev` to `next` yields: the new
    /// canonical deck, or why it is refused.
    pub open spec fn shuffle_outcome(self, prev: Verified<MaskedDeck<52>>, next: MaskedDeck<52>, proof: ShuffleProof<52>) -> Result<Verified<MaskedDeck<52>>, PokerError> {
        if prev != self.deck {
            Err(PokerError::MismatchedPrevious)
        } else {
            match shuffle_check(self.backend, self.apk, prev, next, proof, self.ctx) {
                Some(v) => Ok(v),
                None => Err(PokerError::ProofInvalid),
            }
        }
    }
}

/// The card at a position of a verified deck.
fn card_at(deck: &Verified<MaskedDeck<52>>, pos: usize) -> (c: MaskedCard)
    requires
        pos < DECK_SIZE,
    ensures
        c == deck_card(*deck, pos),
{
    deck_get(deck, pos).unwrap()
}

impl GameState {
    /// Each player's public key is the one of its secret key, and its
    /// verified key is that public key marked as verified.
    #[verifier::type_invariant]
    spec fn keys_bound(&self) -> bool {
        forall|p: int|
            0 <= p < PLAYER_COUNT ==> {
                &&& (#[trigger] self.players@[p]).keys.pk == public_key_of(self.players@[p].keys.sk)
                &&& self.players@[p].keys.verified_pk == verified_key(self.players@[p].keys.pk)
            }
    }

    /// The identity that `card` opens to under this table's keys.
    pub open spec fn identity_of(&self, card: MaskedCard) -> Option<usize> {
        card_identity(self@.backend, card, self@.players[0].keys.sk, self@.players[1].keys.sk)
    }

    /// `ids` are the identities that `cards` open to, in order.
    pub open spec fn opens_to(&self, cards: Seq<MaskedCard>, ids: Seq<CardId>) -> bool {
        &&& ids.len() == cards.len()
        &&& forall|k: int|
            0 <= k < cards.len() ==> self.identity_of(#[trigger] cards[k]) == Some(ids[k] as usize)
                && ids[k] < DECK_SIZE
    }

    /// `e` is an error that opening `cards` can end in: no entropy, or a card
    /// that does not unmask.
    pub open spec fn open_failure(&self, cards: Seq<MaskedCard>, e: PokerError) -> bool {
        ||| e == PokerError::EntropyUnavailable
        ||| e == PokerError::CardNotFound && exists|k: int| 0 <= k < cards.len() && (#[trigger] self.identity_of(cards[k])) is None
    }

    /// The shuffle backend of this hand.
    pub fn backend(&self) -> (r: &Shuffle<52>)
        ensures
            *r == self@.backend,
    {
        &self.shuffle
    }

    /// The session context that every proof of this hand is bound to.
    pub fn context(&self) -> (r: &[u8])
        ensures
            r@ == self@.ctx,
    {
        self.ctx.as_slice()
    }

    /// The players, by id.
    pub fn players(&self) -> (r: &[Player; 2])
        ensures
            r@ == self@.players,
    {
        &self.players
    }

    /// The aggregate public key of the players.
    pub fn apk(&self) -> (r: AggregatePublicKey)
        ensures
            r == self@.apk,
    {
        self.apk
    }

    /// The canonical deck: the last one verified.
    pub fn deck(&self) -> (r: Verified<MaskedDeck<52>>)
        ensures
            r == self@.deck,
    {
        self.deck
    }

    /// The hole cards dealt to player `pid`; empty before the deal.
    pub fn hole_cards(&self, pid: usize) -> (r: &[MaskedCard])
        requires
            pid < PLAYER_COUNT,
        ensures
            r@ == self@.hole[pid as int],
    {
        self.hole_cards[pid].as_slice()
    }

    /// The community cards; empty before the deal.
    pub fn community(&self) -> (r: &[MaskedCard])
        ensures
            r@ == self@.community,
    {
        self.community.as_slice()
    }

    /// Sets up a hand bound to `ctx`: both players draw keys whose ownership
    /// proofs are verified, the verified keys are combined, and player 0's
    /// first shuffle is verified and becomes the canonical deck.
    pub fn new(ctx: &[u8]) -> (r: Result<Self, PokerError>)
        ensures
            r matches Err(e) ==> e == PokerError::EntropyUnavailable,
            r matches Ok(g) ==> {
                &&& g@.ctx == ctx@
                &&& g@.players[0].id == 0
                &&& g@.players[1].id == 1
                &&& forall|p: int|
                    0 <= p < PLAYER_COUNT ==> ownership_check(
                        (#[trigger] g@.players[p]).keys.ownership_proof,
                        g@.players[p].keys.pk,
                        ctx@,
                    ) == Some(g@.players[p].keys.verified_pk)
                    && g@.players[p].keys.verified_pk == verified_key(g@.players[p].keys.pk)
                    && g@.players[p].keys.pk == public_key_of(g@.players[p].keys.sk)
                &&& g@.apk == aggregate_keys(
                    seq![g@.players[0].keys.verified_pk, g@.players[1].keys.verified_pk],
                )
                &&& exists|d: MaskedDeck<52>, pf: ShuffleProof<52>|
                    initial_outcome(g@.backend, g@.apk, d, pf, ctx@) == Ok::<Verified<MaskedDeck<52>>, PokerError>(g@.deck)
                        && g@.deck == verified_deck(d)
                &&& g@.hole == Seq::new(PLAYER_COUNT as nat, |p: int| Seq::<MaskedCard>::empty())
                &&& g@.community == Seq::<MaskedCard>::empty()
            },
    {
        let shuffle = new_backend();
        let ctx_vec = slice_to_vec(ctx);
        let (sk0, pk0, proof0) = match generate_identity(&shuffle, ctx_vec.as_slice()) {
            Ok(id) => id,
            Err(e) => return Err(e),
        };
        let (sk1, pk1, proof1) = match generate_identity(&shuffle, ctx_vec.as_slice()) {
            Ok(id) => id,
            Err(e) => return Err(e),
        };
        let vpk0 = match verify_identity(pk0, &proof0, ctx_vec.as_slice()) {
            Ok(v) => v,
            Err(e) => return Err(e),
        };
        let vpk1 = match verify_identity(pk1, &proof1, ctx_vec.as_slice()) {
            Ok(v) => v,
            Err(e) => return Err(e),
        };
        let mut vpks: Vec<Verified<PublicKey>> = Vec::new();
        vpks.push(vpk0);
        vpks.push(vpk1);
        assert(vpks@ =~= seq![vpk0, vpk1]);
        let apk = aggregate_public_key(vpks.as_slice());
        let p0 = Player {
            id: 0,
            keys: PlayerKeys { sk: sk0, pk: pk0, ownership_proof: proof0, verified_pk: vpk0 },
        };
        let p1 = Player {
            id: 1,
            keys: PlayerKeys { sk: sk1, pk: pk1, ownership_proof: proof1, verified_pk: vpk1 },
        };

        let mut g = match rng() {
            Ok(g) => g,
            Err(e) => return Err(e),
        };
        let (deck0, proof_s0) = shuffle_initial(&shuffle, &mut g, apk, ctx_vec.as_slice());
        let vdeck0 = match verify_initial(&shuffle, apk, deck0, proof_s0, ctx_vec.as_slice()) {
            Ok(v) => v,
            Err(e) => return Err(e),
        };
        let state = GameState {
            shuffle,
            ctx: ctx_vec,
            players: [p0, p1],
            apk,
            deck: vdeck0,
            hole_cards: [Vec::new(), Vec::new()],
            community: Vec::new(),
        };
        assert(state@.hole =~= Seq::new(PLAYER_COUNT as nat, |p: int| Seq::<MaskedCard>::empty()));
        assert(exists|d: MaskedDeck<52>, pf: ShuffleProof<52>|
            initial_outcome(state@.backend, state@.apk, d, pf, ctx@) == Ok::<Verified<MaskedDeck<52>>, PokerError>(state@.deck)
                && state@.deck == verified_deck(d));
        Ok(state)
    }

    /// Verifies a shuffle that claims to extend `prev`. Only a shuffle of the
    /// canonical deck with a valid proof is adopted: `next`, marked as
    /// verified, becomes the canonical deck, and nothing else changes. On any
    /// failure nothing changes.
    pub fn verify_shuffle(&mut self, prev: &Verified<MaskedDeck<52>>, next: MaskedDeck<52>, proof: ShuffleProof<52>) -> (r: Result<(), PokerError>)
        ensures
            match old(self)@.shuffle_outcome(*prev, next, proof) {
                Ok(v) => r is Ok && final(self)@ == old(self)@.after_shuffle(v),
                Err(e) => r == Err::<(), PokerError>(e) && final(self)@ == old(self)@,
            },
            r is Ok ==> final(self)@.deck == verified_deck(next),
    {
        proof {
            use_type_invariant(&*self);
        }
        if !same_deck(prev, &self.deck) {
            return Err(PokerError::MismatchedPrevious);
        }
        match check_shuffle(&self.shuffle, self.apk, prev, next, proof, self.ctx.as_slice()) {
            None => Err(PokerError::ProofInvalid),
            Some(v) => {
                self.deck = v;
                Ok(())
            },
        }
    }

    /// A shuffle of the canonical deck by `shuffler`, verified and adopted;
    /// the deal is left as it is.
    pub fn shuffle_by(&mut self, shuffler: u8) -> (r: Result<ShuffledDeck, PokerError>)
        ensures
            shuffler as usize >= PLAYER_COUNT ==> r == Err::<ShuffledDeck, PokerError>(PokerError::UnknownPlayer),
            r matches Err(e) ==> (e == PokerError::UnknownPlayer || e == PokerError::EntropyUnavailable)
                && final(self)@ == old(self)@,
            r == Err::<ShuffledDeck, PokerError>(PokerError::UnknownPlayer) ==> shuffler as usize >= PLAYER_COUNT,
            r matches Ok(s) ==> old(self)@.shuffle_outcome(old(self)@.deck, s.deck, s.proof) matches Ok(v)
                && final(self)@ == old(self)@.after_shuffle(v)
                && final(self)@.deck == verified_deck(s.deck),
    {
        if shuffler as usize >= PLAYER_COUNT {
            return Err(PokerError::UnknownPlayer);
        }
        let mut g = match rng() {
            Ok(g) => g,
            Err(e) => return Err(e),
        };
        let prev = self.deck;
        let (next, proof) = shuffle_next(&self.shuffle, &mut g, self.apk, &prev, self.ctx.as_slice());
        match self.verify_shuffle(&prev, next, proof) {
            Ok(()) => Ok(ShuffledDeck { deck: next, proof }),
            Err(e) => Err(e),
        }
    }

    /// Deals two hole cards to each player, round-robin from the top of the
    /// canonical deck, replacing any earlier hole deal.
    pub fn deal_preflop(&mut self)
        ensures
            final(self)@ == old(self)@.after_deal_hole(),
    {
        proof {
            use_type_invariant(&*self);
        }
        let deck = self.deck;
        let mut h0: Vec<MaskedCard> = Vec::new();
        let mut h1: Vec<MaskedCard> = Vec::new();
        let mut round: usize = 0;
        while round < HOLE_CARDS
            invariant
                round <= HOLE_CARDS,
                h0@ =~= Seq::new(round as nat, |k: int| deck_card(deck, hole_position(0, k) as usize)),
                h1@ =~= Seq::new(round as nat, |k: int| deck_card(deck, hole_position(1, k) as usize)),
            decreases HOLE_CARDS - round,
        {
            h0.push(card_at(&deck, round * PLAYER_COUNT));
            h1.push(card_at(&deck, round * PLAYER_COUNT + 1));
            round = round + 1;
        }
        let ghost g0 = h0@;
        let ghost g1 = h1@;
        self.hole_cards = [h0, h1];
        assert(self.hole_cards@[0]@ == g0);
        assert(self.hole_cards@[1]@ == g1);
        assert forall|p: int| 0 <= p < PLAYER_COUNT implies #[trigger] self@.hole[p] =~= old(self)@.hole_deal()[p] by {
            if p == 0 {
                assert(self@.hole[p] == g0);
            } else {
                assert(self@.hole[p] == g1);
            }
        }
        assert(self@.hole =~= old(self)@.hole_deal());
    }

    /// Deals the five community cards as one block right after the hole
    /// cards, replacing any earlier community deal.
    pub fn deal_community(&mut self)
        ensures
            final(self)@ == old(self)@.after_deal_community(),
    {
        proof {
            use_type_invariant(&*self);
        }
        let deck = self.deck;
        let mut cards: Vec<MaskedCard> = Vec::new();
        let mut k: usize = 0;
        while k < COMMUNITY_CARDS
            invariant
                k <= COMMUNITY_CARDS,
                cards@ =~= Seq::new(k as nat, |j: int| deck_card(deck, community_position(j) as usize)),
            decreases COMMUNITY_CARDS - k,
        {
            cards.push(card_at(&deck, HOLE_CARDS * PLAYER_COUNT + k));
            k = k + 1;
        }
        self.community = cards;
        assert(self@.community =~= old(self)@.community_deal());
    }

    /// Unmasks an aggregate token against `card`.
    pub fn recover(&self, art: AggregateRevealToken, card: MaskedCard) -> (r: Result<CardId, PokerError>)
        ensures
            match reveal_index(self@.backend, art, card) {
                Some(i) => i < DECK_SIZE && r == Ok::<CardId, PokerError>(i as u8),
                None => r == Err::<CardId, PokerError>(PokerError::CardNotFound),
            },
    {
        match reveal_card_index(&self.shuffle, art, card) {
            Some(i) => Ok(i as u8),
            None => Err(PokerError::CardNotFound),
        }
    }

    /// What opening `card` yields: its identity, or `CardNotFound` when the
    /// combined shares unmask no card of the deck.
    pub open spec fn open_outcome(&self, card: MaskedCard) -> Result<CardId, PokerError> {
        match self.identity_of(card) {
            Some(i) => Ok(i as u8),
            None => Err(PokerError::CardNotFound),
        }
    }

    /// Opens one card with the generator `g`: each player computes its share
    /// with its own keys, each share is verified, the shares of all players
    /// are combined, and the card is recovered.
    pub fn open_card_with(&self, g: &mut StdRng, card: MaskedCard) -> (r: Result<CardId, PokerError>)
        ensures
            r == self.open_outcome(card),
            r matches Ok(id) ==> id < DECK_SIZE && self.identity_of(card) == Some(id as usize),
    {
        proof {
            use_type_invariant(self);
        }
        let k0 = &self.players[0].keys;
        let k1 = &self.players[1].keys;
        let (t0, p0) = reveal_share(&card, g, &k0.sk, k0.pk, self.ctx.as_slice());
        let (t1, p1) = reveal_share(&card, g, &k1.sk, k1.pk, self.ctx.as_slice());
        let v0 = verify_share(&p0, k0.verified_pk, t0, card, self.ctx.as_slice());
        let v1 = verify_share(&p1, k1.verified_pk, t1, card, self.ctx.as_slice());
        if v0.is_none() || v1.is_none() {
            return Err(PokerError::ProofInvalid);
        }
        let mut shares: Vec<Option<Verified<RevealToken>>> = Vec::new();
        shares.push(v0);
        shares.push(v1);
        let art = match aggregate_reveal_shares(&shares) {
            Ok(a) => a,
            Err(e) => return Err(e),
        };
        assert(Seq::new(shares@.len(), |i: int| shares@[i]->Some_0) =~= seq![
            accepted_share(share_of(card, self@.players[0].keys.sk)),
            accepted_share(share_of(card, self@.players[1].keys.sk)),
        ]);
        self.recover(art, card)
    }

    /// Opens one card with a generator drawn for this opening alone.
    pub fn open_card(&self, card: MaskedCard) -> (r: Result<CardId, PokerError>)
        ensures
            r is Err ==> r == Err::<CardId, PokerError>(PokerError::EntropyUnavailable)
                || (r == Err::<CardId, PokerError>(PokerError::CardNotFound) && self.identity_of(card) is None),
            r is Ok ==> r == self.open_outcome(card),
            r matches Ok(id) ==> id < DECK_SIZE && self.identity_of(card) == Some(id as usize),
    {
        let mut g = match rng() {
            Ok(g) => g,
            Err(e) => return Err(e),
        };
        self.open_card_with(&mut g, card)
    }

    /// Opens the two hole cards of player `pid`.
    pub fn open_hole_for(&self, pid: u8) -> (r: Result<[CardId; 2], PokerError>)
        ensures
            pid as usize >= PLAYER_COUNT <==> r == Err::<[CardId; 2], PokerError>(PokerError::UnknownPlayer),
            (pid as usize) < PLAYER_COUNT && self@.hole[pid as int].len() != HOLE_CARDS
                <==> r == Err::<[CardId; 2], PokerError>(PokerError::NotDealt),
            r matches Ok(ids) ==> (pid as usize) < PLAYER_COUNT && self.opens_to(self@.hole[pid as int], ids@),
            r matches Err(e) ==> e == PokerError::UnknownPlayer || e == PokerError::NotDealt
                || self.open_failure(self@.hole[pid as int], e),
    {
        if pid as usize >= PLAYER_COUNT {
            return Err(PokerError::UnknownPlayer);
        }
        let cards = &self.hole_cards[pid as usize];
        assert(cards@ == self@.hole[pid as int]);
        if cards.len() != HOLE_CARDS {
            return Err(PokerError::NotDealt);
        }
        let a = match self.open_card(cards[0]) {
            Ok(a) => a,
            Err(e) => return Err(e),
        };
        let b = match self.open_card(cards[1]) {
            Ok(b) => b,
            Err(e) => return Err(e),
        };
        let ids = [a, b];
        assert(ids@ =~= seq![a, b]);
        Ok(ids)
    }

    /// Opens the five community cards, in flop, turn, river order.
    pub fn open_community(&self) -> (r: Result<[CardId; 5], PokerError>)
        ensures
            self@.community.len() != COMMUNITY_CARDS <==> r == Err::<[CardId; 5], PokerError>(PokerError::NotDealt),
            r matches Ok(ids) ==> self.opens_to(self@.community, ids@),
            r matches Err(e) ==> e == PokerError::NotDealt || self.open_failure(self@.community, e),
    {
        let cards = &self.community;
        if cards.len() != COMMUNITY_CARDS {
            return Err(PokerError::NotDealt);
        }
        let mut ids: [CardId; 5] = [0; 5];
        let mut k: usize = 0;
        while k < COMMUNITY_CARDS
            invariant
                k <= COMMUNITY_CARDS,
                cards@ == self@.community,
                cards@.len() == COMMUNITY_CARDS,
                ids@.len() == COMMUNITY_CARDS,
                forall|j: int|
                    0 <= j < k ==> self.identity_of(#[trigger] cards@[j]) == Some(ids@[j] as usize)
                        && ids@[j] < DECK_SIZE,
            decreases COMMUNITY_CARDS - k,
        {
            let id = match self.open_card(cards[k]) {
                Ok(id) => id,
                Err(e) => return Err(e),
            };
            ids[k] = id;
            k = k + 1;
        }
        Ok(ids)
    }
}

/// A key pair fresh from `generate_identity` passes `verify_identity` under
/// the context it was made for.
pub proof fn lemma_generated_identity_verifies(pk: PublicKey, proof: OwnershipProof, ctx: Seq<u8>)
    requires
        ownership_check(proof, pk, ctx) is Some,
    ensures
        identity_outcome(pk, proof, ctx) is Ok,
{
}

/// Shuffles form a chain. A shuffle verified against any deck but the
/// canonical one (a stale or substituted deck) is refused with
/// `MismatchedPrevious`; one adopted was verified against the canonical
/// deck; a shuffle of the canonical deck whose proof the backend accepts is
/// adopted. Once adopted, the old canonical deck is stale in turn.
pub proof fn lemma_shuffle_extends_canonical(
    h: HandView,
    prev: Verified<MaskedDeck<52>>,
    next: MaskedDeck<52>,
    proof: ShuffleProof<52>,
    stale: Verified<MaskedDeck<52>>,
    later: MaskedDeck<52>,
    later_proof: ShuffleProof<52>,
)
    ensures
        prev != h.deck ==> h.shuffle_outcome(prev, next, proof) == Err::<Verified<MaskedDeck<52>>, PokerError>(PokerError::MismatchedPrevious),
        h.shuffle_outcome(prev, next, proof) is Ok ==> prev == h.deck,
        prev == h.deck && shuffle_check(h.backend, h.apk, prev, next, proof, h.ctx) is Some
            ==> h.shuffle_outcome(prev, next, proof) is Ok,
        h.shuffle_outcome(prev, next, proof) is Ok && stale != h.shuffle_outcome(prev, next, proof)->Ok_0
            ==> h.after_shuffle(h.shuffle_outcome(prev, next, proof)->Ok_0).shuffle_outcome(stale, later, later_proof)
                == Err::<Verified<MaskedDeck<52>>, PokerError>(PokerError::MismatchedPrevious),
{
}

/// Round trip: a dealt hole card opens to the identity that the canonical
/// deck holds at its deal position. Two states of a hand with the same
/// keys, backend and canonical deck, both dealt, agree on it, whatever was
/// opened or redealt in between.
pub proof fn lemma_dealt_hole_round_trip(g1: GameState, g2: GameState, p: int, k: int)
    requires
        g1@.hole == g1@.hole_deal(),
        g2@.hole == g2@.hole_deal(),
        g1@.deck == g2@.deck,
        g1@.backend == g2@.backend,
        g1@.players == g2@.players,
        0 <= p < PLAYER_COUNT,
        0 <= k < HOLE_CARDS,
    ensures
        g1.identity_of(g1@.hole[p][k]) == g1.identity_of(g1@.card_at(hole_position(p, k))),
        g1.identity_of(g1@.hole[p][k]) == g2.identity_of(g2@.hole[p][k]),
{
}

/// Dealing is a function of the canonical deck alone: dealing again
/// against the same deck, whatever was dealt before, resets and reproduces
/// the same assignment.
pub proof fn lemma_deal_idempotent(h1: HandView, h2: HandView)
    requires
        h1.deck == h2.deck,
    ensures
        h1.after_deal_hole().after_deal_hole() == h1.after_deal_hole(),
        h1.after_deal_community().after_deal_community() == h1.after_deal_community(),
        h1.after_deal_hole().hole == h2.after_deal_hole().hole,
        h1.after_deal_community().community == h2.after_deal_community().community,
{
    assert(h1.after_deal_hole().hole_deal() =~~= h1.hole_deal());
    assert(h1.after_deal_community().community_deal() =~= h1.community_deal());
    assert(h1.hole_deal() =~~= h2.hole_deal());
    assert(h1.community_deal() =~= h2.community_deal());
}

/// The deal takes nine distinct positions of the deck: no two hole cards,
/// no two community cards, and no hole card and community card share a
/// position, and every position lies in the deck.
pub proof fn lemma_deal_positions_distinct(p1: int, r1: int, p2: int, r2: int, k1: int, k2: int)
    requires
        0 <= p1 < PLAYER_COUNT,
        0 <= p2 < PLAYER_COUNT,
        0 <= r1 < HOLE_CARDS,
        0 <= r2 < HOLE_CARDS,
        0 <= k1 < COMMUNITY_CARDS,
        0 <= k2 < COMMUNITY_CARDS,
    ensures
        (p1 != p2 || r1 != r2) ==> hole_position(p1, r1) != hole_position(p2, r2),
        k1 != k2 ==> community_position(k1) != community_position(k2),
        hole_position(p1, r1) != community_position(k1),
        0 <= hole_position(p1, r1) < DECK_SIZE,
        0 <= community_position(k1) < DECK_SIZE,
{
}

/// No identity is recovered from partial shares: if any player's share is
/// missing, aggregation reports `MissingParticipant`.
pub proof fn lemma_missing_share_refused(shares: Seq<Option<Verified<RevealToken>>>, i: int)
    requires
        0 <= i < shares.len(),
        shares[i] is None,
    ensures
        aggregate_outcome(shares) == Err::<AggregateRevealToken, PokerError>(PokerError::MissingParticipant),
{
}

} // verus!
