//! The table record and its lifecycle: creation, joining with escrow,
//! commit-reveal of the two seeds, dealing, and the hit/stand turns.

use vstd::prelude::*;
use vstd::bytes::{spec_u64_to_le_bytes, u64_to_le_bytes};
use crate::cards::{
    ace_count, calculate_hand_value, hand_value, lemma_hand_value_push, lemma_two_card_hand,
    raw_sum, shuffle_values, shuffled_values, DECK_SIZE, BUST_THRESHOLD,
};
use crate::digest::{sha256, sha256_of};

verus! {

/// Fee that each player pays the protocol on joining, in lamports.
pub const PROTOCOL_FEE: u64 = 1_000_000;

/// Seconds a turn may last before its deadline.
pub const TURN_TIMEOUT: i64 = 60;

/// An account address.
pub type Pubkey = [u8; 32];

/// The two seats at a table; the creator picks one, the opponent gets the other.
#[derive(Clone, Copy, PartialEq, Eq, Debug, Structural)]
pub enum Role {
    Dealer,
    Player,
}

/// Lifecycle of a table: `Open` until joined, `Committing` until both seeds
/// are revealed, `Active` while the hand is played, `Settled` for good.
#[derive(Clone, Copy, PartialEq, Eq, Debug, Structural)]
pub enum TableState {
    Open,
    Committing,
    Active,
    Settled,
}

/// Why a table operation was refused; a refused operation changes nothing.
#[derive(Clone, Copy, PartialEq, Eq, Debug, Structural)]
pub enum ErrorCode {
    InvalidBetAmount,
    TableNotOpen,
    TableFull,
    NotYourTurn,
    InvalidState,
    AlreadyCommitted,
    CommitmentMismatch,
    NotTableParticipant,
    DeckExhausted,
}

/// The durable record of one table.
#[derive(Clone, Debug, PartialEq, Eq)]
pub struct TableAccount {
    pub table_id: u64,
    pub bet_amount: u64,
    pub creator: Pubkey,
    pub creator_role: Role,
    pub opponent: Option<Pubkey>,
    pub state: TableState,
    pub created_at: i64,
    pub deck: Vec<u8>,
    pub deck_index: u8,
    pub creator_hand: Vec<u8>,
    pub opponent_hand: Vec<u8>,
    pub creator_total: u8,
    pub opponent_total: u8,
    pub current_turn: Option<Role>,
    pub turn_deadline: i64,
    pub hand_number: u32,
    pub creator_commitment: Option<[u8; 32]>,
    pub opponent_commitment: Option<[u8; 32]>,
    pub creator_seed_revealed: Option<[u8; 32]>,
    pub opponent_seed_revealed: Option<[u8; 32]>,
    pub bump: u8,
}

/// What joining moves: each player pays `escrow_each` into the table, and the
/// table pays `fee_total` on to the fee destination.
#[derive(Clone, Copy, PartialEq, Eq, Debug, Structural)]
pub struct JoinEscrow {
    pub escrow_each: u64,
    pub fee_total: u64,
}

/// The six bet tiers, in lamports.
pub open spec fn valid_tier(bet: u64) -> bool {
    bet == 10_000_000 || bet == 50_000_000 || bet == 100_000_000 || bet == 250_000_000
        || bet == 500_000_000 || bet == 1_000_000_000
}

/// The role that is not `r`.
pub open spec fn other_role(r: Role) -> Role {
    match r {
        Role::Dealer => Role::Player,
        Role::Player => Role::Dealer,
    }
}

/// Whether `k` is the key held in `slot`.
pub open spec fn holds_key(slot: Option<Pubkey>, k: Pubkey) -> bool {
    slot is Some && slot->0@ == k@
}

/// The role of `player` at table `t`: the creator keeps the declared role,
/// the opponent has the other one, anybody else has none.
pub open spec fn role_of(t: TableAccount, player: Pubkey) -> Option<Role> {
    if player@ == t.creator@ {
        Some(t.creator_role)
    } else if holds_key(t.opponent, player) {
        Some(other_role(t.creator_role))
    } else {
        None
    }
}

/// The hand of the party that plays role `r`.
pub open spec fn hand_of(t: TableAccount, r: Role) -> Seq<u8> {
    if t.creator_role == r { t.creator_hand@ } else { t.opponent_hand@ }
}

/// The bytes hashed into the final seed: both seeds, then the table id in
/// little-endian order.
pub open spec fn mix_input(creator_seed: [u8; 32], opponent_seed: [u8; 32], table_id: u64) -> Seq<u8> {
    creator_seed@ + opponent_seed@ + spec_u64_to_le_bytes(table_id)
}

/// The deck of play values that two revealed seeds produce at a table.
pub open spec fn deck_for_seeds(creator_seed: [u8; 32], opponent_seed: [u8; 32], table_id: u64) -> Seq<u8> {
    shuffled_values(sha256_of(mix_input(creator_seed, opponent_seed, table_id)))
}

/// Card values in play are `2..=11`.
pub open spec fn play_values(s: Seq<u8>) -> bool {
    forall|k: int| 0 <= k < s.len() ==> 2 <= #[trigger] s[k] <= 11
}

impl TableAccount {
    /// The table's invariant.
    pub open spec fn wf(&self) -> bool {
        &&& valid_tier(self.bet_amount)
        &&& (self.state != TableState::Open ==> self.opponent is Some)
        &&& (self.state == TableState::Active || self.state == TableState::Settled) ==> {
            &&& self.deck@.len() == 52
            &&& play_values(self.deck@)
            &&& play_values(self.creator_hand@)
            &&& play_values(self.opponent_hand@)
            &&& self.creator_hand@.len() + self.opponent_hand@.len() == self.deck_index
            &&& self.deck_index <= 52
            &&& self.creator_total == hand_value(self.creator_hand@)
            &&& self.opponent_total == hand_value(self.opponent_hand@)
        }
        &&& self.state == TableState::Active ==> {
            &&& self.current_turn is Some
            &&& hand_value(hand_of(*self, Role::Dealer)) <= 21
            &&& (self.current_turn == Some(Role::Player) ==> hand_value(hand_of(*self, Role::Player)) <= 21)
        }
    }
}

/// Whether two keys are the same bytes.
fn same_key(a: &Pubkey, b: &Pubkey) -> (r: bool)
    ensures
        r == (a@ == b@),
{
    let mut k: usize = 0;
    while k < 32
        invariant
            k <= 32,
            a@.len() == 32,
            b@.len() == 32,
            forall|x: int| 0 <= x < k ==> a@[x] == b@[x],
        decreases 32 - k,
    {
        if a[k] != b[k] {
            return false;
        }
        k = k + 1;
    }
    assert(a@ =~= b@);
    true
}

/// Whether `slot` holds `k`.
fn slot_holds(slot: &Option<Pubkey>, k: &Pubkey) -> (r: bool)
    ensures
        r == holds_key(*slot, *k),
{
    match slot {
        Some(v) => same_key(v, k),
        None => false,
    }
}

/// Whether `bet` is one of the six tiers.
pub fn is_valid_tier(bet: u64) -> (r: bool)
    ensures
        r == valid_tier(bet),
{
    let tiers: [u64; 6] = [10_000_000, 50_000_000, 100_000_000, 250_000_000, 500_000_000, 1_000_000_000];
    let mut k: usize = 0;
    while k < 6
        invariant
            k <= 6,
            tiers@ == seq![10_000_000u64, 50_000_000, 100_000_000, 250_000_000, 500_000_000, 1_000_000_000],
            forall|x: int| 0 <= x < k ==> tiers@[x] != bet,
        decreases 6 - k,
    {
        if tiers[k] == bet {
            return true;
        }
        k = k + 1;
    }
    false
}

/// Opens a table whose creator plays `role`, staking `bet_amount`; `now` is
/// the creation time. Fails with `InvalidBetAmount` unless the bet is a tier.
pub fn create_table(
    bet_amount: u64,
    role: Role,
    table_seed: u64,
    creator: Pubkey,
    now: i64,
    bump: u8,
) -> (r: Result<TableAccount, ErrorCode>)
    ensures
        r is Err <==> !valid_tier(bet_amount),
        r is Err ==> r == Err::<TableAccount, ErrorCode>(ErrorCode::InvalidBetAmount),
        r matches Ok(t) ==> {
            &&& t.wf()
            &&& t.table_id == table_seed
            &&& t.bet_amount == bet_amount
            &&& t.creator == creator
            &&& t.creator_role == role
            &&& t.opponent is None
            &&& t.state == TableState::Open
            &&& t.created_at == now
            &&& t.deck@.len() == 0
            &&& t.deck_index == 0
            &&& t.creator_hand@.len() == 0
            &&& t.opponent_hand@.len() == 0
            &&& t.creator_total == 0
            &&& t.opponent_total == 0
            &&& t.current_turn is None
            &&& t.turn_deadline == 0
            &&& t.hand_number == 0
            &&& t.creator_commitment is None
            &&& t.opponent_commitment is None
            &&& t.creator_seed_revealed is None
            &&& t.opponent_seed_revealed is None
            &&& t.bump == bump
        },
{
    if !is_valid_tier(bet_amount) {
        return Err(ErrorCode::InvalidBetAmount);
    }
    Ok(TableAccount {
        table_id: table_seed,
        bet_amount,
        creator,
        creator_role: role,
        opponent: None,
        state: TableState::Open,
        created_at: now,
        deck: Vec::new(),
        deck_index: 0,
        creator_hand: Vec::new(),
        opponent_hand: Vec::new(),
        creator_total: 0,
        opponent_total: 0,
        current_turn: None,
        turn_deadline: 0,
        hand_number: 0,
        creator_commitment: None,
        opponent_commitment: None,
        creator_seed_revealed: None,
        opponent_seed_revealed: None,
        bump,
    })
}

/// Seats `opponent` at an open table and moves it to `Committing`. The
/// result is what each player escrows into the table and what the table
/// forwards as fees; the caller makes those transfers in the same
/// transaction, so that a failed transfer undoes the join.
pub fn join_table(table: &mut TableAccount, opponent: Pubkey) -> (r: Result<JoinEscrow, ErrorCode>)
    requires
        old(table).wf(),
    ensures
        final(table).wf(),
        old(table).state != TableState::Open ==> r == Err::<JoinEscrow, ErrorCode>(ErrorCode::TableNotOpen),
        old(table).state == TableState::Open && old(table).opponent is Some
            ==> r == Err::<JoinEscrow, ErrorCode>(ErrorCode::TableFull),
        r is Err ==> *final(table) == *old(table),
        r is Ok <==> old(table).state == TableState::Open && old(table).opponent is None,
        r matches Ok(plan) ==> {
            &&& plan.escrow_each == old(table).bet_amount + PROTOCOL_FEE
            &&& plan.fee_total == 2 * PROTOCOL_FEE
            &&& *final(table) == (TableAccount {
                opponent: Some(opponent),
                state: TableState::Committing,
                ..*old(table)
            })
        },
{
    if table.state != TableState::Open {
        return Err(ErrorCode::TableNotOpen);
    }
    if table.opponent.is_some() {
        return Err(ErrorCode::TableFull);
    }
    let plan = JoinEscrow { escrow_each: table.bet_amount + PROTOCOL_FEE, fee_total: PROTOCOL_FEE * 2 };
    table.opponent = Some(opponent);
    table.state = TableState::Committing;
    Ok(plan)
}


/// Records `player`'s commitment. Only while committing, once per party, and
/// only by the creator or the opponent.
pub fn submit_commitment(table: &mut TableAccount, player: Pubkey, commitment: [u8; 32]) -> (r: Result<(), ErrorCode>)
    requires
        old(table).wf(),
    ensures
        final(table).wf(),
        r is Err ==> *final(table) == *old(table),
        old(table).state != TableState::Committing ==> r == Err::<(), ErrorCode>(ErrorCode::InvalidState),
        old(table).state == TableState::Committing ==> {
            if player@ == old(table).creator@ {
                if old(table).creator_commitment is Some {
                    r == Err::<(), ErrorCode>(ErrorCode::AlreadyCommitted)
                } else {
                    r is Ok && *final(table) == (TableAccount {
                        creator_commitment: Some(commitment),
                        ..*old(table)
                    })
                }
            } else if holds_key(old(table).opponent, player) {
                if old(table).opponent_commitment is Some {
                    r == Err::<(), ErrorCode>(ErrorCode::AlreadyCommitted)
                } else {
                    r is Ok && *final(table) == (TableAccount {
                        opponent_commitment: Some(commitment),
                        ..*old(table)
                    })
                }
            } else {
                r == Err::<(), ErrorCode>(ErrorCode::NotTableParticipant)
            }
        },
{
    if table.state != TableState::Committing {
        return Err(ErrorCode::InvalidState);
    }
    if same_key(&player, &table.creator) {
        if table.creator_commitment.is_some() {
            return Err(ErrorCode::AlreadyCommitted);
        }
        table.creator_commitment = Some(commitment);
    } else if slot_holds(&table.opponent, &player) {
        if table.opponent_commitment.is_some() {
            return Err(ErrorCode::AlreadyCommitted);
        }
        table.opponent_commitment = Some(commitment);
    } else {
        return Err(ErrorCode::NotTableParticipant);
    }
    Ok(())
}

/// Whether `commitment` holds exactly the digest `digest`.
fn commitment_matches(commitment: &Option<[u8; 32]>, digest: &[u8; 32]) -> (r: bool)
    ensures
        r == (commitment is Some && commitment->0@ == digest@),
{
    match commitment {
        Some(c) => same_key(c, digest),
        None => false,
    }
}

/// Records `player`'s revealed `seed`, given `seed_digest`, the digest of the
/// seed. The seed is kept only if the digest equals the commitment that the
/// same party stored; otherwise `CommitmentMismatch`, and nothing changes.
/// Returns whether both seeds are now revealed.
pub fn record_reveal(
    table: &mut TableAccount,
    player: Pubkey,
    seed: [u8; 32],
    seed_digest: &[u8; 32],
) -> (r: Result<bool, ErrorCode>)
    requires
        old(table).wf(),
    ensures
        final(table).wf(),
        r is Err ==> *final(table) == *old(table),
        old(table).state != TableState::Committing ==> r == Err::<bool, ErrorCode>(ErrorCode::InvalidState),
        old(table).state == TableState::Committing ==> {
            if player@ == old(table).creator@ {
                if old(table).creator_commitment is Some && old(table).creator_commitment->0@ == seed_digest@ {
                    r is Ok && *final(table) == (TableAccount { creator_seed_revealed: Some(seed), ..*old(table) })
                } else {
                    r == Err::<bool, ErrorCode>(ErrorCode::CommitmentMismatch)
                }
            } else if holds_key(old(table).opponent, player) {
                if old(table).opponent_commitment is Some && old(table).opponent_commitment->0@ == seed_digest@ {
                    r is Ok && *final(table) == (TableAccount { opponent_seed_revealed: Some(seed), ..*old(table) })
                } else {
                    r == Err::<bool, ErrorCode>(ErrorCode::CommitmentMismatch)
                }
            } else {
                r == Err::<bool, ErrorCode>(ErrorCode::NotTableParticipant)
            }
        },
        r matches Ok(both) ==> both == (final(table).creator_seed_revealed is Some
            && final(table).opponent_seed_revealed is Some),
{
    if table.state != TableState::Committing {
        return Err(ErrorCode::InvalidState);
    }
    if same_key(&player, &table.creator) {
        if !commitment_matches(&table.creator_commitment, seed_digest) {
            return Err(ErrorCode::CommitmentMismatch);
        }
        table.creator_seed_revealed = Some(seed);
    } else if slot_holds(&table.opponent, &player) {
        if !commitment_matches(&table.opponent_commitment, seed_digest) {
            return Err(ErrorCode::CommitmentMismatch);
        }
        table.opponent_seed_revealed = Some(seed);
    } else {
        return Err(ErrorCode::NotTableParticipant);
    }
    Ok(table.creator_seed_revealed.is_some() && table.opponent_seed_revealed.is_some())
}

/// Deals the next card: the deck's value at the cursor, which then moves on.
/// Fails with `DeckExhausted`, changing nothing, once 52 cards are dealt.
pub fn deal_card(table: &mut TableAccount) -> (r: Result<u8, ErrorCode>)
    requires
        old(table).deck_index < 52 ==> old(table).deck_index < old(table).deck@.len(),
    ensures
        r is Ok <==> old(table).deck_index < 52,
        r is Err ==> r == Err::<u8, ErrorCode>(ErrorCode::DeckExhausted) && *final(table) == *old(table),
        r matches Ok(card) ==> {
            &&& card == old(table).deck@[old(table).deck_index as int]
            &&& *final(table) == (TableAccount { deck_index: (old(table).deck_index + 1) as u8, ..*old(table) })
        },
{
    if table.deck_index >= DECK_SIZE as u8 {
        return Err(ErrorCode::DeckExhausted);
    }
    let card = table.deck[table.deck_index as usize];
    table.deck_index = table.deck_index + 1;
    Ok(card)
}

/// Fills the deck from the revealed seeds: the final seed is the digest of
/// both seeds and the table id, and the deck is its shuffle, as play values,
/// with the cursor at its start. Fails with `InvalidState`, changing
/// nothing, unless both seeds are revealed.
pub fn generate_and_shuffle_deck(table: &mut TableAccount) -> (r: Result<(), ErrorCode>)
    ensures
        r is Ok <==> old(table).creator_seed_revealed is Some && old(table).opponent_seed_revealed is Some,
        r is Err ==> r == Err::<(), ErrorCode>(ErrorCode::InvalidState) && *final(table) == *old(table),
        r is Ok ==> {
            &&& final(table).deck@ == deck_for_seeds(
                old(table).creator_seed_revealed->0,
                old(table).opponent_seed_revealed->0,
                old(table).table_id,
            )
            &&& *final(table) == (TableAccount { deck: final(table).deck, deck_index: 0, ..*old(table) })
            &&& final(table).deck@.len() == 52
            &&& play_values(final(table).deck@)
        },
{
    let creator_seed = match table.creator_seed_revealed {
        Some(s) => s,
        None => return Err(ErrorCode::InvalidState),
    };
    let opponent_seed = match table.opponent_seed_revealed {
        Some(s) => s,
        None => return Err(ErrorCode::InvalidState),
    };
    let mut combined: Vec<u8> = Vec::new();
    combined.extend_from_slice(creator_seed.as_slice());
    combined.extend_from_slice(opponent_seed.as_slice());
    let id_bytes = u64_to_le_bytes(table.table_id);
    combined.extend_from_slice(id_bytes.as_slice());
    assert(combined@ =~= mix_input(creator_seed, opponent_seed, table.table_id));
    let final_seed = sha256(combined.as_slice());
    table.deck = shuffle_values(&final_seed);
    table.deck_index = 0;
    Ok(())
}


/// `t` after `player`, the creator or the opponent, reveals `seed`.
pub open spec fn with_reveal(t: TableAccount, player: Pubkey, seed: [u8; 32]) -> TableAccount {
    if player@ == t.creator@ {
        TableAccount { creator_seed_revealed: Some(seed), ..t }
    } else {
        TableAccount { opponent_seed_revealed: Some(seed), ..t }
    }
}

/// The commitment that `player` stored at `t`.
pub open spec fn commitment_of(t: TableAccount, player: Pubkey) -> Option<[u8; 32]> {
    if player@ == t.creator@ { t.creator_commitment } else { t.opponent_commitment }
}

/// `after` holds the opening deal from `before`'s deck cursor: two cards to
/// the opponent, then two to the creator, each total recomputed.
pub open spec fn initial_deal(before: TableAccount, after: TableAccount) -> bool {
    let i = before.deck_index as int;
    &&& after.opponent_hand@ == seq![before.deck@[i], before.deck@[i + 1]]
    &&& after.creator_hand@ == seq![before.deck@[i + 2], before.deck@[i + 3]]
    &&& after.opponent_total == hand_value(after.opponent_hand@)
    &&& after.creator_total == hand_value(after.creator_hand@)
    &&& after == (TableAccount {
        opponent_hand: after.opponent_hand,
        creator_hand: after.creator_hand,
        opponent_total: after.opponent_total,
        creator_total: after.creator_total,
        deck_index: (before.deck_index + 4) as u8,
        ..before
    })
}

/// Deals the opening hands: two cards to the opponent, then two to the
/// creator. Fails with `DeckExhausted`, changing nothing, when fewer than four
/// cards are left.
pub fn deal_initial_cards(table: &mut TableAccount) -> (r: Result<(), ErrorCode>)
    requires
        old(table).deck@.len() == 52,
        play_values(old(table).deck@),
    ensures
        r is Ok <==> old(table).deck_index + 4 <= 52,
        r is Err ==> r == Err::<(), ErrorCode>(ErrorCode::DeckExhausted) && *final(table) == *old(table),
        r is Ok ==> initial_deal(*old(table), *final(table)),
        r is Ok ==> hand_value(final(table).opponent_hand@) <= 21 && hand_value(final(table).creator_hand@) <= 21,
{
    if table.deck_index > (DECK_SIZE - 4) as u8 {
        return Err(ErrorCode::DeckExhausted);
    }
    let ghost i = table.deck_index as int;
    let a = match deal_card(table) {
        Ok(c) => c,
        Err(e) => return Err(e),
    };
    let b = match deal_card(table) {
        Ok(c) => c,
        Err(e) => return Err(e),
    };
    table.opponent_hand = vec![a, b];
    proof {
        lemma_two_card_hand(a, b);
        assert(table.opponent_hand@ =~= seq![a, b]);
    }
    table.opponent_total = calculate_hand_value(&table.opponent_hand);
    let c = match deal_card(table) {
        Ok(c) => c,
        Err(e) => return Err(e),
    };
    let d = match deal_card(table) {
        Ok(c) => c,
        Err(e) => return Err(e),
    };
    table.creator_hand = vec![c, d];
    proof {
        lemma_two_card_hand(c, d);
        assert(table.creator_hand@ =~= seq![c, d]);
    }
    table.creator_total = calculate_hand_value(&table.creator_hand);
    Ok(())
}

/// `after` is `before` with the hand started from the revealed seeds: the
/// deck shuffled from them, the opening hands dealt, the table active with
/// the Player to act, a fresh deadline, and hand number 1.
pub open spec fn hand_started(before: TableAccount, after: TableAccount, now: i64) -> bool {
    let shuffled = TableAccount { deck: after.deck, deck_index: 0, ..before };
    &&& after.deck@ == deck_for_seeds(
        before.creator_seed_revealed->0,
        before.opponent_seed_revealed->0,
        before.table_id,
    )
    &&& initial_deal(shuffled, TableAccount {
        state: before.state,
        current_turn: before.current_turn,
        turn_deadline: before.turn_deadline,
        hand_number: before.hand_number,
        ..after
    })
    &&& after.state == TableState::Active
    &&& after.current_turn == Some(Role::Player)
    &&& after.turn_deadline == now + TURN_TIMEOUT
    &&& after.hand_number == 1
}

/// Reveals `player`'s seed. It is kept only if its SHA-256 digest equals the
/// commitment that the same party stored (`CommitmentMismatch` otherwise,
/// changing nothing). Once both seeds are in, the deck is shuffled from them,
/// the opening hands are dealt and the Player has the turn until
/// `now + 60`.
pub fn reveal_seed(table: &mut TableAccount, player: Pubkey, seed: [u8; 32], now: i64) -> (r: Result<(), ErrorCode>)
    requires
        old(table).wf(),
        now <= i64::MAX - TURN_TIMEOUT,
    ensures
        final(table).wf(),
        r is Err ==> *final(table) == *old(table),
        old(table).state != TableState::Committing ==> r == Err::<(), ErrorCode>(ErrorCode::InvalidState),
        old(table).state == TableState::Committing ==> {
            if role_of(*old(table), player) is None {
                r == Err::<(), ErrorCode>(ErrorCode::NotTableParticipant)
            } else if commitment_of(*old(table), player) is Some
                && commitment_of(*old(table), player)->0@ == sha256_of(seed@) {
                r is Ok
            } else {
                r == Err::<(), ErrorCode>(ErrorCode::CommitmentMismatch)
            }
        },
        r is Ok ==> {
            let mid = with_reveal(*old(table), player, seed);
            if mid.creator_seed_revealed is Some && mid.opponent_seed_revealed is Some {
                hand_started(mid, *final(table), now)
            } else {
                *final(table) == mid
            }
        },
{
    let digest = sha256(seed.as_slice());
    let both = match record_reveal(table, player, seed, &digest) {
        Ok(b) => b,
        Err(e) => return Err(e),
    };
    if both {
        let ghost mid = *table;
        match generate_and_shuffle_deck(table) {
            Ok(()) => {},
            Err(e) => return Err(e),
        }
        let ghost shuffled = *table;
        match deal_initial_cards(table) {
            Ok(()) => {},
            Err(e) => return Err(e),
        }
        table.state = TableState::Active;
        table.current_turn = Some(Role::Player);
        table.turn_deadline = now + TURN_TIMEOUT;
        table.hand_number = 1;
        proof {
            assert(play_values(table.opponent_hand@));
            assert(play_values(table.creator_hand@));
        }
    }
    Ok(())
}


/// The role of `player`: the creator keeps the declared role, the opponent
/// plays the other one; anyone else fails with `NotTableParticipant`.
pub fn get_player_role(table: &TableAccount, player: Pubkey) -> (r: Result<Role, ErrorCode>)
    ensures
        r == match role_of(*table, player) {
            Some(role) => Ok::<Role, ErrorCode>(role),
            None => Err(ErrorCode::NotTableParticipant),
        },
{
    if same_key(&player, &table.creator) {
        Ok(table.creator_role)
    } else if slot_holds(&table.opponent, &player) {
        Ok(
            match table.creator_role {
                Role::Dealer => Role::Player,
                Role::Player => Role::Dealer,
            },
        )
    } else {
        Err(ErrorCode::NotTableParticipant)
    }
}

/// Whether `turn` is `role`.
fn is_turn_of(turn: Option<Role>, role: Role) -> (r: bool)
    ensures
        r == (turn == Some(role)),
{
    match turn {
        Some(t) => t == role,
        None => false,
    }
}

/// `after` is `before` once the party playing `role` has drawn the card at
/// the cursor: that hand grows by the card and its total is recomputed; a
/// Player over 21 passes the turn to the Dealer, a Dealer over 21 settles
/// the table; the deadline is refreshed.
pub open spec fn hit_applied(before: TableAccount, after: TableAccount, role: Role, now: i64) -> bool {
    let card = before.deck@[before.deck_index as int];
    let hand = hand_of(before, role).push(card);
    let bust = hand_value(hand) > 21;
    &&& hand_of(after, role) == hand
    &&& hand_of(after, other_role(role)) == hand_of(before, other_role(role))
    &&& (if before.creator_role == role {
        after.creator_total == hand_value(hand) && after.opponent_total == before.opponent_total
    } else {
        after.opponent_total == hand_value(hand) && after.creator_total == before.creator_total
    })
    &&& after.current_turn == if role == Role::Player && bust { Some(Role::Dealer) } else { before.current_turn }
    &&& after.state == if role == Role::Dealer && bust { TableState::Settled } else { before.state }
    &&& after == (TableAccount {
        creator_hand: after.creator_hand,
        opponent_hand: after.opponent_hand,
        creator_total: after.creator_total,
        opponent_total: after.opponent_total,
        current_turn: after.current_turn,
        state: after.state,
        deck_index: (before.deck_index + 1) as u8,
        turn_deadline: (now + TURN_TIMEOUT) as i64,
        ..before
    })
}

/// `player` draws a card on their turn (see `hit_applied`). Fails, changing
/// nothing, with `InvalidState` unless the table is active, with
/// `NotTableParticipant` for a stranger, with `NotYourTurn` out of turn, and
/// with `DeckExhausted` when no card is left.
pub fn hit(table: &mut TableAccount, player: Pubkey, now: i64) -> (r: Result<(), ErrorCode>)
    requires
        old(table).wf(),
        now <= i64::MAX - TURN_TIMEOUT,
    ensures
        final(table).wf(),
        r is Err ==> *final(table) == *old(table),
        old(table).state != TableState::Active ==> r == Err::<(), ErrorCode>(ErrorCode::InvalidState),
        old(table).state == TableState::Active ==> match role_of(*old(table), player) {
            None => r == Err::<(), ErrorCode>(ErrorCode::NotTableParticipant),
            Some(role) => if old(table).current_turn != Some(role) {
                r == Err::<(), ErrorCode>(ErrorCode::NotYourTurn)
            } else if old(table).deck_index >= 52 {
                r == Err::<(), ErrorCode>(ErrorCode::DeckExhausted)
            } else {
                r is Ok && hit_applied(*old(table), *final(table), role, now)
            },
        },
{
    if table.state != TableState::Active {
        return Err(ErrorCode::InvalidState);
    }
    if table.current_turn.is_none() {
        return Err(ErrorCode::NotYourTurn);
    }
    let role = match get_player_role(table, player) {
        Ok(role) => role,
        Err(e) => return Err(e),
    };
    if !is_turn_of(table.current_turn, role) {
        return Err(ErrorCode::NotYourTurn);
    }
    let ghost before = *table;
    let card = match deal_card(table) {
        Ok(c) => c,
        Err(e) => return Err(e),
    };
    let total = if table.creator_role == role {
        proof {
            lemma_hand_value_push(table.creator_hand@, card);
        }
        table.creator_hand.push(card);
        table.creator_total = calculate_hand_value(&table.creator_hand);
        table.creator_total
    } else {
        proof {
            lemma_hand_value_push(table.opponent_hand@, card);
        }
        table.opponent_hand.push(card);
        table.opponent_total = calculate_hand_value(&table.opponent_hand);
        table.opponent_total
    };
    if total > BUST_THRESHOLD {
        match role {
            Role::Player => table.current_turn = Some(Role::Dealer),
            Role::Dealer => table.state = TableState::Settled,
        }
    }
    table.turn_deadline = now + TURN_TIMEOUT;
    proof {
        assert(play_values(table.creator_hand@));
        assert(play_values(table.opponent_hand@));
    }
    Ok(())
}

/// `player` stands on their turn: a Player passes the turn to the Dealer
/// with a fresh deadline, a Dealer settles the table. Fails, changing
/// nothing, with `InvalidState` unless the table is active, with
/// `NotTableParticipant` for a stranger and with `NotYourTurn` out of turn.
pub fn stand(table: &mut TableAccount, player: Pubkey, now: i64) -> (r: Result<(), ErrorCode>)
    requires
        old(table).wf(),
        now <= i64::MAX - TURN_TIMEOUT,
    ensures
        final(table).wf(),
        r is Err ==> *final(table) == *old(table),
        old(table).state != TableState::Active ==> r == Err::<(), ErrorCode>(ErrorCode::InvalidState),
        old(table).state == TableState::Active ==> match role_of(*old(table), player) {
            None => r == Err::<(), ErrorCode>(ErrorCode::NotTableParticipant),
            Some(role) => if old(table).current_turn != Some(role) {
                r == Err::<(), ErrorCode>(ErrorCode::NotYourTurn)
            } else if role == Role::Player {
                r is Ok && *final(table) == (TableAccount {
                    current_turn: Some(Role::Dealer),
                    turn_deadline: (now + TURN_TIMEOUT) as i64,
                    ..*old(table)
                })
            } else {
                r is Ok && *final(table) == (TableAccount { state: TableState::Settled, ..*old(table) })
            },
        },
{
    if table.state != TableState::Active {
        return Err(ErrorCode::InvalidState);
    }
    let role = match get_player_role(table, player) {
        Ok(role) => role,
        Err(e) => return Err(e),
    };
    if !is_turn_of(table.current_turn, role) {
        return Err(ErrorCode::NotYourTurn);
    }
    match role {
        Role::Player => {
            table.current_turn = Some(Role::Dealer);
            table.turn_deadline = now + TURN_TIMEOUT;
        },
        Role::Dealer => {
            table.state = TableState::Settled;
        },
    }
    Ok(())
}


/// The deck is publicly recomputable: two hands started from the same pair of
/// seeds at the same table id get the same 52 cards, in the same order.
pub proof fn lemma_deck_deterministic(
    creator_seed_a: [u8; 32],
    opponent_seed_a: [u8; 32],
    table_id_a: u64,
    creator_seed_b: [u8; 32],
    opponent_seed_b: [u8; 32],
    table_id_b: u64,
)
    requires
        creator_seed_a@ == creator_seed_b@,
        opponent_seed_a@ == opponent_seed_b@,
        table_id_a == table_id_b,
    ensures
        deck_for_seeds(creator_seed_a, opponent_seed_a, table_id_a)
            == deck_for_seeds(creator_seed_b, opponent_seed_b, table_id_b),
{
    assert(mix_input(creator_seed_a, opponent_seed_a, table_id_a) =~= mix_input(
        creator_seed_b,
        opponent_seed_b,
        table_id_b,
    ));
}

} // verus!
