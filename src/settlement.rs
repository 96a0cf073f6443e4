//! Who wins a settled table, and how the escrowed stakes are paid out.

use vstd::prelude::*;
use crate::table::{ErrorCode, Role, TableAccount, TableState};

verus! {

/// Result of a settled hand.
#[derive(Clone, Copy, PartialEq, Eq, Debug, Structural)]
pub enum Outcome {
    DealerWins,
    PlayerWins,
    Push,
}

/// What the table pays each party out of the two stakes it holds.
#[derive(Clone, Copy, PartialEq, Eq, Debug, Structural)]
pub struct Payout {
    pub outcome: Outcome,
    pub to_creator: u64,
    pub to_opponent: u64,
}

/// Outcome from the two totals: a busted Player loses first, then a busted
/// Dealer loses, otherwise the higher total wins and equal totals push.
pub open spec fn outcome_of(player_total: u8, dealer_total: u8) -> Outcome {
    if player_total > 21 {
        Outcome::DealerWins
    } else if dealer_total > 21 {
        Outcome::PlayerWins
    } else if player_total > dealer_total {
        Outcome::PlayerWins
    } else if dealer_total > player_total {
        Outcome::DealerWins
    } else {
        Outcome::Push
    }
}

/// The total of the party that plays `role`.
pub open spec fn total_of(t: TableAccount, role: Role) -> u8 {
    if t.creator_role == role { t.creator_total } else { t.opponent_total }
}

/// The outcome of table `t`.
pub open spec fn table_outcome(t: TableAccount) -> Outcome {
    outcome_of(total_of(t, Role::Player), total_of(t, Role::Dealer))
}

/// The share of the pot `2 * bet` that the party playing `role` receives.
pub open spec fn share_of(outcome: Outcome, role: Role, bet: int) -> int {
    match outcome {
        Outcome::Push => bet,
        Outcome::PlayerWins => if role == Role::Player { 2 * bet } else { 0 },
        Outcome::DealerWins => if role == Role::Dealer { 2 * bet } else { 0 },
    }
}

/// The outcome of two totals.
pub fn decide_outcome(player_total: u8, dealer_total: u8) -> (r: Outcome)
    ensures
        r == outcome_of(player_total, dealer_total),
{
    if player_total > 21 {
        Outcome::DealerWins
    } else if dealer_total > 21 {
        Outcome::PlayerWins
    } else if player_total > dealer_total {
        Outcome::PlayerWins
    } else if dealer_total > player_total {
        Outcome::DealerWins
    } else {
        Outcome::Push
    }
}

/// The payout of a settled table: the winner takes both stakes, a push
/// returns each stake. Fails with `InvalidState` on a table not settled.
pub fn settle_payout(table: &TableAccount) -> (r: Result<Payout, ErrorCode>)
    requires
        table.bet_amount <= u64::MAX / 2,
    ensures
        r is Err <==> table.state != TableState::Settled,
        r is Err ==> r == Err::<Payout, ErrorCode>(ErrorCode::InvalidState),
        r matches Ok(p) ==> {
            &&& p.outcome == table_outcome(*table)
            &&& p.to_creator == share_of(p.outcome, table.creator_role, table.bet_amount as int)
            &&& p.to_opponent == share_of(
                p.outcome,
                crate::table::other_role(table.creator_role),
                table.bet_amount as int,
            )
        },
{
    if table.state != TableState::Settled {
        return Err(ErrorCode::InvalidState);
    }
    let (player_total, dealer_total) = match table.creator_role {
        Role::Player => (table.creator_total, table.opponent_total),
        Role::Dealer => (table.opponent_total, table.creator_total),
    };
    let outcome = decide_outcome(player_total, dealer_total);
    let bet = table.bet_amount;
    let (to_creator, to_opponent) = match (outcome, table.creator_role) {
        (Outcome::Push, _) => (bet, bet),
        (Outcome::PlayerWins, Role::Player) => (2 * bet, 0),
        (Outcome::PlayerWins, Role::Dealer) => (0, 2 * bet),
        (Outcome::DealerWins, Role::Dealer) => (2 * bet, 0),
        (Outcome::DealerWins, Role::Player) => (0, 2 * bet),
    };
    Ok(Payout { outcome, to_creator, to_opponent })
}

/// The payout moves exactly the two stakes: whatever the outcome, what the
/// creator and the opponent receive adds up to twice the bet.
pub proof fn lemma_payout_conserves_pot(outcome: Outcome, creator_role: Role, bet: int)
    ensures
        share_of(outcome, creator_role, bet) + share_of(outcome, crate::table::other_role(creator_role), bet)
            == 2 * bet,
{
}

} // verus!
