use soljack::settlement::{decide_outcome, settle_payout, Outcome};
use soljack::table::{create_table, ErrorCode, Role, TableAccount, TableState};

fn settled(creator_role: Role, creator_total: u8, opponent_total: u8) -> TableAccount {
    let mut t = create_table(250_000_000, creator_role, 9, [1u8; 32], 0, 0).unwrap();
    t.opponent = Some([2u8; 32]);
    t.state = TableState::Settled;
    t.creator_total = creator_total;
    t.opponent_total = opponent_total;
    t
}

#[test]
fn outcomes_from_totals() {
    assert_eq!(decide_outcome(22, 25), Outcome::DealerWins);
    assert_eq!(decide_outcome(20, 25), Outcome::PlayerWins);
    assert_eq!(decide_outcome(20, 19), Outcome::PlayerWins);
    assert_eq!(decide_outcome(17, 19), Outcome::DealerWins);
    assert_eq!(decide_outcome(18, 18), Outcome::Push);
    assert_eq!(decide_outcome(21, 21), Outcome::Push);
}

#[test]
fn payout_needs_a_settled_table() {
    let mut t = settled(Role::Dealer, 18, 18);
    t.state = TableState::Active;
    assert_eq!(settle_payout(&t), Err(ErrorCode::InvalidState));
}

#[test]
fn dealer_bust_pays_the_player() {
    let p = settle_payout(&settled(Role::Dealer, 25, 19)).unwrap();
    assert_eq!(p.outcome, Outcome::PlayerWins);
    assert_eq!(p.to_opponent, 500_000_000);
    assert_eq!(p.to_creator, 0);
}

#[test]
fn player_bust_pays_the_dealer() {
    let p = settle_payout(&settled(Role::Player, 24, 25)).unwrap();
    assert_eq!(p.outcome, Outcome::DealerWins);
    assert_eq!(p.to_opponent, 500_000_000);
    assert_eq!(p.to_creator, 0);
}

#[test]
fn push_returns_each_stake() {
    let p = settle_payout(&settled(Role::Player, 20, 20)).unwrap();
    assert_eq!(p.outcome, Outcome::Push);
    assert_eq!(p.to_creator, 250_000_000);
    assert_eq!(p.to_opponent, 250_000_000);
}

#[test]
fn higher_total_wins() {
    let p = settle_payout(&settled(Role::Player, 20, 17)).unwrap();
    assert_eq!(p.outcome, Outcome::PlayerWins);
    assert_eq!(p.to_creator + p.to_opponent, 500_000_000);
    assert_eq!(p.to_creator, 500_000_000);
}
