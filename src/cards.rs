//! Card values, hand totals and the seeded Fisher-Yates shuffle.

use vstd::prelude::*;

verus! {

/// Number of cards in a deck.
pub const DECK_SIZE: usize = 52;

/// Totals above this value are busts.
pub const BUST_THRESHOLD: u8 = 21;

/// Play value of an ace counted high.
pub const ACE_HIGH: u8 = 11;

/// What counting an ace low instead of high takes off a total.
pub const ACE_SOFTENING: u8 = 10;

/// The unshuffled deck: identities `1..=52` in order.
pub open spec fn fresh_deck() -> Seq<u8> {
    Seq::new(52, |k: int| (k + 1) as u8)
}

/// Exchanges the entries at `i` and `j`.
pub open spec fn swap_at(s: Seq<u8>, i: int, j: int) -> Seq<u8> {
    s.update(i, s[j]).update(j, s[i])
}

/// Swap partner of position `i`: the seed byte at `i mod len(seed)`, reduced mod `i + 1`.
pub open spec fn swap_partner(seed: Seq<u8>, i: int) -> int {
    (seed[i % seed.len() as int] as int) % (i + 1)
}

/// Fisher-Yates steps for positions `i` down to `1`.
pub open spec fn shuffle_from(deck: Seq<u8>, seed: Seq<u8>, i: int) -> Seq<u8>
    decreases i,
{
    if i < 1 {
        deck
    } else {
        shuffle_from(swap_at(deck, i, swap_partner(seed, i)), seed, i - 1)
    }
}

/// The permutation of identities that `seed` selects.
pub open spec fn shuffled_identities(seed: Seq<u8>) -> Seq<u8> {
    shuffle_from(fresh_deck(), seed, 51)
}

/// Play value of a card identity: rank `((id - 1) mod 13) + 1`, aces high,
/// court cards ten.
pub open spec fn card_value(id: u8) -> u8 {
    let rank = (id as int - 1) % 13 + 1;
    if rank == 1 {
        11
    } else if rank > 10 {
        10
    } else {
        rank as u8
    }
}

/// The deck of play values that `seed` selects.
pub open spec fn shuffled_values(seed: Seq<u8>) -> Seq<u8> {
    shuffled_identities(seed).map_values(|id: u8| card_value(id))
}

/// Sum of the card values in a hand.
pub open spec fn raw_sum(hand: Seq<u8>) -> int
    decreases hand.len(),
{
    if hand.len() == 0 {
        0
    } else {
        raw_sum(hand.drop_last()) + hand.last() as int
    }
}

/// Number of high aces in a hand.
pub open spec fn ace_count(hand: Seq<u8>) -> int
    decreases hand.len(),
{
    if hand.len() == 0 {
        0
    } else {
        ace_count(hand.drop_last()) + if hand.last() == 11 { 1int } else { 0 }
    }
}

/// While the total is over 21 and an ace is still counted high, count it low.
pub open spec fn soften(total: int, aces: int) -> int
    decreases aces,
{
    if total > 21 && aces > 0 {
        soften(total - 10, aces - 1)
    } else {
        total
    }
}

/// Blackjack total of a hand.
pub open spec fn hand_value(hand: Seq<u8>) -> int {
    soften(raw_sum(hand), ace_count(hand))
}

/// Softening never raises a total.
pub proof fn lemma_soften_le(total: int, aces: int)
    ensures
        soften(total, aces) <= total,
    decreases aces,
{
    if total > 21 && aces > 0 {
        lemma_soften_le(total - 10, aces - 1);
    }
}

/// One more high ace never raises the softened total.
proof fn lemma_soften_more_aces(total: int, aces: int)
    requires
        aces >= 0,
    ensures
        soften(total, aces + 1) <= soften(total, aces),
    decreases aces,
{
    if total > 21 {
        if aces == 0 {
            lemma_soften_le(total - 10, 0);
        } else {
            lemma_soften_more_aces(total - 10, aces - 1);
        }
    }
}

/// Adding `c` to the raw total raises the softened total by at most `c`.
proof fn lemma_soften_add(total: int, c: int, aces: int)
    requires
        c >= 0,
    ensures
        soften(total + c, aces) <= soften(total, aces) + c,
    decreases aces,
{
    if total + c > 21 && aces > 0 {
        if total > 21 {
            lemma_soften_add(total - 10, c, aces - 1);
        } else {
            lemma_soften_le(total + c - 10, aces - 1);
        }
    }
}

/// Drawing card `c` raises a hand's total by at most `c`.
pub proof fn lemma_hand_value_push(hand: Seq<u8>, c: u8)
    ensures
        raw_sum(hand.push(c)) == raw_sum(hand) + c,
        ace_count(hand.push(c)) == ace_count(hand) + if c == 11 { 1int } else { 0 },
        hand_value(hand.push(c)) <= hand_value(hand) + c,
{
    assert(hand.push(c).drop_last() =~= hand);
    lemma_ace_count_nonneg(hand);
    lemma_soften_add(raw_sum(hand), c as int, ace_count(hand));
    if c == 11 {
        lemma_soften_more_aces(raw_sum(hand) + c, ace_count(hand));
    }
}

/// A hand holds no more high aces than cards.
proof fn lemma_ace_count_nonneg(hand: Seq<u8>)
    ensures
        0 <= ace_count(hand) <= hand.len(),
    decreases hand.len(),
{
    if hand.len() > 0 {
        lemma_ace_count_nonneg(hand.drop_last());
    }
}

/// Total of a hand: the sum of its values, with aces counted low one at a
/// time while the total is over 21.
pub fn calculate_hand_value(hand: &Vec<u8>) -> (total: u8)
    requires
        hand@.len() <= DECK_SIZE,
        hand_value(hand@) <= u8::MAX,
    ensures
        total == hand_value(hand@),
{
    let mut sum: u64 = 0;
    let mut aces: u64 = 0;
    let mut k: usize = 0;
    while k < hand.len()
        invariant
            k <= hand@.len() <= DECK_SIZE,
            sum == raw_sum(hand@.take(k as int)),
            aces == ace_count(hand@.take(k as int)),
            sum <= 255 * k,
            aces <= k,
        decreases hand@.len() - k,
    {
        proof {
            assert(hand@.take(k as int + 1) =~= hand@.take(k as int).push(hand@[k as int]));
            lemma_hand_value_push(hand@.take(k as int), hand@[k as int]);
        }
        sum = sum + hand[k] as u64;
        if hand[k] == ACE_HIGH {
            aces = aces + 1;
        }
        k = k + 1;
    }
    assert(hand@.take(k as int) =~= hand@);
    while sum > BUST_THRESHOLD as u64 && aces > 0
        invariant
            soften(sum as int, aces as int) == hand_value(hand@),
        decreases aces,
    {
        sum = sum - ACE_SOFTENING as u64;
        aces = aces - 1;
    }
    sum as u8
}

/// Play value of card identity `id`.
pub fn card_value_of(id: u8) -> (value: u8)
    requires
        id >= 1,
    ensures
        value == card_value(id),
{
    let rank = (id - 1) % 13 + 1;
    if rank == 1 {
        ACE_HIGH
    } else if rank > 10 {
        10
    } else {
        rank
    }
}


/// The deck in identity order, `1..=52`.
fn fresh_identities() -> (deck: Vec<u8>)
    ensures
        deck@ == fresh_deck(),
{
    let mut deck: Vec<u8> = Vec::new();
    let mut id: u8 = 1;
    while id <= 52
        invariant
            1 <= id <= 53,
            deck@.len() == id - 1,
            forall|k: int| 0 <= k < deck@.len() ==> deck@[k] == k + 1,
        decreases 53 - id,
    {
        deck.push(id);
        id = id + 1;
    }
    assert(deck@ =~= fresh_deck());
    deck
}

/// Fisher-Yates shuffle of the identities `1..=52`: from the last position
/// down to position 1, position `i` trades places with position
/// `seed[i % 32] % (i + 1)`.
pub fn shuffle_identities(seed: &[u8; 32]) -> (deck: Vec<u8>)
    ensures
        deck@ == shuffled_identities(seed@),
{
    let mut deck = fresh_identities();
    let mut i: usize = DECK_SIZE - 1;
    while i >= 1
        invariant
            i <= 51,
            deck@.len() == 52,
            seed@.len() == 32,
            shuffle_from(deck@, seed@, i as int) == shuffled_identities(seed@),
        decreases i,
    {
        let ghost before = deck@;
        let j: usize = (seed[i % 32] as usize) % (i + 1);
        let a = deck[i];
        let b = deck[j];
        deck[i] = b;
        deck[j] = a;
        assert(deck@ =~= swap_at(before, i as int, swap_partner(seed@, i as int)));
        i = i - 1;
    }
    deck
}

/// The deck of play values for `seed`: the shuffled identities, each mapped
/// to its play value.
pub fn shuffle_values(seed: &[u8; 32]) -> (deck: Vec<u8>)
    ensures
        deck@ == shuffled_values(seed@),
        deck@.len() == 52,
        forall|k: int| 0 <= k < 52 ==> 2 <= #[trigger] deck@[k] <= 11,
{
    let ids = shuffle_identities(seed);
    proof {
        lemma_shuffle_is_permutation(seed@);
    }
    let mut deck: Vec<u8> = Vec::new();
    let mut k: usize = 0;
    while k < ids.len()
        invariant
            k <= ids@.len() == 52,
            ids@ == shuffled_identities(seed@),
            forall|x: int| 0 <= x < 52 ==> 1 <= #[trigger] ids@[x] <= 52,
            deck@ =~= ids@.take(k as int).map_values(|id: u8| card_value(id)),
        decreases ids@.len() - k,
    {
        let v = card_value_of(ids[k]);
        deck.push(v);
        k = k + 1;
        assert(deck@ =~= ids@.take(k as int).map_values(|id: u8| card_value(id)));
    }
    assert(ids@.take(52) =~= ids@);
    assert forall|k: int| 0 <= k < 52 implies 2 <= #[trigger] deck@[k] <= 11 by {
        assert(deck@[k] == card_value(ids@[k]));
    }
    deck
}

/// Shuffling keeps the deck's identities: a fresh deck and every step of the
/// shuffle hold the same multiset, each identity `1..=52` once.
proof fn lemma_shuffle_from_permutes(deck: Seq<u8>, seed: Seq<u8>, i: int)
    requires
        deck.len() == 52,
        seed.len() > 0,
        i <= 51,
        deck.no_duplicates(),
        forall|k: int| 0 <= k < 52 ==> 1 <= #[trigger] deck[k] <= 52,
    ensures
        shuffle_from(deck, seed, i).to_multiset() == deck.to_multiset(),
        shuffle_from(deck, seed, i).no_duplicates(),
        shuffle_from(deck, seed, i).len() == 52,
        forall|k: int| 0 <= k < 52 ==> 1 <= #[trigger] shuffle_from(deck, seed, i)[k] <= 52,
    decreases i,
{
    if i >= 1 {
        let j = swap_partner(seed, i);
        let next = swap_at(deck, i, j);
        assert(0 <= j <= i);
        assert(next.to_multiset() == deck.to_multiset()) by {
            broadcast use vstd::seq_lib::to_multiset_update;
            broadcast use vstd::multiset::group_multiset_axioms;
            let mid = deck.update(i, deck[j]);
            assert(mid.to_multiset() == deck.to_multiset().insert(deck[j]).remove(deck[i]));
            assert(next.to_multiset() == mid.to_multiset().insert(deck[i]).remove(mid[j]));
            if i == j {
                assert(next =~= deck);
            } else {
                assert(mid[j] == deck[j]);
                let m = deck.to_multiset();
                assert(m.count(deck[i]) >= 1) by {
                    broadcast use vstd::seq_lib::to_multiset_contains;
                    assert(deck.contains(deck[i]));
                }
                assert forall|v: u8| #[trigger] next.to_multiset().count(v) == m.count(v) by {}
                assert(next.to_multiset() =~= m);
            }
        }
        assert(next.no_duplicates()) by {
            assert forall|x: int, y: int| 0 <= x < next.len() && 0 <= y < next.len() && x != y
                implies next[x] != next[y] by {
                let sx = if x == i { j } else if x == j { i } else { x };
                let sy = if y == i { j } else if y == j { i } else { y };
                assert(next[x] == deck[sx]);
                assert(next[y] == deck[sy]);
            }
        }
        assert forall|k: int| 0 <= k < 52 implies 1 <= #[trigger] next[k] <= 52 by {
            let sk = if k == i { j } else if k == j { i } else { k };
            assert(next[k] == deck[sk]);
        }
        lemma_shuffle_from_permutes(next, seed, i - 1);
    }
}

/// Every shuffle is a permutation of the identities `1..=52`: the multiset of
/// identities is the fresh deck's, with no identity twice and none missing.
pub proof fn lemma_shuffle_is_permutation(seed: Seq<u8>)
    requires
        seed.len() == 32,
    ensures
        shuffled_identities(seed).to_multiset() == fresh_deck().to_multiset(),
        shuffled_identities(seed).no_duplicates(),
        shuffled_identities(seed).len() == 52,
        forall|k: int| 0 <= k < 52 ==> 1 <= #[trigger] shuffled_identities(seed)[k] <= 52,
        forall|id: u8| 1 <= id <= 52 ==> shuffled_identities(seed).contains(id),
{
    let d = fresh_deck();
    assert forall|k: int| 0 <= k < 52 implies 1 <= #[trigger] d[k] <= 52 by {}
    lemma_shuffle_from_permutes(d, seed, 51);
    let s = shuffled_identities(seed);
    assert forall|id: u8| 1 <= id <= 52 implies s.contains(id) by {
        broadcast use vstd::seq_lib::to_multiset_contains;
        assert(d[id as int - 1] == id);
        assert(d.contains(id));
        assert(d.to_multiset().contains(id));
        assert(s.to_multiset().contains(id));
    }
}

/// The shuffle is a function of the seed alone: equal seeds give equal decks.
pub proof fn lemma_shuffle_deterministic(seed_a: Seq<u8>, seed_b: Seq<u8>)
    requires
        seed_a == seed_b,
    ensures
        shuffled_identities(seed_a) == shuffled_identities(seed_b),
        shuffled_values(seed_a) == shuffled_values(seed_b),
{
}


/// A hand of two cards valued `2..=11` never busts: two aces make 12.
pub proof fn lemma_two_card_hand(a: u8, b: u8)
    requires
        2 <= a <= 11,
        2 <= b <= 11,
    ensures
        hand_value(seq![a, b]) <= 21,
{
    let h = seq![a, b];
    assert(h.drop_last() =~= seq![a]);
    assert(seq![a].drop_last() =~= Seq::<u8>::empty());
    reveal_with_fuel(raw_sum, 3);
    reveal_with_fuel(ace_count, 3);
    reveal_with_fuel(soften, 3);
}

/// Bust resolution: a hand holding one high ace whose values add up to 23
/// totals 13, the ace counted as 1.
pub proof fn lemma_one_ace_resolves(hand: Seq<u8>)
    requires
        ace_count(hand) == 1,
        raw_sum(hand) == 23,
    ensures
        hand_value(hand) == 13,
{
    reveal_with_fuel(soften, 2);
}

} // verus!
