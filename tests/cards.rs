use soljack::cards::{calculate_hand_value, card_value_of, shuffle_identities, shuffle_values};

#[test]
fn card_values_follow_rank() {
    assert_eq!(card_value_of(1), 11);
    assert_eq!(card_value_of(2), 2);
    assert_eq!(card_value_of(10), 10);
    assert_eq!(card_value_of(11), 10);
    assert_eq!(card_value_of(13), 10);
    assert_eq!(card_value_of(14), 11);
    assert_eq!(card_value_of(40), 11);
    assert_eq!(card_value_of(52), 10);
}

#[test]
fn hand_with_one_ace_resolves_to_thirteen() {
    assert_eq!(calculate_hand_value(&vec![11, 5, 7]), 13);
    assert_eq!(calculate_hand_value(&vec![5, 11, 7]), 13);
    assert_eq!(calculate_hand_value(&vec![7, 5, 11]), 13);
}

#[test]
fn hand_values_soften_aces() {
    assert_eq!(calculate_hand_value(&vec![]), 0);
    assert_eq!(calculate_hand_value(&vec![11, 11]), 12);
    assert_eq!(calculate_hand_value(&vec![11, 10]), 21);
    assert_eq!(calculate_hand_value(&vec![10, 10, 5]), 25);
    assert_eq!(calculate_hand_value(&vec![11, 11, 11, 10]), 13);
    assert_eq!(calculate_hand_value(&vec![10, 9, 5]), 24);
}

#[test]
fn hand_value_is_stable_on_recompute() {
    let hand = vec![11, 6, 9, 2];
    assert_eq!(calculate_hand_value(&hand), 18);
    assert_eq!(calculate_hand_value(&hand), calculate_hand_value(&hand));
}

#[test]
fn zero_seed_rotates_the_deck() {
    let deck = shuffle_identities(&[0u8; 32]);
    let mut expected: Vec<u8> = (2..=52).collect();
    expected.push(1);
    assert_eq!(deck, expected);
}

#[test]
fn counting_seed_gives_known_order() {
    let mut seed = [0u8; 32];
    for (k, b) in seed.iter_mut().enumerate() {
        *b = k as u8;
    }
    let expected_ids: Vec<u8> = vec![
        33, 34, 35, 36, 37, 38, 39, 40, 41, 42, 43, 44, 45, 46, 47, 48, 49, 50, 51, 52, 21, 22,
        23, 24, 25, 26, 27, 28, 29, 30, 31, 32, 1, 2, 3, 4, 5, 6, 7, 8, 9, 10, 11, 12, 13, 14, 15,
        16, 17, 18, 19, 20,
    ];
    let expected_values: Vec<u8> = vec![
        7, 8, 9, 10, 10, 10, 10, 11, 2, 3, 4, 5, 6, 7, 8, 9, 10, 10, 10, 10, 8, 9, 10, 10, 10, 10,
        11, 2, 3, 4, 5, 6, 11, 2, 3, 4, 5, 6, 7, 8, 9, 10, 10, 10, 10, 11, 2, 3, 4, 5, 6, 7,
    ];
    assert_eq!(shuffle_identities(&seed), expected_ids);
    assert_eq!(shuffle_values(&seed), expected_values);
}

#[test]
fn shuffle_is_a_permutation() {
    for fill in [0u8, 7, 99, 200, 255] {
        let mut seed = [fill; 32];
        seed[3] = fill.wrapping_mul(31);
        seed[17] = fill.wrapping_add(5);
        let mut deck = shuffle_identities(&seed);
        assert_eq!(deck.len(), 52);
        deck.sort();
        let all: Vec<u8> = (1..=52).collect();
        assert_eq!(deck, all);
    }
}

#[test]
fn shuffle_is_deterministic() {
    let seed = [42u8; 32];
    assert_eq!(shuffle_identities(&seed), shuffle_identities(&seed));
    assert_eq!(shuffle_values(&seed), shuffle_values(&seed));
}

#[test]
fn shuffled_values_hold_four_aces() {
    let deck = shuffle_values(&[9u8; 32]);
    assert_eq!(deck.iter().filter(|v| **v == 11).count(), 4);
    assert_eq!(deck.iter().filter(|v| **v == 10).count(), 16);
    assert!(deck.iter().all(|v| (2..=11).contains(v)));
}
