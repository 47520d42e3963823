use coreum_fun::text::{calculate_win_chance, decimal_string, digit_str, next_digit};

#[test]
fn win_chance_of_nothing_is_zero() {
    assert_eq!(calculate_win_chance(0, 100), "0.00%");
    assert_eq!(calculate_win_chance(5, 0), "0.00%");
}

#[test]
fn win_chance_is_rounded_to_hundredths() {
    assert_eq!(calculate_win_chance(1, 3), "33.33%");
    assert_eq!(calculate_win_chance(2, 3), "66.67%");
    assert_eq!(calculate_win_chance(1, 1), "100.00%");
    assert_eq!(calculate_win_chance(1, 32), "3.12%");
    assert_eq!(calculate_win_chance(3, 32), "9.38%");
    assert_eq!(calculate_win_chance(50, 80), "62.50%");
    assert_eq!(calculate_win_chance(19999, 20000), "100.00%");
    assert_eq!(calculate_win_chance(u128::MAX, 1), "34028236692093846346337460743176821145500.00%");
    assert_eq!(calculate_win_chance(u128::MAX - 1, u128::MAX), "100.00%");
}

#[test]
fn numbers_are_written_in_base_ten() {
    assert_eq!(decimal_string(0), "0");
    assert_eq!(decimal_string(9), "9");
    assert_eq!(decimal_string(10), "10");
    assert_eq!(decimal_string(1_000_000), "1000000");
    assert_eq!(decimal_string(u128::MAX), "340282366920938463463374607431768211455");
    assert_eq!(digit_str(0), "0");
    assert_eq!(digit_str(7), "7");
    assert_eq!(next_digit(1, 3), (3, 1));
    assert_eq!(next_digit(2, 3), (6, 2));
    assert_eq!(next_digit(0, 1), (0, 0));
    assert_eq!(next_digit(u128::MAX - 1, u128::MAX), (9, u128::MAX - 10));
}

#[test]
fn win_chance_ties_go_to_the_even_hundredth() {
    // 0.125 % and 0.375 % lie half-way between two hundredths
    assert_eq!(calculate_win_chance(1, 800), "0.12%");
    assert_eq!(calculate_win_chance(3, 800), "0.38%");
    assert_eq!(calculate_win_chance(1, 100_000), "0.00%");
    assert_eq!(calculate_win_chance(1, 20_000), "0.00%");
    assert_eq!(calculate_win_chance(3, 20_000), "0.02%");
    assert_eq!(calculate_win_chance(7, 2), "350.00%");
    assert_eq!(calculate_win_chance(1, 500), "0.20%");
    assert_eq!(calculate_win_chance(u128::MAX, u128::MAX), "100.00%");
    assert_eq!(calculate_win_chance(1, u128::MAX), "0.00%");
    assert_eq!(calculate_win_chance(u128::MAX / 3, u128::MAX), "33.33%");
}

#[test]
fn win_chance_near_a_tie_goes_to_the_nearer_hundredth() {
    // just below and just above 0.005 %
    assert_eq!(calculate_win_chance(49_999, 1_000_000_000), "0.00%");
    assert_eq!(calculate_win_chance(50_000, 1_000_000_000), "0.00%");
    assert_eq!(calculate_win_chance(50_001, 1_000_000_000), "0.01%");
    // just below, at and just above 0.015 %
    assert_eq!(calculate_win_chance(149_999, 1_000_000_000), "0.01%");
    assert_eq!(calculate_win_chance(150_000, 1_000_000_000), "0.02%");
    assert_eq!(calculate_win_chance(150_001, 1_000_000_000), "0.02%");
    // 99.995 % lies half-way and goes up to the even hundredth
    assert_eq!(calculate_win_chance(19_999, 20_000), "100.00%");
    assert_eq!(calculate_win_chance(199_989, 200_000), "99.99%");
    assert_eq!(calculate_win_chance(199_991, 200_000), "100.00%");
    // counts beyond 2^53 keep all their digits
    let big = 1u128 << 100;
    assert_eq!(calculate_win_chance(big / 3, big), "33.33%");
    assert_eq!(calculate_win_chance(big / 8, big), "12.50%");
    assert_eq!(calculate_win_chance(big / 800, big), "0.12%");
    assert_eq!(calculate_win_chance(big / 800 + (1 << 40), big), "0.13%");
    assert_eq!(calculate_win_chance((1 << 53) + 1, 1 << 54), "50.00%");
}
