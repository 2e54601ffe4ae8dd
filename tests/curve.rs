use pinocchio_amm::curve::{deposit_amounts, swap, withdraw_amounts, CurveError};

#[test]
fn swap_x_for_y_with_thirty_bps_fee() {
    // 100 in, 99 counts after the fee; 2000 * 99 / 1099 = 180.
    assert_eq!(swap(1000, 2000, 30, 100, 1), Ok((100, 180)));
    let (_, withdraw) = swap(1000, 2000, 30, 100, 1).unwrap();
    assert!(withdraw < 200);
}

#[test]
fn swap_rejects_minimum_above_output() {
    assert_eq!(swap(1000, 2000, 30, 100, 180), Ok((100, 180)));
    assert_eq!(swap(1000, 2000, 30, 100, 181), Err(CurveError::SlippageExceeded));
}

#[test]
fn swap_rejects_zero_output() {
    assert_eq!(swap(1_000_000, 1, 30, 10, 1), Err(CurveError::ZeroOutput));
}

#[test]
fn swap_rejects_whole_fee_empty_pool_and_zero_input() {
    assert_eq!(swap(1000, 2000, 10_000, 100, 1), Err(CurveError::InvalidFee));
    assert_eq!(swap(0, 2000, 30, 100, 1), Err(CurveError::EmptyReserve));
    assert_eq!(swap(1000, 0, 30, 100, 1), Err(CurveError::EmptyReserve));
    assert_eq!(swap(1000, 2000, 30, 0, 1), Err(CurveError::ZeroInput));
}

#[test]
fn swap_without_fee_follows_the_product() {
    // 1000 * 1000 / (1000 + 1000) = 500.
    assert_eq!(swap(1000, 1000, 0, 1000, 1), Ok((1000, 500)));
}

#[test]
fn swap_keeps_product_on_examples() {
    let cases: [(u64, u64, u16, u64); 4] =
        [(1000, 2000, 30, 100), (5, 7, 0, 3), (1_000_000, 3, 9_999, 10_000_000_000), (1 << 60, 1 << 40, 1, 1 << 62)];
    for (rin, rout, fee, amount) in cases {
        let (d, w) = swap(rin, rout, fee, amount, 1).unwrap();
        assert!(w < rout);
        let before = rin as u128 * rout as u128;
        let after = (rin as u128 + d as u128) * (rout as u128 - w as u128);
        assert!(after >= before);
    }
}

#[test]
fn deposit_amounts_are_proportional_and_rounded_up() {
    // share 10 / 100 of (1000, 2000).
    assert_eq!(deposit_amounts(1000, 2000, 100, 10, 6), Ok((100, 200)));
    // share 1 / 3 at six digits rounds up to 0.333334: 1000 * 0.333334 = 333.334 -> 334.
    assert_eq!(deposit_amounts(1000, 3001, 3, 1, 6), Ok((334, 1001)));
    let (x, y) = deposit_amounts(1000, 3001, 3, 1, 6).unwrap();
    let cross = x as i128 * 3001 - y as i128 * 1000;
    assert!(cross < 3001 && -cross < 1000);
}

#[test]
fn deposit_amounts_errors() {
    assert_eq!(deposit_amounts(1000, 2000, 0, 10, 6), Err(CurveError::ZeroSupply));
    assert_eq!(deposit_amounts(1000, 2000, 100, 10, 19), Err(CurveError::InvalidPrecision));
    assert_eq!(deposit_amounts(u64::MAX, 1, 1, 2, 6), Err(CurveError::Overflow));
}

#[test]
fn withdraw_amounts_round_down() {
    assert_eq!(withdraw_amounts(1000, 2000, 100, 10, 6), Ok((100, 200)));
    // share 1 / 3 at six digits rounds down to 0.333333.
    assert_eq!(withdraw_amounts(1000, 3001, 3, 1, 6), Ok((333, 1000)));
}

#[test]
fn withdraw_everything_returns_the_reserves() {
    assert_eq!(withdraw_amounts(1001, 2003, 77, 77, 6), Ok((1001, 2003)));
}

#[test]
fn withdraw_amounts_errors() {
    assert_eq!(withdraw_amounts(1000, 2000, 100, 101, 6), Err(CurveError::ExcessiveBurn));
    assert_eq!(withdraw_amounts(1000, 2000, 0, 1, 6), Err(CurveError::ZeroSupply));
    assert_eq!(withdraw_amounts(1000, 2000, 100, 10, 40), Err(CurveError::InvalidPrecision));
}

#[test]
fn deposit_then_withdraw_gives_back_no_more() {
    let (rx, ry, l, a) = (1000u64, 3001u64, 3u64, 1u64);
    let (x, y) = deposit_amounts(rx, ry, l, a, 6).unwrap();
    let (x2, y2) = withdraw_amounts(rx + x, ry + y, l + a, a, 6).unwrap();
    assert!(x2 <= x && y2 <= y);
}

#[test]
fn partial_withdraw_never_empties_a_reserve() {
    assert_eq!(withdraw_amounts(5, 1_000_000, 100, 99, 6), Ok((4, 990_000)));
    assert_eq!(withdraw_amounts(1, 1, 2, 1, 6), Ok((0, 0)));
}
