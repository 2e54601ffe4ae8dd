//! The liquidity curve: how many reserve tokens a liquidity amount is worth,
//! and what a swap pays out, in integer arithmetic.
//!
//! Deposits round up and withdrawals round down, so that rounding never
//! takes value out of the pool. A swap is priced from the two reserves and
//! the fee alone: the liquidity supply plays no part in it.
use vstd::prelude::*;

verus! {

/// Basis points in one whole: a fee of `FEE_DENOMINATOR` would keep all of the input.
pub const FEE_DENOMINATOR: u64 = 10_000;

/// The finest fixed-point precision the curve computes with.
pub const MAX_DECIMALS: u8 = 18;

/// Why the curve refused to compute.
#[derive(Debug, Clone, Copy, PartialEq, Eq, Structural)]
pub enum CurveError {
    /// The fixed-point precision is finer than `MAX_DECIMALS`.
    InvalidPrecision,
    /// The liquidity supply is zero, so no share of it can be priced.
    ZeroSupply,
    /// More liquidity is burnt than exists.
    ExcessiveBurn,
    /// A result does not fit in 64 bits.
    Overflow,
    /// The fee is a whole or more.
    InvalidFee,
    /// One side of the pool is empty, so it has no price.
    EmptyReserve,
    /// A swap of nothing.
    ZeroInput,
    /// The swap would pay out nothing.
    ZeroOutput,
    /// The swap pays out less than the caller's minimum.
    SlippageExceeded,
}

/// `10` to the power `n`.
pub open spec fn pow10(n: nat) -> nat
    decreases n,
{
    if n == 0 {
        1
    } else {
        10 * pow10((n - 1) as nat)
    }
}

/// `a / b` rounded up, for `b > 0`.
pub open spec fn ceil_div(a: int, b: int) -> int {
    (a + b - 1) / b
}

/// The fixed-point scale of `decimals` digits.
pub open spec fn scale(decimals: u8) -> int {
    pow10(decimals as nat) as int
}

/// The share `amount / lp_supply` as a fixed-point number, rounded up.
pub open spec fn share_up(lp_supply: u64, amount: u64, decimals: u8) -> int {
    ceil_div(amount * scale(decimals), lp_supply as int)
}

/// The share `amount / lp_supply` as a fixed-point number, rounded down.
pub open spec fn share_down(lp_supply: u64, amount: u64, decimals: u8) -> int {
    (amount * scale(decimals)) / (lp_supply as int)
}

/// What a deposit minting `amount` liquidity costs, on reserves `(rx, ry)`
/// backed by `lp_supply` liquidity: each reserve times the share, both
/// rounded up so that the pool never gives value away.
pub open spec fn deposit_amounts_spec(
    rx: u64,
    ry: u64,
    lp_supply: u64,
    amount: u64,
    decimals: u8,
) -> Result<(u64, u64), CurveError> {
    if decimals > MAX_DECIMALS {
        Err(CurveError::InvalidPrecision)
    } else if lp_supply == 0 {
        Err(CurveError::ZeroSupply)
    } else {
        let ratio = share_up(lp_supply, amount, decimals);
        let x = ceil_div(rx * ratio, scale(decimals));
        let y = ceil_div(ry * ratio, scale(decimals));
        if x > u64::MAX || y > u64::MAX {
            Err(CurveError::Overflow)
        } else {
            Ok((x as u64, y as u64))
        }
    }
}

/// What burning `amount` of `lp_supply` liquidity returns from reserves
/// `(rx, ry)`: all of them when the whole supply is burnt, else each reserve
/// times the share, both rounded down.
pub open spec fn withdraw_amounts_spec(
    rx: u64,
    ry: u64,
    lp_supply: u64,
    amount: u64,
    decimals: u8,
) -> Result<(u64, u64), CurveError> {
    if decimals > MAX_DECIMALS {
        Err(CurveError::InvalidPrecision)
    } else if lp_supply == 0 {
        Err(CurveError::ZeroSupply)
    } else if amount > lp_supply {
        Err(CurveError::ExcessiveBurn)
    } else if amount == lp_supply {
        Ok((rx, ry))
    } else {
        let ratio = share_down(lp_supply, amount, decimals);
        let x = (rx * ratio) / scale(decimals);
        let y = (ry * ratio) / scale(decimals);
        Ok((x as u64, y as u64))
    }
}

/// The input that counts toward the curve once the fee is taken, rounded down.
pub open spec fn amount_after_fee(amount: u64, fee: u16) -> int {
    (amount * (FEE_DENOMINATOR - fee)) / (FEE_DENOMINATOR as int)
}

/// The output of a swap: the largest `w` with
/// `(reserve_in + net) * (reserve_out - w) >= reserve_in * reserve_out`.
pub open spec fn swap_output(reserve_in: u64, reserve_out: u64, net: int) -> int {
    (reserve_out * net) / (reserve_in + net)
}

/// A swap of `amount` into a pool with reserves `(reserve_in, reserve_out)`
/// and a fee of `fee` basis points: the whole input is deposited, and the
/// output is solved from the constant product on the input net of the fee.
pub open spec fn swap_spec(
    reserve_in: u64,
    reserve_out: u64,
    fee: u16,
    amount: u64,
    min_out: u64,
) -> Result<(u64, u64), CurveError> {
    if fee >= FEE_DENOMINATOR {
        Err(CurveError::InvalidFee)
    } else if reserve_in == 0 || reserve_out == 0 {
        Err(CurveError::EmptyReserve)
    } else if amount == 0 {
        Err(CurveError::ZeroInput)
    } else {
        let w = swap_output(reserve_in, reserve_out, amount_after_fee(amount, fee));
        if w == 0 {
            Err(CurveError::ZeroOutput)
        } else if w < min_out {
            Err(CurveError::SlippageExceeded)
        } else {
            Ok((amount, w as u64))
        }
    }
}

proof fn lemma_pow10_bound(n: nat)
    requires
        n <= 18,
    ensures
        1 <= pow10(n) <= 1_000_000_000_000_000_000,
{
    lemma_pow10_monotone(0, n);
    lemma_pow10_monotone(n, 18);
    reveal_with_fuel(pow10, 19);
}

proof fn lemma_pow10_monotone(a: nat, b: nat)
    requires
        a <= b,
    ensures
        pow10(a) <= pow10(b),
    decreases b,
{
    if a < b {
        lemma_pow10_monotone(a, (b - 1) as nat);
    }
}

/// `10` to the power `decimals`, for a precision the curve accepts.
fn pow10_u128(decimals: u8) -> (r: u128)
    requires
        decimals <= MAX_DECIMALS,
    ensures
        r == scale(decimals),
        1 <= r <= 1_000_000_000_000_000_000,
{
    let mut r: u128 = 1;
    let mut i: u8 = 0;
    while i < decimals
        invariant
            i <= decimals <= MAX_DECIMALS,
            r == pow10(i as nat),
        decreases decimals - i,
    {
        proof {
            lemma_pow10_bound(i as nat);
        }
        r = r * 10;
        i = i + 1;
    }
    proof {
        lemma_pow10_bound(decimals as nat);
    }
    r
}

/// `k <= m / p` whenever `k * p <= m`.
proof fn lemma_div_at_least(m: int, p: int, k: int)
    requires
        p > 0,
        k * p <= m,
    ensures
        k <= m / p,
{
    assert(k <= m / p) by (nonlinear_arith)
        requires
            p > 0,
            k * p <= m,
    ;
}

/// `c * a / b <= c` whenever `a <= b`.
proof fn lemma_scaled_fraction_le(c: int, a: int, b: int)
    requires
        0 <= c,
        0 <= a <= b,
        0 < b,
    ensures
        0 <= (c * a) / b <= c,
{
    assert(c * a <= c * b) by (nonlinear_arith)
        requires
            0 <= c,
            a <= b,
    ;
    assert(0 <= c * a) by (nonlinear_arith)
        requires
            0 <= c,
            0 <= a,
    ;
    assert((c * a) / b <= (c * b) / b) by {
        vstd::arithmetic::div_mod::lemma_div_is_ordered(c * a, c * b, b);
    }
    assert((c * b) / b == c) by {
        vstd::arithmetic::div_mod::lemma_div_by_multiple(c, b);
    }
    vstd::arithmetic::div_mod::lemma_div_pos_is_pos(c * a, b);
}

/// `reserve * ratio / p` rounded up, or `None` when that exceeds 64 bits.
fn scale_up(reserve: u64, ratio: u128, p: u128) -> (r: Option<u64>)
    requires
        1 <= p <= 1_000_000_000_000_000_000,
    ensures
        r == (if ceil_div(reserve * ratio, p as int) <= u64::MAX {
            Some(ceil_div(reserve * ratio, p as int) as u64)
        } else {
            None::<u64>
        }),
{
    let ghost k: int = u64::MAX as int + 1;
    assert(k * p <= k * 1_000_000_000_000_000_000) by (nonlinear_arith)
        requires
            p <= 1_000_000_000_000_000_000,
            k > 0,
    ;
    assert(0 <= reserve * ratio) by (nonlinear_arith);
    let prod = (reserve as u128).checked_mul(ratio);
    match prod {
        None => {
            proof {
                lemma_div_at_least(reserve * ratio + p - 1, p as int, k);
            }
            None
        },
        Some(n) => {
            if n > u128::MAX - (p - 1) {
                proof {
                    lemma_div_at_least(reserve * ratio + p - 1, p as int, k);
                }
                None
            } else {
                let q = (n + (p - 1)) / p;
                if q > u64::MAX as u128 {
                    None
                } else {
                    Some(q as u64)
                }
            }
        },
    }
}

/// The reserve tokens that a deposit minting `amount` liquidity must bring,
/// on reserves `(rx, ry)` backed by `lp_supply` liquidity, computed at a
/// fixed-point precision of `decimals` digits.
pub fn deposit_amounts(rx: u64, ry: u64, lp_supply: u64, amount: u64, decimals: u8) -> (r: Result<
    (u64, u64),
    CurveError,
>)
    ensures
        r == deposit_amounts_spec(rx, ry, lp_supply, amount, decimals),
{
    if decimals > MAX_DECIMALS {
        return Err(CurveError::InvalidPrecision);
    }
    if lp_supply == 0 {
        return Err(CurveError::ZeroSupply);
    }
    let p = pow10_u128(decimals);
    assert(amount * p <= 0xffff_ffff_ffff_ffff * 1_000_000_000_000_000_000) by (nonlinear_arith)
        requires
            p <= 1_000_000_000_000_000_000,
            amount <= 0xffff_ffff_ffff_ffff,
    ;
    let num = (amount as u128) * p;
    let l = lp_supply as u128;
    let ratio = (num + (l - 1)) / l;
    let x = match scale_up(rx, ratio, p) {
        Some(x) => x,
        None => {
            return Err(CurveError::Overflow);
        },
    };
    let y = match scale_up(ry, ratio, p) {
        Some(y) => y,
        None => {
            return Err(CurveError::Overflow);
        },
    };
    Ok((x, y))
}

/// The reserve tokens that burning `amount` of `lp_supply` liquidity returns
/// from reserves `(rx, ry)`, computed at a fixed-point precision of
/// `decimals` digits.
pub fn withdraw_amounts(rx: u64, ry: u64, lp_supply: u64, amount: u64, decimals: u8) -> (r: Result<
    (u64, u64),
    CurveError,
>)
    ensures
        r == withdraw_amounts_spec(rx, ry, lp_supply, amount, decimals),
{
    if decimals > MAX_DECIMALS {
        return Err(CurveError::InvalidPrecision);
    }
    if lp_supply == 0 {
        return Err(CurveError::ZeroSupply);
    }
    if amount > lp_supply {
        return Err(CurveError::ExcessiveBurn);
    }
    if amount == lp_supply {
        return Ok((rx, ry));
    }
    let p = pow10_u128(decimals);
    let l = lp_supply as u128;
    proof {
        lemma_scaled_fraction_le(p as int, amount as int, lp_supply as int);
        assert(p * amount == amount * p) by (nonlinear_arith);
        assert(amount * p <= 0xffff_ffff_ffff_ffff * 1_000_000_000_000_000_000) by (nonlinear_arith)
            requires
                p <= 1_000_000_000_000_000_000,
                amount <= 0xffff_ffff_ffff_ffff,
        ;
    }
    let ratio = ((amount as u128) * p) / l;
    proof {
        lemma_scaled_fraction_le(rx as int, ratio as int, p as int);
        lemma_scaled_fraction_le(ry as int, ratio as int, p as int);
        assert(rx * ratio <= rx * p) by (nonlinear_arith)
            requires
                ratio <= p,
        ;
        assert(ry * ratio <= ry * p) by (nonlinear_arith)
            requires
                ratio <= p,
        ;
        assert(rx * p <= 0xffff_ffff_ffff_ffff * 1_000_000_000_000_000_000) by (nonlinear_arith)
            requires
                p <= 1_000_000_000_000_000_000,
                rx <= 0xffff_ffff_ffff_ffff,
        ;
        assert(ry * p <= 0xffff_ffff_ffff_ffff * 1_000_000_000_000_000_000) by (nonlinear_arith)
            requires
                p <= 1_000_000_000_000_000_000,
                ry <= 0xffff_ffff_ffff_ffff,
        ;
    }
    let x = ((rx as u128) * ratio) / p;
    let y = ((ry as u128) * ratio) / p;
    Ok((x as u64, y as u64))
}

/// A swap of `amount` into the side holding `reserve_in`, paying out of the
/// side holding `reserve_out`, with a fee of `fee` basis points and a
/// smallest acceptable output of `min_out`. Returns what is deposited and
/// what is withdrawn.
pub fn swap(reserve_in: u64, reserve_out: u64, fee: u16, amount: u64, min_out: u64) -> (r: Result<
    (u64, u64),
    CurveError,
>)
    ensures
        r == swap_spec(reserve_in, reserve_out, fee, amount, min_out),
{
    if fee as u64 >= FEE_DENOMINATOR {
        return Err(CurveError::InvalidFee);
    }
    if reserve_in == 0 || reserve_out == 0 {
        return Err(CurveError::EmptyReserve);
    }
    if amount == 0 {
        return Err(CurveError::ZeroInput);
    }
    let keep = (FEE_DENOMINATOR - fee as u64) as u128;
    proof {
        lemma_scaled_fraction_le(amount as int, keep as int, FEE_DENOMINATOR as int);
        assert(amount * keep <= 0xffff_ffff_ffff_ffff * 10_000) by (nonlinear_arith)
            requires
                keep <= 10_000,
                amount <= 0xffff_ffff_ffff_ffff,
        ;
    }
    let net = ((amount as u128) * keep) / (FEE_DENOMINATOR as u128);
    proof {
        lemma_scaled_fraction_le(reserve_out as int, net as int, reserve_in + net);
        assert(reserve_out * net <= 0xffff_ffff_ffff_ffff * 0xffff_ffff_ffff_ffff) by (nonlinear_arith)
            requires
                net <= 0xffff_ffff_ffff_ffff,
                reserve_out <= 0xffff_ffff_ffff_ffff,
        ;
    }
    let w = ((reserve_out as u128) * net) / ((reserve_in as u128) + net);
    if w == 0 {
        return Err(CurveError::ZeroOutput);
    }
    if w < min_out as u128 {
        return Err(CurveError::SlippageExceeded);
    }
    Ok((amount, w as u64))
}

/// The bounds that define `m / p`: `p * (m / p) <= m < p * (m / p) + p`.
proof fn lemma_div_bounds(m: int, p: int)
    requires
        0 <= m,
        0 < p,
    ensures
        p * (m / p) <= m < p * (m / p) + p,
        0 <= m / p,
{
    vstd::arithmetic::div_mod::lemma_fundamental_div_mod(m, p);
    vstd::arithmetic::div_mod::lemma_mod_bound(m, p);
    vstd::arithmetic::div_mod::lemma_div_pos_is_pos(m, p);
}

/// A successful swap never shrinks the product of the reserves: after the
/// input is deposited and the output withdrawn, `reserve_in * reserve_out`
/// is at least what it was, and the output side is never emptied.
pub proof fn lemma_swap_keeps_product(
    reserve_in: u64,
    reserve_out: u64,
    fee: u16,
    amount: u64,
    min_out: u64,
    deposit: u64,
    withdraw: u64,
)
    requires
        swap_spec(reserve_in, reserve_out, fee, amount, min_out) == Ok::<(u64, u64), CurveError>(
            (deposit, withdraw),
        ),
    ensures
        withdraw < reserve_out,
        (reserve_in + deposit) * (reserve_out - withdraw) >= reserve_in * reserve_out,
{
    let net = amount_after_fee(amount, fee);
    let keep = FEE_DENOMINATOR - fee;
    lemma_scaled_fraction_le(amount as int, keep as int, FEE_DENOMINATOR as int);
    let rin = reserve_in as int;
    let rout = reserve_out as int;
    let w = withdraw as int;
    assert(rout * net >= 0) by (nonlinear_arith)
        requires
            rout >= 0,
            net >= 0,
    ;
    lemma_div_bounds(rout * net, rin + net);
    lemma_scaled_fraction_le(rout, net, rin + net);
    assert(w == (rout * net) / (rin + net));
    assert((rin + net) * w <= rout * net);
    assert(w < rout) by (nonlinear_arith)
        requires
            (rin + net) * w <= rout * net,
            rin > 0,
            net >= 0,
            rout > 0,
            w >= 0,
    ;
    assert((rin + net) * (rout - w) >= rin * rout) by (nonlinear_arith)
        requires
            (rin + net) * w <= rout * net,
    ;
    assert((rin + deposit) * (rout - w) >= (rin + net) * (rout - w)) by (nonlinear_arith)
        requires
            deposit >= net,
            rout - w >= 0,
    ;
}

/// A swap is never accepted when it would pay out nothing.
pub proof fn lemma_swap_output_positive(
    reserve_in: u64,
    reserve_out: u64,
    fee: u16,
    amount: u64,
    min_out: u64,
)
    ensures
        swap_spec(reserve_in, reserve_out, fee, amount, min_out) matches Ok((d, w)) ==> d > 0 && w > 0,
{
    let net = amount_after_fee(amount, fee);
    if fee < FEE_DENOMINATOR && reserve_in > 0 && reserve_out > 0 && amount > 0 {
        lemma_scaled_fraction_le(amount as int, (FEE_DENOMINATOR - fee) as int, FEE_DENOMINATOR as int);
        lemma_scaled_fraction_le(reserve_out as int, net, reserve_in + net);
    }
}

/// `x * ry - y * rx < ry` when `p * x` exceeds `rx * ratio` by less than `p`
/// and `p * y` is at least `ry * ratio`.
proof fn lemma_cross_error(x: int, y: int, rx: int, ry: int, ratio: int, p: int)
    requires
        0 < p,
        0 <= rx,
        0 < ry,
        p * x < rx * ratio + p,
        ry * ratio <= p * y,
    ensures
        x * ry - y * rx < ry,
{
    assert(p * x * ry < (rx * ratio + p) * ry) by (nonlinear_arith)
        requires
            p * x < rx * ratio + p,
            0 < ry,
    ;
    assert(ry * ratio * rx <= p * y * rx) by (nonlinear_arith)
        requires
            ry * ratio <= p * y,
            0 <= rx,
    ;
    assert(p * (x * ry - y * rx) < p * ry) by (nonlinear_arith)
        requires
            p * x * ry < (rx * ratio + p) * ry,
            ry * ratio * rx <= p * y * rx,
    ;
    assert(x * ry - y * rx < ry) by (nonlinear_arith)
        requires
            p * (x * ry - y * rx) < p * ry,
            0 < p,
    ;
}

/// The deposit amounts keep the pool's proportion: `x` is within one unit of
/// `y * rx / ry` and `y` within one unit of `x * ry / rx`.
pub proof fn lemma_deposit_proportional(
    rx: u64,
    ry: u64,
    lp_supply: u64,
    amount: u64,
    decimals: u8,
    x: u64,
    y: u64,
)
    requires
        deposit_amounts_spec(rx, ry, lp_supply, amount, decimals) == Ok::<(u64, u64), CurveError>(
            (x, y),
        ),
    ensures
        ry > 0 ==> x * ry - y * rx < ry,
        rx > 0 ==> y * rx - x * ry < rx,
{
    let p = scale(decimals);
    lemma_pow10_bound(decimals as nat);
    let ratio = share_up(lp_supply, amount, decimals);
    assert(amount * p >= 0) by (nonlinear_arith)
        requires
            p >= 1,
    ;
    lemma_div_bounds(amount * p + lp_supply - 1, lp_supply as int);
    assert(rx * ratio >= 0 && ry * ratio >= 0) by (nonlinear_arith)
        requires
            ratio >= 0,
    ;
    lemma_div_bounds(rx * ratio + p - 1, p);
    lemma_div_bounds(ry * ratio + p - 1, p);
    if ry > 0 {
        lemma_cross_error(x as int, y as int, rx as int, ry as int, ratio, p);
    }
    if rx > 0 {
        lemma_cross_error(y as int, x as int, ry as int, rx as int, ratio, p);
    }
}

/// `x * ry - y * rx < rx` when `p * x` is at most `rx * ratio` and `p * y`
/// falls short of `ry * ratio` by less than `p`.
proof fn lemma_cross_error_down(x: int, y: int, rx: int, ry: int, ratio: int, p: int)
    requires
        0 < p,
        0 < rx,
        0 <= ry,
        p * x <= rx * ratio,
        ry * ratio < p * y + p,
    ensures
        x * ry - y * rx < rx,
{
    assert(p * x * ry <= rx * ratio * ry) by (nonlinear_arith)
        requires
            p * x <= rx * ratio,
            0 <= ry,
    ;
    assert(ry * ratio * rx < (p * y + p) * rx) by (nonlinear_arith)
        requires
            ry * ratio < p * y + p,
            0 < rx,
    ;
    assert(p * (x * ry - y * rx) < p * rx) by (nonlinear_arith)
        requires
            p * x * ry <= rx * ratio * ry,
            ry * ratio * rx < (p * y + p) * rx,
    ;
    assert(x * ry - y * rx < rx) by (nonlinear_arith)
        requires
            p * (x * ry - y * rx) < p * rx,
            0 < p,
    ;
}

/// The withdrawal amounts keep the pool's proportion: `x` is within one unit
/// of `y * rx / ry` and `y` within one unit of `x * ry / rx`.
pub proof fn lemma_withdraw_proportional(
    rx: u64,
    ry: u64,
    lp_supply: u64,
    amount: u64,
    decimals: u8,
    x: u64,
    y: u64,
)
    requires
        withdraw_amounts_spec(rx, ry, lp_supply, amount, decimals) == Ok::<(u64, u64), CurveError>(
            (x, y),
        ),
    ensures
        rx > 0 ==> x * ry - y * rx < rx,
        ry > 0 ==> y * rx - x * ry < ry,
{
    if amount != lp_supply {
        let p = scale(decimals);
        lemma_pow10_bound(decimals as nat);
        let ratio = share_down(lp_supply, amount, decimals);
        assert(amount * p >= 0) by (nonlinear_arith)
            requires
                p >= 1,
        ;
        lemma_div_bounds(amount * p, lp_supply as int);
        assert(rx * ratio >= 0 && ry * ratio >= 0) by (nonlinear_arith)
            requires
                ratio >= 0,
        ;
        lemma_div_bounds(rx * ratio, p);
        lemma_div_bounds(ry * ratio, p);
        lemma_scaled_fraction_le(p, amount as int, lp_supply as int);
        assert(p * amount == amount * p) by (nonlinear_arith);
        lemma_scaled_fraction_le(rx as int, ratio, p);
        lemma_scaled_fraction_le(ry as int, ratio, p);
        if rx > 0 {
            lemma_cross_error_down(x as int, y as int, rx as int, ry as int, ratio, p);
        }
        if ry > 0 {
            lemma_cross_error_down(y as int, x as int, ry as int, rx as int, ratio, p);
        }
    } else {
        assert(x * ry - y * rx == 0) by (nonlinear_arith)
            requires
                x == rx,
                y == ry,
        ;
    }
}

/// A withdrawal never takes more than a reserve holds, and it empties a
/// non-empty reserve only when the whole liquidity supply is burnt.
pub proof fn lemma_withdraw_empties_only_on_full_burn(
    rx: u64,
    ry: u64,
    lp_supply: u64,
    amount: u64,
    decimals: u8,
    x: u64,
    y: u64,
)
    requires
        withdraw_amounts_spec(rx, ry, lp_supply, amount, decimals) == Ok::<(u64, u64), CurveError>(
            (x, y),
        ),
    ensures
        x <= rx,
        y <= ry,
        amount == lp_supply ==> x == rx && y == ry,
        amount < lp_supply && rx > 0 ==> x < rx,
        amount < lp_supply && ry > 0 ==> y < ry,
{
    if amount < lp_supply {
        let p = scale(decimals);
        lemma_pow10_bound(decimals as nat);
        let ratio = share_down(lp_supply, amount, decimals);
        let l = lp_supply as int;
        assert(amount * p >= 0 && amount * p < l * p) by (nonlinear_arith)
            requires
                p >= 1,
                0 <= amount < l,
        ;
        lemma_div_bounds(amount * p, l);
        assert(ratio < p) by (nonlinear_arith)
            requires
                l * ratio <= amount * p,
                amount * p < l * p,
                l > 0,
        ;
        assert(rx * ratio >= 0 && ry * ratio >= 0) by (nonlinear_arith)
            requires
                ratio >= 0,
        ;
        lemma_div_bounds(rx * ratio, p);
        lemma_div_bounds(ry * ratio, p);
        lemma_scaled_fraction_le(rx as int, ratio, p);
        lemma_scaled_fraction_le(ry as int, ratio, p);
        assert(rx > 0 ==> rx * ratio < rx * p) by (nonlinear_arith)
            requires
                ratio < p,
        ;
        assert(ry > 0 ==> ry * ratio < ry * p) by (nonlinear_arith)
            requires
                ratio < p,
        ;
        assert(rx > 0 ==> x < rx) by (nonlinear_arith)
            requires
                p * x <= rx * ratio,
                rx > 0 ==> rx * ratio < rx * p,
                p > 0,
        ;
        assert(ry > 0 ==> y < ry) by (nonlinear_arith)
            requires
                p * y <= ry * ratio,
                ry > 0 ==> ry * ratio < ry * p,
                p > 0,
        ;
    }
}

/// One side of the round trip: what comes back is at most what was paid.
proof fn lemma_round_trip_side(
    rx: int,
    x: int,
    l: int,
    a: int,
    p: int,
    r1: int,
    r2: int,
    x2: int,
)
    requires
        0 <= rx,
        0 <= x,
        0 < l,
        0 <= a,
        0 < p,
        0 <= r2,
        0 <= x2,
        a * p <= l * r1,
        rx * r1 <= p * x,
        (l + a) * r2 <= a * p,
        p * x2 <= (rx + x) * r2,
    ensures
        x2 <= x,
{
    assert(rx * a * p <= rx * l * r1) by (nonlinear_arith)
        requires
            a * p <= l * r1,
            0 <= rx,
    ;
    assert(rx * r1 * l <= p * x * l) by (nonlinear_arith)
        requires
            rx * r1 <= p * x,
            0 < l,
    ;
    assert(rx * a <= l * x) by (nonlinear_arith)
        requires
            rx * a * p <= rx * l * r1,
            rx * r1 * l <= p * x * l,
            0 < p,
    ;
    assert(p * x2 * (l + a) <= (rx + x) * r2 * (l + a)) by (nonlinear_arith)
        requires
            p * x2 <= (rx + x) * r2,
            0 < l + a,
    ;
    assert((rx + x) * r2 * (l + a) <= (rx + x) * a * p) by (nonlinear_arith)
        requires
            (l + a) * r2 <= a * p,
            0 <= rx + x,
    ;
    assert(x2 * (l + a) <= (rx + x) * a) by (nonlinear_arith)
        requires
            p * x2 * (l + a) <= (rx + x) * a * p,
            0 < p,
    ;
    assert(x2 * (l + a) <= x * (l + a)) by (nonlinear_arith)
        requires
            x2 * (l + a) <= (rx + x) * a,
            rx * a <= l * x,
    ;
    assert(x2 <= x) by (nonlinear_arith)
        requires
            x2 * (l + a) <= x * (l + a),
            0 < l + a,
    ;
}

/// Depositing for `amount` liquidity and at once burning that same amount
/// gives back no more of either reserve than was paid in.
pub proof fn lemma_deposit_withdraw_round_trip(
    rx: u64,
    ry: u64,
    lp_supply: u64,
    amount: u64,
    decimals: u8,
    x: u64,
    y: u64,
)
    requires
        deposit_amounts_spec(rx, ry, lp_supply, amount, decimals) == Ok::<(u64, u64), CurveError>(
            (x, y),
        ),
        rx + x <= u64::MAX,
        ry + y <= u64::MAX,
        lp_supply + amount <= u64::MAX,
    ensures
        withdraw_amounts_spec(
            (rx + x) as u64,
            (ry + y) as u64,
            (lp_supply + amount) as u64,
            amount,
            decimals,
        ) is Ok,
        withdraw_amounts_spec(
            (rx + x) as u64,
            (ry + y) as u64,
            (lp_supply + amount) as u64,
            amount,
            decimals,
        ).unwrap().0 <= x,
        withdraw_amounts_spec(
            (rx + x) as u64,
            (ry + y) as u64,
            (lp_supply + amount) as u64,
            amount,
            decimals,
        ).unwrap().1 <= y,
{
    let p = scale(decimals);
    lemma_pow10_bound(decimals as nat);
    let l = lp_supply as int;
    let a = amount as int;
    let r1 = share_up(lp_supply, amount, decimals);
    let l2 = (lp_supply + amount) as u64;
    let r2 = share_down(l2, amount, decimals);
    assert(a * p >= 0) by (nonlinear_arith)
        requires
            p >= 1,
            a >= 0,
    ;
    lemma_div_bounds(a * p + l - 1, l);
    lemma_div_bounds(a * p, l + a);
    assert(rx * r1 >= 0 && ry * r1 >= 0) by (nonlinear_arith)
        requires
            r1 >= 0,
    ;
    lemma_div_bounds(rx * r1 + p - 1, p);
    lemma_div_bounds(ry * r1 + p - 1, p);
    let x2 = ((rx + x) * r2) / p;
    let y2 = ((ry + y) * r2) / p;
    assert((rx + x) * r2 >= 0 && (ry + y) * r2 >= 0) by (nonlinear_arith)
        requires
            r2 >= 0,
            rx + x >= 0,
            ry + y >= 0,
    ;
    lemma_div_bounds((rx + x) * r2, p);
    lemma_div_bounds((ry + y) * r2, p);
    if amount > 0 {
        assert(l * r1 >= a * p);
        lemma_round_trip_side(rx as int, x as int, l, a, p, r1, r2, x2);
        lemma_round_trip_side(ry as int, y as int, l, a, p, r1, r2, y2);
    } else {
        assert(a * p == 0) by (nonlinear_arith)
            requires
                a == 0,
        ;
        assert(r2 == 0);
        assert(x2 == 0 && y2 == 0);
    }
}

} // verus!
