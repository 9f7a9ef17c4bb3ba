//! The liquidity manager: jackpot funding counters, fee conversion at a
//! basis-point rate, and the delta-exposure bookkeeping for a concentrated
//! liquidity position — the plain formula work around the draw engine.
//!
//! The token transfers themselves, and the floating-point tick-to-price
//! curve, belong to the host environment; the core only accounts for the
//! amounts and exposures the host hands it.

use vstd::prelude::*;
use vstd::arithmetic::div_mod::lemma_div_is_ordered;
use vstd::arithmetic::div_mod::lemma_div_multiples_vanish;
use vstd::arithmetic::div_mod::lemma_div_pos_is_pos;
use vstd::arithmetic::mul::lemma_mul_inequality;
use vstd::arithmetic::mul::lemma_mul_upper_bound;
use crate::lottery::AccountId;

verus! {

/// Every way a liquidity-manager operation can fail.
#[derive(Clone, Copy, Debug, PartialEq, Eq, Structural)]
pub enum ErrorCode {
    /// The manager has not been initialized.
    NotInitialized,
    /// The pool does not hold the requested amount.
    InsufficientFunds,
    /// A call from an identity other than the admin.
    Unauthorized,
    /// The liquidity position has not been opened yet.
    PositionNotInitialized,
    /// A tick range whose bounds are not in order.
    InvalidTickRange,
}

/// Basis points in a whole: rates are fractions of this.
pub const BASIS_POINTS: u64 = 10000;

/// Share of collected fees converted, in basis points: 80%.
pub const FEE_CONVERSION_RATE: u16 = 8000;

/// Share of a jackpot reserved for the next one, in basis points: 40%.
pub const JACKPOT_FUNDING_RATE: u16 = 4000;

/// The state of the liquidity manager: funding counters, conversion rates,
/// and the delta-hedging bookkeeping for one concentrated position.
#[derive(Clone, Copy, Debug)]
pub struct LPManager {
    pub admin: AccountId,
    pub is_initialized: bool,
    pub total_funded: u64,
    pub sol_converted: u64,
    pub jackpot_boosts: u64,
    /// Basis points of collected fees that get converted.
    pub fee_conversion_rate: u16,
    /// Basis points of a jackpot reserved for funding the next one.
    pub jackpot_funding_rate: u16,
    pub orca_position_initialized: bool,
    pub tick_lower: i32,
    pub tick_upper: i32,
    /// Target exposure; 0 is delta-neutral.
    pub target_delta: i64,
    pub current_delta: i64,
    pub last_rebalance_amount: u64,
    /// -1 reduces exposure, 1 increases it, 0 means none yet.
    pub last_rebalance_direction: i8,
    pub rebalance_count: u64,
    pub last_rebalance_time: i64,
    pub orca_whirlpool: Option<AccountId>,
    pub orca_position_nft: Option<AccountId>,
}

/// Creates the manager with the default rates, zeroed counters, and no
/// position.
pub fn initialize_lp_manager(admin: AccountId) -> (m: LPManager)
    ensures
        m.admin == admin,
        m.is_initialized,
        m.total_funded == 0,
        m.sol_converted == 0,
        m.jackpot_boosts == 0,
        m.fee_conversion_rate == FEE_CONVERSION_RATE,
        m.jackpot_funding_rate == JACKPOT_FUNDING_RATE,
        !m.orca_position_initialized,
        m.tick_lower == 0,
        m.tick_upper == 0,
        m.target_delta == 0,
        m.current_delta == 0,
        m.last_rebalance_amount == 0,
        m.last_rebalance_direction == 0,
        m.rebalance_count == 0,
        m.last_rebalance_time == 0,
        m.orca_whirlpool is None,
        m.orca_position_nft is None,
{
    LPManager {
        admin,
        is_initialized: true,
        total_funded: 0,
        sol_converted: 0,
        jackpot_boosts: 0,
        fee_conversion_rate: FEE_CONVERSION_RATE,
        jackpot_funding_rate: JACKPOT_FUNDING_RATE,
        orca_position_initialized: false,
        tick_lower: 0,
        tick_upper: 0,
        target_delta: 0,
        current_delta: 0,
        last_rebalance_amount: 0,
        last_rebalance_direction: 0,
        rebalance_count: 0,
        last_rebalance_time: 0,
        orca_whirlpool: None,
        orca_position_nft: None,
    }
}

/// Accounts `amount` as funded into the jackpot pool and returns the new
/// running total. The transfer that moves the tokens is the host's to make.
pub fn fund_jackpot(m: &mut LPManager, amount: u64) -> (r: u64)
    requires
        old(m).total_funded + amount <= u64::MAX,
    ensures
        r == old(m).total_funded + amount,
        *final(m) == (LPManager { total_funded: r, ..*old(m) }),
{
    m.total_funded = m.total_funded + amount;
    m.total_funded
}

/// The amount a fee conversion yields: the token amount times the rate in
/// basis points, saturating at the type bound, then divided down.
pub open spec fn spec_conversion_amount(token_amount: u64, rate: u16) -> int {
    let product = token_amount * rate;
    (if product > u64::MAX {
        u64::MAX as int
    } else {
        product
    }) / (BASIS_POINTS as int)
}

/// Converts `fee_conversion_rate` basis points of `token_amount`, adds the
/// result to the converted-total counter, and returns it. The swap itself is
/// the host's to make.
pub fn convert_fees_to_sol(m: &mut LPManager, token_amount: u64) -> (r: u64)
    requires
        old(m).sol_converted + spec_conversion_amount(token_amount, old(m).fee_conversion_rate)
            <= u64::MAX,
    ensures
        r == spec_conversion_amount(token_amount, old(m).fee_conversion_rate),
        *final(m) == (LPManager {
            sol_converted: (old(m).sol_converted + r) as u64,
            ..*old(m)
        }),
{
    proof {
        lemma_mul_upper_bound(
            token_amount as int,
            u64::MAX as int,
            m.fee_conversion_rate as int,
            u16::MAX as int,
        );
    }
    let product = token_amount as u128 * m.fee_conversion_rate as u128;
    let saturated: u64 = if product > u64::MAX as u128 {
        u64::MAX
    } else {
        product as u64
    };
    let conversion_amount = saturated / (BASIS_POINTS as u64);
    m.sol_converted = m.sol_converted + conversion_amount;
    conversion_amount
}

/// Accounts a direct jackpot boost and returns the new boost total.
pub fn boost_jackpot(m: &mut LPManager, sol_amount: u64) -> (r: u64)
    requires
        old(m).jackpot_boosts + sol_amount <= u64::MAX,
    ensures
        r == old(m).jackpot_boosts + sol_amount,
        *final(m) == (LPManager { jackpot_boosts: r, ..*old(m) }),
{
    m.jackpot_boosts = m.jackpot_boosts + sol_amount;
    m.jackpot_boosts
}

/// Authorizes an emergency withdrawal of `amount` from the pool: only the
/// admin may take it, and the transfer itself is the host's to make.
pub fn emergency_withdraw(m: &LPManager, caller: AccountId, amount: u64) -> (r: Result<
    (),
    ErrorCode,
>)
    ensures
        caller == m.admin <==> r == Ok::<(), ErrorCode>(()),
        caller != m.admin ==> r == Err::<(), ErrorCode>(ErrorCode::Unauthorized),
{
    if caller != m.admin {
        return Err(ErrorCode::Unauthorized);
    }
    let _ = amount;
    Ok(())
}

/// Opens the concentrated-liquidity position over a tick range with a
/// delta-neutral target. Admin only, and only on an initialized manager.
pub fn initialize_orca_position(
    m: &mut LPManager,
    caller: AccountId,
    tick_lower: i32,
    tick_upper: i32,
) -> (r: Result<(), ErrorCode>)
    ensures
        caller != old(m).admin ==> r == Err::<(), ErrorCode>(ErrorCode::Unauthorized) && *final(m)
            == *old(m),
        caller == old(m).admin && !old(m).is_initialized ==> r == Err::<(), ErrorCode>(
            ErrorCode::NotInitialized,
        ) && *final(m) == *old(m),
        caller == old(m).admin && old(m).is_initialized ==> r == Ok::<(), ErrorCode>(()) && *final(m) == (LPManager {
            orca_position_initialized: true,
            tick_lower,
            tick_upper,
            target_delta: 0,
            ..*old(m)
        }),
{
    if caller != m.admin {
        return Err(ErrorCode::Unauthorized);
    }
    if !m.is_initialized {
        return Err(ErrorCode::NotInitialized);
    }
    m.orca_position_initialized = true;
    m.tick_lower = tick_lower;
    m.tick_upper = tick_upper;
    m.target_delta = 0;
    Ok(())
}

/// The delta exposure of a position worth `liquidity` over the price band
/// `lower..=upper` at `current_price`: none below the band, all of the
/// liquidity above it, and the in-band fraction in between.
pub open spec fn spec_delta(current_price: u64, liquidity: u64, lower: u64, upper: u64) -> int {
    if current_price < lower {
        0
    } else if current_price > upper {
        liquidity as int
    } else {
        (liquidity * (current_price - lower)) / (upper - lower)
    }
}

/// A fraction of the liquidity never exceeds the liquidity: the in-band
/// quotient stays within `0..=liquidity`.
proof fn lemma_delta_in_band_bounded(liquidity: int, in_band: int, range: int)
    requires
        liquidity >= 0,
        0 <= in_band <= range,
        range > 0,
    ensures
        0 <= (liquidity * in_band) / range <= liquidity,
{
    lemma_mul_inequality(in_band, range, liquidity);
    lemma_div_is_ordered(liquidity * in_band, liquidity * range, range);
    lemma_div_multiples_vanish(liquidity, range);
    if liquidity * in_band > 0 {
        lemma_div_pos_is_pos(liquidity * in_band, range);
    }
}

/// Computes the current delta exposure from the price band the host derived
/// for the position's ticks, stores it, and returns it.
pub fn calculate_delta(
    m: &mut LPManager,
    current_price: u64,
    liquidity_amount: u64,
    price_lower: u64,
    price_upper: u64,
) -> (r: Result<i64, ErrorCode>)
    requires
        price_lower < price_upper,
        liquidity_amount <= i64::MAX as u64,
    ensures
        !old(m).is_initialized ==> r == Err::<i64, ErrorCode>(ErrorCode::NotInitialized) && *final(m) == *old(m),
        old(m).is_initialized ==> {
            let d = spec_delta(current_price, liquidity_amount, price_lower, price_upper);
            &&& r == Ok::<i64, ErrorCode>(d as i64)
            &&& 0 <= d <= liquidity_amount
            &&& *final(m) == (LPManager { current_delta: d as i64, ..*old(m) })
        },
{
    if !m.is_initialized {
        return Err(ErrorCode::NotInitialized);
    }
    let delta: i64 = if current_price < price_lower {
        0
    } else if current_price > price_upper {
        liquidity_amount as i64
    } else {
        let price_range = price_upper - price_lower;
        let price_in_range = current_price - price_lower;
        proof {
            lemma_mul_upper_bound(
                liquidity_amount as int,
                u64::MAX as int,
                price_in_range as int,
                u64::MAX as int,
            );
            lemma_delta_in_band_bounded(
                liquidity_amount as int,
                price_in_range as int,
                price_range as int,
            );
        }
        ((liquidity_amount as u128 * price_in_range as u128) / price_range as u128) as i64
    };
    m.current_delta = delta;
    Ok(delta)
}

/// Decides one rebalance step: when the deviation of the current delta from
/// the target reaches the threshold, records its magnitude and the direction
/// that would reduce it, counts the rebalance, and stamps the time; below
/// the threshold nothing changes. Admin only, on an initialized manager with
/// an open position.
pub fn auto_rebalance(
    m: &mut LPManager,
    caller: AccountId,
    current_delta: i64,
    rebalance_threshold: i64,
    now: i64,
) -> (r: Result<(), ErrorCode>)
    requires
        caller == old(m).admin && old(m).is_initialized && old(m).orca_position_initialized ==> {
            &&& -(i64::MAX as int) <= current_delta - old(m).target_delta <= i64::MAX as int
            &&& old(m).rebalance_count < u64::MAX
        },
    ensures
        caller != old(m).admin ==> r == Err::<(), ErrorCode>(ErrorCode::Unauthorized) && *final(m)
            == *old(m),
        caller == old(m).admin && !old(m).is_initialized ==> r == Err::<(), ErrorCode>(
            ErrorCode::NotInitialized,
        ) && *final(m) == *old(m),
        caller == old(m).admin && old(m).is_initialized && !old(m).orca_position_initialized ==> r
            == Err::<(), ErrorCode>(ErrorCode::PositionNotInitialized) && *final(m) == *old(m),
        caller == old(m).admin && old(m).is_initialized && old(m).orca_position_initialized ==> {
            let deviation = current_delta - old(m).target_delta;
            let magnitude = if deviation < 0 {
                -deviation
            } else {
                deviation
            };
            &&& r == Ok::<(), ErrorCode>(())
            &&& magnitude < rebalance_threshold ==> *final(m) == *old(m)
            &&& magnitude >= rebalance_threshold ==> *final(m) == (LPManager {
                last_rebalance_amount: magnitude as u64,
                last_rebalance_direction: if deviation > 0 {
                    -1i8
                } else {
                    1i8
                },
                rebalance_count: (old(m).rebalance_count + 1) as u64,
                last_rebalance_time: now,
                ..*old(m)
            })
        },
{
    if caller != m.admin {
        return Err(ErrorCode::Unauthorized);
    }
    if !m.is_initialized {
        return Err(ErrorCode::NotInitialized);
    }
    if !m.orca_position_initialized {
        return Err(ErrorCode::PositionNotInitialized);
    }
    let deviation = current_delta - m.target_delta;
    let magnitude = if deviation < 0 {
        -deviation
    } else {
        deviation
    };
    if magnitude < rebalance_threshold {
        return Ok(());
    }
    m.last_rebalance_amount = magnitude as u64;
    m.last_rebalance_direction = if deviation > 0 {
        -1
    } else {
        1
    };
    m.rebalance_count = m.rebalance_count + 1;
    m.last_rebalance_time = now;
    Ok(())
}

/// Moves the position's tick range to shift exposure. Admin only, on an
/// initialized manager.
pub fn update_position_ticks(
    m: &mut LPManager,
    caller: AccountId,
    new_tick_lower: i32,
    new_tick_upper: i32,
) -> (r: Result<(), ErrorCode>)
    ensures
        caller != old(m).admin ==> r == Err::<(), ErrorCode>(ErrorCode::Unauthorized) && *final(m)
            == *old(m),
        caller == old(m).admin && !old(m).is_initialized ==> r == Err::<(), ErrorCode>(
            ErrorCode::NotInitialized,
        ) && *final(m) == *old(m),
        caller == old(m).admin && old(m).is_initialized ==> r == Ok::<(), ErrorCode>(()) && *final(m) == (LPManager { tick_lower: new_tick_lower, tick_upper: new_tick_upper, ..*old(m) }),
{
    if caller != m.admin {
        return Err(ErrorCode::Unauthorized);
    }
    if !m.is_initialized {
        return Err(ErrorCode::NotInitialized);
    }
    m.tick_lower = new_tick_lower;
    m.tick_upper = new_tick_upper;
    Ok(())
}

/// Sets the target delta, for hedging strategies other than delta-neutral.
/// Admin only, on an initialized manager.
pub fn set_target_delta(m: &mut LPManager, caller: AccountId, target_delta: i64) -> (r: Result<
    (),
    ErrorCode,
>)
    ensures
        caller != old(m).admin ==> r == Err::<(), ErrorCode>(ErrorCode::Unauthorized) && *final(m)
            == *old(m),
        caller == old(m).admin && !old(m).is_initialized ==> r == Err::<(), ErrorCode>(
            ErrorCode::NotInitialized,
        ) && *final(m) == *old(m),
        caller == old(m).admin && old(m).is_initialized ==> r == Ok::<(), ErrorCode>(()) && *final(m) == (LPManager { target_delta, ..*old(m) }),
{
    if caller != m.admin {
        return Err(ErrorCode::Unauthorized);
    }
    if !m.is_initialized {
        return Err(ErrorCode::NotInitialized);
    }
    m.target_delta = target_delta;
    Ok(())
}

} // verus!
