//! The token's tax router and its administrative switches. The router is a
//! stateless percentage split: a transfer amount is divided into the net
//! amount, a creator-fund cut and a jackpot cut, in basis points with
//! truncating integer division, and the three parts always add back up to
//! the transferred amount. The transfers that move the three parts are the
//! host's to make.

use vstd::prelude::*;
use vstd::arithmetic::mul::lemma_mul_inequality;
use vstd::arithmetic::mul::lemma_mul_nonnegative;
use vstd::arithmetic::mul::lemma_mul_upper_bound;
use crate::lottery::AccountId;

verus! {

/// Every way a token operation can fail.
#[derive(Clone, Copy, Debug, PartialEq, Eq, Structural)]
pub enum ErrorCode {
    /// The admin has already been renounced.
    AlreadyRenounced,
    /// A call from an identity other than the admin.
    Unauthorized,
    /// Transfers are paused.
    TransfersPaused,
}

/// Basis points in a whole: the tax rates are fractions of this.
pub const TAX_BASIS_POINTS: u64 = 10000;

/// Total tax in basis points: 2.5%.
pub const TAX_RATE: u16 = 250;

/// Creator-fund share of each transfer in basis points: 0.05%.
pub const CREATOR_FUND_RATE: u16 = 5;

/// Jackpot share of each transfer in basis points: 2.45%.
pub const JACKPOT_RATE: u16 = 245;

/// Tokens minted per whole-unit of supply before decimals.
pub const SUPPLY_BASE: u64 = 1_000_000_000;

/// The token's static description and its two switches: the pause flag and
/// the renounceable admin.
#[derive(Clone, Debug)]
pub struct TokenInfo {
    pub name: String,
    pub symbol: String,
    pub decimals: u8,
    pub total_supply: u64,
    /// Total tax in basis points; the sum of the two shares below.
    pub tax_rate: u16,
    pub creator_fund_rate: u16,
    pub jackpot_rate: u16,
    pub creator_fund_address: AccountId,
    pub is_renounced: bool,
    pub is_paused: bool,
    pub admin: AccountId,
}

impl TokenInfo {
    /// The two tax shares make up the stated total, and the total never
    /// exceeds the whole: taxing can never consume more than the transfer.
    pub open spec fn wf(self) -> bool {
        &&& self.creator_fund_rate + self.jackpot_rate == self.tax_rate
        &&& self.tax_rate <= TAX_BASIS_POINTS
    }
}

/// Ten to the `e`th.
pub open spec fn pow10(e: nat) -> nat
    decreases e,
{
    if e == 0 {
        1
    } else {
        10 * pow10((e - 1) as nat)
    }
}

/// Powers of ten grow with the exponent.
proof fn lemma_pow10_mono(a: nat, b: nat)
    requires
        a <= b,
    ensures
        pow10(a) <= pow10(b),
    decreases b,
{
    if a < b {
        lemma_pow10_mono(a, (b - 1) as nat);
    }
}

/// Returns ten to the `e`th, for exponents whose supply still fits.
fn pow10_u64(e: u8) -> (r: u64)
    requires
        e <= 10,
    ensures
        r == pow10(e as nat),
        r <= 10_000_000_000,
{
    proof {
        reveal_with_fuel(pow10, 11);
        assert(pow10(10) == 10_000_000_000);
    }
    let mut acc: u64 = 1;
    let mut i: u8 = 0;
    while i < e
        invariant
            i <= e <= 10,
            acc == pow10(i as nat),
            pow10(10) == 10_000_000_000,
        decreases e - i,
    {
        proof {
            lemma_pow10_mono((i + 1) as nat, 10);
        }
        acc = acc * 10;
        i = i + 1;
    }
    proof {
        lemma_pow10_mono(e as nat, 10);
    }
    acc
}

/// Creates the token: a fixed supply of one billion whole units scaled by
/// the decimals, the 2.5% tax split into its 0.05% creator and 2.45% jackpot
/// shares, and the caller as (not yet renounced) admin.
pub fn initialize_token(
    name: String,
    symbol: String,
    decimals: u8,
    creator_fund_address: AccountId,
    admin: AccountId,
) -> (t: TokenInfo)
    requires
        decimals <= 10,
    ensures
        t.wf(),
        t.name@ == name@,
        t.symbol@ == symbol@,
        t.decimals == decimals,
        t.total_supply == SUPPLY_BASE * pow10(decimals as nat),
        t.tax_rate == TAX_RATE,
        t.creator_fund_rate == CREATOR_FUND_RATE,
        t.jackpot_rate == JACKPOT_RATE,
        t.creator_fund_address == creator_fund_address,
        !t.is_renounced,
        !t.is_paused,
        t.admin == admin,
{
    let multiplier = pow10_u64(decimals);
    let total_supply = SUPPLY_BASE * multiplier;
    TokenInfo {
        name,
        symbol,
        decimals,
        total_supply,
        tax_rate: TAX_RATE,
        creator_fund_rate: CREATOR_FUND_RATE,
        jackpot_rate: JACKPOT_RATE,
        creator_fund_address,
        is_renounced: false,
        is_paused: false,
        admin,
    }
}

/// The three parts a taxed transfer is split into; they sum back to the
/// transferred amount, so nothing is silently dropped.
#[derive(Clone, Copy, Debug, PartialEq, Eq, Structural)]
pub struct TaxSplit {
    /// What the recipient receives.
    pub transfer_amount: u64,
    /// The creator-fund cut.
    pub creator_tax: u64,
    /// The jackpot cut.
    pub jackpot_tax: u64,
}

/// Truncating basis-point shares of an amount stay within it: each share is
/// non-negative and the two together never exceed the amount.
proof fn lemma_tax_within_amount(amount: int, c: int, j: int)
    requires
        amount >= 0,
        0 <= c,
        0 <= j,
        c + j <= TAX_BASIS_POINTS,
    ensures
        0 <= (amount * c) / (TAX_BASIS_POINTS as int),
        0 <= (amount * j) / (TAX_BASIS_POINTS as int),
        (amount * c) / (TAX_BASIS_POINTS as int) + (amount * j) / (TAX_BASIS_POINTS as int)
            <= amount,
{
    let d = TAX_BASIS_POINTS as int;
    lemma_mul_nonnegative(amount, c);
    lemma_mul_nonnegative(amount, j);
    let cc = (amount * c) / d;
    let jj = (amount * j) / d;
    assert(amount * c == d * cc + (amount * c) % d);
    assert(amount * j == d * jj + (amount * j) % d);
    assert(amount * c + amount * j == amount * (c + j)) by (nonlinear_arith);
    lemma_mul_inequality(c + j, d, amount);
    assert(amount * (c + j) == (c + j) * amount) by (nonlinear_arith);
    assert(amount * d == d * amount) by (nonlinear_arith);
}

/// Splits a transfer of `amount` into the net amount and the two tax cuts,
/// each tax a truncating basis-point share. The three parts always sum to
/// exactly `amount`.
pub fn transfer_with_tax(t: &TokenInfo, amount: u64) -> (s: TaxSplit)
    requires
        t.wf(),
    ensures
        s.creator_tax == (amount * t.creator_fund_rate) / (TAX_BASIS_POINTS as int),
        s.jackpot_tax == (amount * t.jackpot_rate) / (TAX_BASIS_POINTS as int),
        s.transfer_amount == amount - s.creator_tax - s.jackpot_tax,
        s.creator_tax + s.jackpot_tax <= amount,
        s.transfer_amount + s.creator_tax + s.jackpot_tax == amount,
{
    proof {
        lemma_mul_upper_bound(amount as int, u64::MAX as int, t.creator_fund_rate as int, u16::MAX as int);
        lemma_mul_upper_bound(amount as int, u64::MAX as int, t.jackpot_rate as int, u16::MAX as int);
        lemma_tax_within_amount(amount as int, t.creator_fund_rate as int, t.jackpot_rate as int);
    }
    let creator_tax = ((amount as u128 * t.creator_fund_rate as u128)
        / (TAX_BASIS_POINTS as u128)) as u64;
    let jackpot_tax = ((amount as u128 * t.jackpot_rate as u128) / (TAX_BASIS_POINTS as u128))
        as u64;
    let total_tax = creator_tax + jackpot_tax;
    let transfer_amount = amount - total_tax;
    TaxSplit { transfer_amount, creator_tax, jackpot_tax }
}

/// Renounces the admin: a one-way switch that clears the admin identity, so
/// no administrative call can ever pass the identity check again.
pub fn renounce_admin(t: &mut TokenInfo, caller: AccountId) -> (r: Result<(), ErrorCode>)
    requires
        old(t).wf(),
    ensures
        final(t).wf(),
        old(t).is_renounced ==> r == Err::<(), ErrorCode>(ErrorCode::AlreadyRenounced) && *final(t)
            == *old(t),
        !old(t).is_renounced && caller != old(t).admin ==> r == Err::<(), ErrorCode>(
            ErrorCode::Unauthorized,
        ) && *final(t) == *old(t),
        !old(t).is_renounced && caller == old(t).admin ==> r == Ok::<(), ErrorCode>(()) && *final(t)
            == (TokenInfo { is_renounced: true, admin: 0, ..*old(t) }),
{
    if t.is_renounced {
        return Err(ErrorCode::AlreadyRenounced);
    }
    if caller != t.admin {
        return Err(ErrorCode::Unauthorized);
    }
    t.is_renounced = true;
    t.admin = 0;
    Ok(())
}

/// Toggles the transfer pause. Admin only, and impossible once the admin has
/// been renounced.
pub fn emergency_pause(t: &mut TokenInfo, caller: AccountId) -> (r: Result<(), ErrorCode>)
    requires
        old(t).wf(),
    ensures
        final(t).wf(),
        old(t).is_renounced ==> r == Err::<(), ErrorCode>(ErrorCode::AlreadyRenounced) && *final(t)
            == *old(t),
        !old(t).is_renounced && caller != old(t).admin ==> r == Err::<(), ErrorCode>(
            ErrorCode::Unauthorized,
        ) && *final(t) == *old(t),
        !old(t).is_renounced && caller == old(t).admin ==> r == Ok::<(), ErrorCode>(()) && *final(t)
            == (TokenInfo { is_paused: !old(t).is_paused, ..*old(t) }),
{
    if t.is_renounced {
        return Err(ErrorCode::AlreadyRenounced);
    }
    if caller != t.admin {
        return Err(ErrorCode::Unauthorized);
    }
    t.is_paused = !t.is_paused;
    Ok(())
}

} // verus!
