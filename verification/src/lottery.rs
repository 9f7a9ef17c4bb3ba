//! The lottery state machine: entry accounting, interval gating, seed
//! derivation, the parity outcome mechanic, and the payout schedule.
//!
//! Identities (wallets, the administrator) are account addresses in the host
//! environment; the core only ever compares them for equality, so they are
//! modeled as plain integers.

use vstd::prelude::*;

verus! {

/// An account address, as far as the core reads it: an opaque identifier
/// compared only for equality.
pub type AccountId = u64;

/// Every way a lottery operation can fail. Each failure leaves the state
/// exactly as it was.
#[derive(Clone, Copy, Debug, PartialEq, Eq, Structural)]
pub enum ErrorCode {
    /// An entry or draw was attempted while the lottery is paused.
    LotteryInactive,
    /// A draw was attempted before the active interval has elapsed.
    DrawTooEarly,
    /// A payout was attempted with no main winner recorded.
    NoWinners,
    /// A draw was attempted with fewer than nine participants or zero tickets.
    NotEnoughParticipants,
    /// An administrative call came from an identity other than the admin.
    Unauthorized,
    /// A contribution too small to grant even one ticket.
    InsufficientValue,
    /// A configuration value outside its allowed range.
    InvalidConfig,
    /// A payout was attempted while the last outcome was a rollover.
    PayoutNotAllowed,
}

/// One participant's entry in the current round.
#[derive(Clone, Copy, Debug, PartialEq, Eq, Structural)]
pub struct ParticipantAccount {
    pub wallet: AccountId,
    pub ticket_count: u32,
    pub usd_value: u64,
    pub entry_time: i64,
}

/// The winners recorded between a payout-outcome draw and the payout itself:
/// one main winner and at most eight distinct minor winners.
#[derive(Clone, Debug)]
pub struct Winners {
    pub main_winner: Option<AccountId>,
    pub minor_winners: Vec<AccountId>,
}

/// Default gate between draws: 72 hours.
pub const BASE_SNAPSHOT_INTERVAL: u64 = 72 * 60 * 60;

/// Accelerated gate between draws once fees cross the threshold: 48 hours.
pub const FAST_SNAPSHOT_INTERVAL: u64 = 48 * 60 * 60;

/// Accumulated fees at which the accelerated interval takes over.
pub const FAST_MODE_THRESHOLD: u64 = 200 * 1_000_000_000;

/// Upper bound accepted for the initial jackpot.
pub const MAX_INITIAL_JACKPOT: u64 = 1_000_000 * 1_000_000_000;

/// A draw needs at least this many distinct participants, so that one main
/// winner and eight distinct minor winners can be selected.
pub const MIN_PARTICIPANTS: u64 = 9;

/// At most this many minor winners are recorded and paid.
pub const MAX_MINOR_WINNERS: usize = 8;

/// A rollover whose new streak is odd pushes the next deadline out by 48 hours.
pub const ROLLOVER_EXTENSION_ODD: i64 = 48 * 3600;

/// A rollover whose new streak is even pushes the next deadline out by 72 hours.
pub const ROLLOVER_EXTENSION_EVEN: i64 = 72 * 3600;

/// Ball counts are drawn from 1..=30.
pub const BALL_COUNT_SPAN: u64 = 30;

/// The whole state of one lottery instance. All operations below take it by
/// exclusive reference and apply a single all-or-nothing transition.
#[derive(Clone, Debug)]
pub struct Lottery {
    /// Prize pool for the current round, in the smallest currency unit.
    pub jackpot_amount: u64,
    /// Balance carried over from earlier rounds, paid out with the pool.
    pub carry_over_amount: u64,
    /// Timestamp of the last draw, or the extended deadline after a rollover.
    pub last_snapshot: i64,
    pub base_snapshot_interval: u64,
    pub fast_snapshot_interval: u64,
    pub fast_mode_threshold: u64,
    /// Accumulated fees; only compared against the threshold.
    pub fees_collected: u64,
    /// Derived: `fees_collected >= fast_mode_threshold`.
    pub is_fast_mode: bool,
    /// Gates all entries and draws.
    pub is_active: bool,
    pub admin: AccountId,
    pub total_participants: u64,
    pub total_tickets: u64,
    pub total_snapshots: u64,
    /// Seed of the last payout-outcome draw; 0 means no pending winners.
    pub snapshot_seed: u64,
    pub winners: Winners,
    /// Consecutive rollovers since the last payout.
    pub rollover_count: u8,
    /// Last drawn ball count, 1..=30; 0 before any draw and after a payout.
    pub pepe_ball_count: u8,
    /// The ledger of the current round, one entry per participant.
    pub entries: Vec<ParticipantAccount>,
}

/// Tickets granted for a contribution, in hundredths of a unit: a monotone
/// step function with bands at 2000, 10000 and 50000.
pub open spec fn spec_tickets(usd_value: u64) -> u32 {
    if usd_value < 2000 {
        0
    } else if usd_value < 10000 {
        1
    } else if usd_value < 50000 {
        4
    } else {
        10
    }
}

/// Sum of the ticket counts of the first `n` ledger entries.
pub open spec fn prefix_tickets(s: Seq<ParticipantAccount>, n: int) -> int
    decreases n,
{
    if n <= 0 {
        0
    } else {
        prefix_tickets(s, n - 1) + s[n - 1].ticket_count
    }
}

/// Sum of the ticket counts of all ledger entries.
pub open spec fn ticket_total(s: Seq<ParticipantAccount>) -> int {
    prefix_tickets(s, s.len() as int)
}

/// No two ledger entries share a wallet.
pub open spec fn distinct_wallets(s: Seq<ParticipantAccount>) -> bool {
    forall|i: int, j: int|
        0 <= i < j < s.len() ==> s[i].wallet != s[j].wallet
}

/// Some ledger entry belongs to `wallet`.
pub open spec fn has_wallet(s: Seq<ParticipantAccount>, wallet: AccountId) -> bool {
    exists|i: int| 0 <= i < s.len() && s[i].wallet == wallet
}

/// The index of `wallet`'s ledger entry; meaningful when `has_wallet` holds
/// and unique when wallets are distinct.
pub open spec fn wallet_index(s: Seq<ParticipantAccount>, wallet: AccountId) -> int {
    choose|i: int| 0 <= i < s.len() && s[i].wallet == wallet
}

impl Lottery {
    /// The invariant every operation preserves: the aggregate counters agree
    /// with the ledger, the fast-mode flag is the derived comparison, the
    /// configured intervals are positive, and the recorded winners are a
    /// bounded list of distinct identities, none of them the main winner,
    /// present only while a payout-outcome seed is pending.
    pub open spec fn wf(self) -> bool {
        &&& self.total_participants == self.entries@.len()
        &&& self.total_tickets == ticket_total(self.entries@)
        &&& distinct_wallets(self.entries@)
        &&& (forall|i: int| 0 <= i < self.entries@.len() ==> self.entries@[i].ticket_count >= 1)
        &&& self.is_fast_mode == (self.fees_collected >= self.fast_mode_threshold)
        &&& self.base_snapshot_interval > 0
        &&& self.fast_snapshot_interval > 0
        &&& self.last_snapshot >= 0
        &&& self.winners.minor_winners@.len() <= MAX_MINOR_WINNERS
        &&& self.winners.minor_winners@.no_duplicates()
        &&& (self.winners.main_winner matches Some(m) ==> !self.winners.minor_winners@.contains(
            m,
        ))
        &&& (self.winners.main_winner is Some ==> self.snapshot_seed != 0)
    }

    /// The interval that currently gates a draw.
    pub open spec fn spec_active_interval(self) -> u64 {
        if self.is_fast_mode {
            self.fast_snapshot_interval
        } else {
            self.base_snapshot_interval
        }
    }

    /// Whether a draw may happen at time `now`: the lottery is active, the
    /// active interval has elapsed, and the ledger can support selecting
    /// nine distinct winners.
    pub open spec fn spec_can_draw(self, now: int) -> bool {
        &&& self.is_active
        &&& now - self.last_snapshot >= self.spec_active_interval()
        &&& self.total_participants >= MIN_PARTICIPANTS
        &&& self.total_tickets > 0
    }

    /// Returns the gating interval currently in force.
    pub fn active_interval(&self) -> (r: u64)
        ensures
            r == self.spec_active_interval(),
    {
        if self.is_fast_mode {
            self.fast_snapshot_interval
        } else {
            self.base_snapshot_interval
        }
    }

    /// Returns whether a draw may happen at time `now`.
    pub fn can_draw(&self, now: i64) -> (r: bool)
        ensures
            r == self.spec_can_draw(now as int),
    {
        let elapsed: i128 = now as i128 - self.last_snapshot as i128;
        self.is_active && elapsed >= self.active_interval() as i128
            && self.total_participants >= MIN_PARTICIPANTS && self.total_tickets > 0
    }
}

/// `a` and `b` agree on everything but the ledger and its aggregate counters.
pub open spec fn eq_outside_ledger(a: Lottery, b: Lottery) -> bool {
    &&& a.jackpot_amount == b.jackpot_amount
    &&& a.carry_over_amount == b.carry_over_amount
    &&& a.last_snapshot == b.last_snapshot
    &&& a.base_snapshot_interval == b.base_snapshot_interval
    &&& a.fast_snapshot_interval == b.fast_snapshot_interval
    &&& a.fast_mode_threshold == b.fast_mode_threshold
    &&& a.fees_collected == b.fees_collected
    &&& a.is_fast_mode == b.is_fast_mode
    &&& a.is_active == b.is_active
    &&& a.admin == b.admin
    &&& a.total_snapshots == b.total_snapshots
    &&& a.snapshot_seed == b.snapshot_seed
    &&& a.winners.main_winner == b.winners.main_winner
    &&& a.winners.minor_winners@ == b.winners.minor_winners@
    &&& a.rollover_count == b.rollover_count
    &&& a.pepe_ball_count == b.pepe_ball_count
}

/// Appending an entry leaves every shorter prefix sum unchanged.
proof fn lemma_prefix_tickets_push(s: Seq<ParticipantAccount>, e: ParticipantAccount, n: int)
    requires
        0 <= n <= s.len(),
    ensures
        prefix_tickets(s.push(e), n) == prefix_tickets(s, n),
    decreases n,
{
    if n > 0 {
        lemma_prefix_tickets_push(s, e, n - 1);
    }
}

/// Replacing the entry at `i` shifts a prefix sum by the change in that
/// entry's ticket count, and only when the prefix covers `i`.
proof fn lemma_prefix_tickets_update(
    s: Seq<ParticipantAccount>,
    i: int,
    e: ParticipantAccount,
    n: int,
)
    requires
        0 <= i < s.len(),
        0 <= n <= s.len(),
    ensures
        prefix_tickets(s.update(i, e), n) == prefix_tickets(s, n) + if i < n {
            e.ticket_count - s[i].ticket_count
        } else {
            0
        },
    decreases n,
{
    if n > 0 {
        lemma_prefix_tickets_update(s, i, e, n - 1);
    }
}

/// Prefix sums of ticket counts never decrease as the prefix grows.
pub proof fn lemma_prefix_tickets_mono(s: Seq<ParticipantAccount>, m: int, n: int)
    requires
        0 <= m <= n <= s.len(),
    ensures
        prefix_tickets(s, m) <= prefix_tickets(s, n),
    decreases n,
{
    if m < n {
        lemma_prefix_tickets_mono(s, m, n - 1);
    }
}

/// With distinct wallets an entry's index is determined by its wallet.
proof fn lemma_wallet_index_unique(s: Seq<ParticipantAccount>, wallet: AccountId, i: int)
    requires
        distinct_wallets(s),
        0 <= i < s.len(),
        s[i].wallet == wallet,
    ensures
        wallet_index(s, wallet) == i,
{
    let j = wallet_index(s, wallet);
    assert(0 <= j < s.len() && s[j].wallet == wallet);
}

/// Returns the index of `wallet`'s entry, or `None` when it has none.
fn find_entry(entries: &Vec<ParticipantAccount>, wallet: AccountId) -> (r: Option<usize>)
    ensures
        match r {
            Some(i) => i < entries@.len() && entries@[i as int].wallet == wallet,
            None => !has_wallet(entries@, wallet),
        },
{
    let mut j: usize = 0;
    while j < entries.len()
        invariant
            j <= entries@.len(),
            forall|k: int| 0 <= k < j ==> entries@[k].wallet != wallet,
        decreases entries@.len() - j,
    {
        if entries[j].wallet == wallet {
            return Some(j);
        }
        j = j + 1;
    }
    None
}

/// Converts a contribution (in hundredths of a unit) into a ticket count:
/// below 2000 no ticket is granted, then the bands 2000..10000, 10000..50000
/// and 50000.. grant 1, 4 and 10 tickets.
pub fn calculate_tickets_from_usd_value(usd_value: u64) -> (r: u32)
    ensures
        r == spec_tickets(usd_value),
{
    if usd_value < 2000 {
        0
    } else if usd_value < 10000 {
        1
    } else if usd_value < 50000 {
        4
    } else {
        10
    }
}

/// Records `tickets` for `participant`: the first contribution of a round
/// creates that participant's entry, and any further one is routed to the
/// same entry, so the ledger never holds two entries for one wallet.
fn grant_entry(
    l: &mut Lottery,
    participant: AccountId,
    tickets: u32,
    usd_value: u64,
    now: i64,
) -> (r: (u32, u64))
    requires
        old(l).wf(),
        tickets >= 1,
        old(l).total_tickets + tickets <= u64::MAX,
        !has_wallet(old(l).entries@, participant) ==> old(l).total_participants < u64::MAX,
        has_wallet(old(l).entries@, participant) ==> {
            let e = old(l).entries@[wallet_index(old(l).entries@, participant)];
            e.ticket_count + tickets <= u32::MAX && e.usd_value + usd_value <= u64::MAX
        },
    ensures
        final(l).wf(),
        eq_outside_ledger(*final(l), *old(l)),
        final(l).total_tickets == old(l).total_tickets + tickets,
        r == (tickets, final(l).total_tickets),
        has_wallet(old(l).entries@, participant) ==> {
            let i = wallet_index(old(l).entries@, participant);
            let e = old(l).entries@[i];
            &&& final(l).entries@ == old(l).entries@.update(
                i,
                (ParticipantAccount {
                    wallet: e.wallet,
                    ticket_count: (e.ticket_count + tickets) as u32,
                    usd_value: (e.usd_value + usd_value) as u64,
                    entry_time: e.entry_time,
                }),
            )
            &&& final(l).total_participants == old(l).total_participants
        },
        !has_wallet(old(l).entries@, participant) ==> {
            &&& final(l).entries@ == old(l).entries@.push(
                (ParticipantAccount {
                    wallet: participant,
                    ticket_count: tickets,
                    usd_value: usd_value,
                    entry_time: now,
                }),
            )
            &&& final(l).total_participants == old(l).total_participants + 1
        },
{
    let ghost old_entries = l.entries@;
    match find_entry(&l.entries, participant) {
        Some(i) => {
            proof {
                lemma_wallet_index_unique(old_entries, participant, i as int);
            }
            let e = l.entries[i];
            let updated = ParticipantAccount {
                wallet: e.wallet,
                ticket_count: e.ticket_count + tickets,
                usd_value: e.usd_value + usd_value,
                entry_time: e.entry_time,
            };
            l.entries[i] = updated;
            proof {
                lemma_prefix_tickets_update(old_entries, i as int, updated, old_entries.len() as int);
            }
            l.total_tickets = l.total_tickets + tickets as u64;
            (tickets, l.total_tickets)
        },
        None => {
            let entry = ParticipantAccount {
                wallet: participant,
                ticket_count: tickets,
                usd_value,
                entry_time: now,
            };
            l.entries.push(entry);
            proof {
                lemma_prefix_tickets_push(old_entries, entry, old_entries.len() as int);
                assert forall|i: int, j: int|
                    0 <= i < j < l.entries@.len() implies l.entries@[i].wallet
                    != l.entries@[j].wallet by {
                    if j < old_entries.len() {
                        assert(old_entries[i].wallet != old_entries[j].wallet);
                    } else {
                        assert(!(0 <= i < old_entries.len() && old_entries[i].wallet
                            == participant));
                    }
                }
            }
            l.total_participants = l.total_participants + 1;
            l.total_tickets = l.total_tickets + tickets as u64;
            (tickets, l.total_tickets)
        },
    }
}

/// Accepts a contribution stated as a value amount, converts it into tickets
/// via the step function, and records them for `participant`. Returns the
/// tickets granted and the new overall ticket total. A repeat contribution in
/// the same round adds to the participant's existing entry.
pub fn enter_lottery_with_usd_value(
    l: &mut Lottery,
    participant: AccountId,
    usd_value: u64,
    now: i64,
) -> (r: Result<(u32, u64), ErrorCode>)
    requires
        old(l).wf(),
        old(l).is_active && spec_tickets(usd_value) >= 1 ==> {
            &&& old(l).total_tickets + spec_tickets(usd_value) <= u64::MAX
            &&& !has_wallet(old(l).entries@, participant) ==> old(l).total_participants
                < u64::MAX
            &&& has_wallet(old(l).entries@, participant) ==> {
                let e = old(l).entries@[wallet_index(old(l).entries@, participant)];
                e.ticket_count + spec_tickets(usd_value) <= u32::MAX && e.usd_value + usd_value
                    <= u64::MAX
            }
        },
    ensures
        final(l).wf(),
        !old(l).is_active ==> r == Err::<(u32, u64), ErrorCode>(ErrorCode::LotteryInactive)
            && *final(l) == *old(l),
        old(l).is_active && spec_tickets(usd_value) == 0 ==> r == Err::<(u32, u64), ErrorCode>(
            ErrorCode::InsufficientValue,
        ) && *final(l) == *old(l),
        old(l).is_active && spec_tickets(usd_value) >= 1 ==> {
            let t = spec_tickets(usd_value);
            &&& r == Ok::<(u32, u64), ErrorCode>((t, (old(l).total_tickets + t) as u64))
            &&& final(l).total_tickets == old(l).total_tickets + t
            &&& eq_outside_ledger(*final(l), *old(l))
            &&& has_wallet(old(l).entries@, participant) ==> {
                let i = wallet_index(old(l).entries@, participant);
                let e = old(l).entries@[i];
                &&& final(l).entries@ == old(l).entries@.update(
                    i,
                    (ParticipantAccount {
                        wallet: e.wallet,
                        ticket_count: (e.ticket_count + t) as u32,
                        usd_value: (e.usd_value + usd_value) as u64,
                        entry_time: e.entry_time,
                    }),
                )
                &&& final(l).total_participants == old(l).total_participants
            }
            &&& !has_wallet(old(l).entries@, participant) ==> {
                &&& final(l).entries@ == old(l).entries@.push(
                    (ParticipantAccount {
                        wallet: participant,
                        ticket_count: t,
                        usd_value: usd_value,
                        entry_time: now,
                    }),
                )
                &&& final(l).total_participants == old(l).total_participants + 1
            }
        },
{
    if !l.is_active {
        return Err(ErrorCode::LotteryInactive);
    }
    let ticket_count = calculate_tickets_from_usd_value(usd_value);
    if ticket_count == 0 {
        return Err(ErrorCode::InsufficientValue);
    }
    Ok(grant_entry(l, participant, ticket_count, usd_value, now))
}

/// Accepts an explicit ticket grant with no value conversion. A grant of zero
/// tickets is rejected with `InsufficientValue`, so every ledger entry holds
/// at least one ticket. A repeat grant in the same round adds to the
/// participant's existing entry.
pub fn enter_lottery(
    l: &mut Lottery,
    participant: AccountId,
    ticket_count: u32,
    now: i64,
) -> (r: Result<(u32, u64), ErrorCode>)
    requires
        old(l).wf(),
        old(l).is_active && ticket_count >= 1 ==> {
            &&& old(l).total_tickets + ticket_count <= u64::MAX
            &&& !has_wallet(old(l).entries@, participant) ==> old(l).total_participants
                < u64::MAX
            &&& has_wallet(old(l).entries@, participant) ==> {
                let e = old(l).entries@[wallet_index(old(l).entries@, participant)];
                e.ticket_count + ticket_count <= u32::MAX
            }
        },
    ensures
        final(l).wf(),
        !old(l).is_active ==> r == Err::<(u32, u64), ErrorCode>(ErrorCode::LotteryInactive)
            && *final(l) == *old(l),
        old(l).is_active && ticket_count == 0 ==> r == Err::<(u32, u64), ErrorCode>(
            ErrorCode::InsufficientValue,
        ) && *final(l) == *old(l),
        old(l).is_active && ticket_count >= 1 ==> {
            &&& r == Ok::<(u32, u64), ErrorCode>((
                ticket_count,
                (old(l).total_tickets + ticket_count) as u64,
            ))
            &&& final(l).total_tickets == old(l).total_tickets + ticket_count
            &&& eq_outside_ledger(*final(l), *old(l))
            &&& has_wallet(old(l).entries@, participant) ==> {
                let i = wallet_index(old(l).entries@, participant);
                let e = old(l).entries@[i];
                &&& final(l).entries@ == old(l).entries@.update(
                    i,
                    (ParticipantAccount {
                        wallet: e.wallet,
                        ticket_count: (e.ticket_count + ticket_count) as u32,
                        usd_value: e.usd_value,
                        entry_time: e.entry_time,
                    }),
                )
                &&& final(l).total_participants == old(l).total_participants
            }
            &&& !has_wallet(old(l).entries@, participant) ==> {
                &&& final(l).entries@ == old(l).entries@.push(
                    (ParticipantAccount {
                        wallet: participant,
                        ticket_count: ticket_count,
                        usd_value: 0,
                        entry_time: now,
                    }),
                )
                &&& final(l).total_participants == old(l).total_participants + 1
            }
        },
{
    if !l.is_active {
        return Err(ErrorCode::LotteryInactive);
    }
    if ticket_count == 0 {
        return Err(ErrorCode::InsufficientValue);
    }
    Ok(grant_entry(l, participant, ticket_count, 0, now))
}

/// Adds tickets and contributed value to an existing entry: the explicit
/// update path for repeat contributions. Fails with `Unauthorized` when
/// `participant` has no entry in the current round.
pub fn update_participant_tickets(
    l: &mut Lottery,
    participant: AccountId,
    ticket_count: u32,
    usd_value: u64,
) -> (r: Result<(), ErrorCode>)
    requires
        old(l).wf(),
        old(l).is_active && has_wallet(old(l).entries@, participant) ==> {
            let e = old(l).entries@[wallet_index(old(l).entries@, participant)];
            &&& old(l).total_tickets + ticket_count <= u64::MAX
            &&& e.ticket_count + ticket_count <= u32::MAX
            &&& e.usd_value + usd_value <= u64::MAX
        },
    ensures
        final(l).wf(),
        !old(l).is_active ==> r == Err::<(), ErrorCode>(ErrorCode::LotteryInactive) && *final(l)
            == *old(l),
        old(l).is_active && !has_wallet(old(l).entries@, participant) ==> r == Err::<
            (),
            ErrorCode,
        >(ErrorCode::Unauthorized) && *final(l) == *old(l),
        old(l).is_active && has_wallet(old(l).entries@, participant) ==> {
            let i = wallet_index(old(l).entries@, participant);
            let e = old(l).entries@[i];
            &&& r == Ok::<(), ErrorCode>(())
            &&& eq_outside_ledger(*final(l), *old(l))
            &&& final(l).total_participants == old(l).total_participants
            &&& final(l).total_tickets == old(l).total_tickets + ticket_count
            &&& final(l).entries@ == old(l).entries@.update(
                i,
                (ParticipantAccount {
                    wallet: e.wallet,
                    ticket_count: (e.ticket_count + ticket_count) as u32,
                    usd_value: (e.usd_value + usd_value) as u64,
                    entry_time: e.entry_time,
                }),
            )
        },
{
    if !l.is_active {
        return Err(ErrorCode::LotteryInactive);
    }
    let ghost old_entries = l.entries@;
    match find_entry(&l.entries, participant) {
        Some(i) => {
            proof {
                lemma_wallet_index_unique(old_entries, participant, i as int);
            }
            let e = l.entries[i];
            let updated = ParticipantAccount {
                wallet: e.wallet,
                ticket_count: e.ticket_count + ticket_count,
                usd_value: e.usd_value + usd_value,
                entry_time: e.entry_time,
            };
            l.entries[i] = updated;
            proof {
                lemma_prefix_tickets_update(old_entries, i as int, updated, old_entries.len() as int);
            }
            l.total_tickets = l.total_tickets + ticket_count as u64;
            Ok(())
        },
        None => Err(ErrorCode::Unauthorized),
    }
}

/// Creates a lottery with the configured defaults, an empty ledger, and the
/// caller as admin. Fails with `InvalidConfig` when the initial jackpot is
/// zero or above `MAX_INITIAL_JACKPOT`.
pub fn initialize_lottery(jackpot_amount: u64, admin: AccountId, now: i64) -> (r: Result<
    Lottery,
    ErrorCode,
>)
    requires
        now >= 0,
    ensures
        (jackpot_amount == 0 || jackpot_amount > MAX_INITIAL_JACKPOT) <==> r == Err::<
            Lottery,
            ErrorCode,
        >(ErrorCode::InvalidConfig),
        (0 < jackpot_amount <= MAX_INITIAL_JACKPOT) <==> r is Ok,
        r matches Ok(l) ==> {
            &&& l.wf()
            &&& l.jackpot_amount == jackpot_amount
            &&& l.carry_over_amount == 0
            &&& l.last_snapshot == now
            &&& l.base_snapshot_interval == BASE_SNAPSHOT_INTERVAL
            &&& l.fast_snapshot_interval == FAST_SNAPSHOT_INTERVAL
            &&& l.fast_mode_threshold == FAST_MODE_THRESHOLD
            &&& l.fees_collected == 0
            &&& !l.is_fast_mode
            &&& l.is_active
            &&& l.admin == admin
            &&& l.total_participants == 0
            &&& l.total_tickets == 0
            &&& l.total_snapshots == 0
            &&& l.snapshot_seed == 0
            &&& l.winners.main_winner is None
            &&& l.winners.minor_winners@.len() == 0
            &&& l.rollover_count == 0
            &&& l.pepe_ball_count == 0
            &&& l.entries@.len() == 0
        },
{
    if jackpot_amount == 0 || jackpot_amount > MAX_INITIAL_JACKPOT {
        return Err(ErrorCode::InvalidConfig);
    }
    Ok(
        Lottery {
            jackpot_amount,
            carry_over_amount: 0,
            last_snapshot: now,
            base_snapshot_interval: BASE_SNAPSHOT_INTERVAL,
            fast_snapshot_interval: FAST_SNAPSHOT_INTERVAL,
            fast_mode_threshold: FAST_MODE_THRESHOLD,
            fees_collected: 0,
            is_fast_mode: false,
            is_active: true,
            admin,
            total_participants: 0,
            total_tickets: 0,
            total_snapshots: 0,
            snapshot_seed: 0,
            winners: Winners { main_winner: None, minor_winners: Vec::new() },
            rollover_count: 0,
            pepe_ball_count: 0,
            entries: Vec::new(),
        },
    )
}

/// In every well-formed state the aggregate ticket counter equals the sum of
/// the ticket counts over the live ledger entries — the ledger and its
/// counter can never drift apart, however many entries and updates led here.
pub proof fn lemma_total_tickets_matches_ledger(l: Lottery)
    requires
        l.wf(),
    ensures
        l.total_tickets == ticket_total(l.entries@),
        l.total_participants == l.entries@.len(),
{
}

/// A paused lottery can never draw, whatever the elapsed time and however
/// many participants hold tickets.
pub proof fn lemma_inactive_blocks_draw(l: Lottery, now: int)
    requires
        !l.is_active,
    ensures
        !l.spec_can_draw(now),
{
}

/// The seed a draw at time `timestamp` and slot `slot` derives: a wrapping
/// mix of the slot counter, the timestamp and the running participant and
/// draw counters. Because 0 is reserved as the "no pending winners" sentinel,
/// the one mix that lands on 0 is nudged to 1, so a derived seed is never the
/// sentinel. Deterministic in its inputs, and unpredictable only because the
/// slot counter is outside any single actor's control at call time; it is not
/// cryptographically secure.
pub open spec fn spec_seed(slot: u64, timestamp: i64, participants: u64, snapshots: u64) -> u64 {
    let mix = slot.wrapping_mul(timestamp as u64).wrapping_add(participants).wrapping_add(
        snapshots,
    );
    if mix == 0 {
        1
    } else {
        mix
    }
}

/// The ball count a seed yields: 1..=30; its parity picks payout or rollover.
pub open spec fn spec_ball_count(seed: u64) -> u8 {
    ((seed % BALL_COUNT_SPAN) + 1) as u8
}

/// How far a rollover pushes the next deadline: 48 hours when the new streak
/// is odd, 72 hours when it is even.
pub open spec fn spec_rollover_extension(new_streak: u8) -> i64 {
    if new_streak % 2 == 0 {
        ROLLOVER_EXTENSION_EVEN
    } else {
        ROLLOVER_EXTENSION_ODD
    }
}

/// `a` and `b` agree on everything no draw ever touches: the pools, the
/// configuration, and the ledger.
pub open spec fn eq_outside_draw(a: Lottery, b: Lottery) -> bool {
    &&& a.jackpot_amount == b.jackpot_amount
    &&& a.carry_over_amount == b.carry_over_amount
    &&& a.base_snapshot_interval == b.base_snapshot_interval
    &&& a.fast_snapshot_interval == b.fast_snapshot_interval
    &&& a.fast_mode_threshold == b.fast_mode_threshold
    &&& a.fees_collected == b.fees_collected
    &&& a.is_active == b.is_active
    &&& a.admin == b.admin
    &&& a.total_participants == b.total_participants
    &&& a.total_tickets == b.total_tickets
    &&& a.entries@ == b.entries@
}

/// Runs one draw at time `now` and slot `slot`: derives the seed, draws the
/// ball count, and atomically applies the outcome its parity picks.
///
/// An odd ball count is the payout path: the (always non-zero) seed is
/// retained so winners can be recorded, the clock restarts at `now`, and the
/// rollover streak is left for the payout to reset. An even count is the
/// rollover path: the seed is cleared to the sentinel 0 (no pending winners),
/// any winners still recorded from an earlier round are dropped with it, the
/// streak grows by one, and the next deadline is pushed past `now` by the
/// alternating 48/72-hour extension. The pools and the ledger are untouched
/// either way.
pub fn take_snapshot(l: &mut Lottery, now: i64, slot: u64) -> (r: Result<(u64, u8), ErrorCode>)
    requires
        old(l).wf(),
        old(l).spec_can_draw(now as int) ==> {
            &&& 0 <= now <= i64::MAX - ROLLOVER_EXTENSION_EVEN
            &&& old(l).total_snapshots < u64::MAX
            &&& old(l).rollover_count < u8::MAX
        },
    ensures
        final(l).wf(),
        r is Ok <==> old(l).spec_can_draw(now as int),
        !old(l).is_active ==> r == Err::<(u64, u8), ErrorCode>(ErrorCode::LotteryInactive)
            && *final(l) == *old(l),
        old(l).is_active && now - old(l).last_snapshot < old(l).spec_active_interval() ==> r
            == Err::<(u64, u8), ErrorCode>(ErrorCode::DrawTooEarly) && *final(l) == *old(l),
        old(l).is_active && now - old(l).last_snapshot >= old(l).spec_active_interval() && (old(
            l,
        ).total_participants < MIN_PARTICIPANTS || old(l).total_tickets == 0) ==> r == Err::<
            (u64, u8),
            ErrorCode,
        >(ErrorCode::NotEnoughParticipants) && *final(l) == *old(l),
        old(l).spec_can_draw(now as int) ==> {
            let s = spec_seed(slot, now, old(l).total_participants, old(l).total_snapshots);
            let ball = spec_ball_count(s);
            &&& r == Ok::<(u64, u8), ErrorCode>((s, ball))
            &&& eq_outside_draw(*final(l), *old(l))
            &&& final(l).pepe_ball_count == ball
            &&& final(l).total_snapshots == old(l).total_snapshots + 1
            &&& final(l).is_fast_mode == old(l).is_fast_mode
            &&& ball % 2 == 1 ==> {
                &&& final(l).snapshot_seed == s
                &&& final(l).snapshot_seed != 0
                &&& final(l).last_snapshot == now
                &&& final(l).rollover_count == old(l).rollover_count
                &&& final(l).winners.main_winner == old(l).winners.main_winner
                &&& final(l).winners.minor_winners@ == old(l).winners.minor_winners@
            }
            &&& ball % 2 == 0 ==> {
                &&& final(l).snapshot_seed == 0
                &&& final(l).rollover_count == old(l).rollover_count + 1
                &&& final(l).last_snapshot == now + spec_rollover_extension(
                    (old(l).rollover_count + 1) as u8,
                )
                &&& final(l).winners.main_winner is None
                &&& final(l).winners.minor_winners@.len() == 0
            }
        },
{
    if !l.is_active {
        return Err(ErrorCode::LotteryInactive);
    }
    let snapshot_interval = if l.fees_collected >= l.fast_mode_threshold {
        l.fast_snapshot_interval
    } else {
        l.base_snapshot_interval
    };
    if (now as i128) - (l.last_snapshot as i128) < snapshot_interval as i128 {
        return Err(ErrorCode::DrawTooEarly);
    }
    if l.total_participants < MIN_PARTICIPANTS {
        return Err(ErrorCode::NotEnoughParticipants);
    }
    if l.total_tickets == 0 {
        return Err(ErrorCode::NotEnoughParticipants);
    }
    let mix = slot.wrapping_mul(now as u64).wrapping_add(l.total_participants).wrapping_add(
        l.total_snapshots,
    );
    // 0 is the "no pending winners" sentinel, so it can never be the seed of
    // a draw: the one mix that lands on it is nudged to 1.
    let seed = if mix == 0 {
        1
    } else {
        mix
    };
    let pepe_count = ((seed % BALL_COUNT_SPAN) as u8) + 1;
    l.pepe_ball_count = pepe_count;
    let is_odd = pepe_count % 2 == 1;
    l.snapshot_seed = seed;
    l.last_snapshot = now;
    l.total_snapshots = l.total_snapshots + 1;
    l.is_fast_mode = l.fees_collected >= l.fast_mode_threshold;
    if !is_odd {
        l.rollover_count = l.rollover_count + 1;
        let extension = if l.rollover_count % 2 == 0 {
            ROLLOVER_EXTENSION_EVEN
        } else {
            ROLLOVER_EXTENSION_ODD
        };
        l.last_snapshot = now + extension;
        l.snapshot_seed = 0;
        l.winners.main_winner = None;
        l.winners.minor_winners.clear();
    }
    Ok((seed, pepe_count))
}

/// A winner list is well formed when its minor winners are pairwise distinct
/// and none of them is the main winner.
pub open spec fn spec_winner_list_valid(main_winner: AccountId, minors: Seq<AccountId>) -> bool {
    &&& minors.no_duplicates()
    &&& !minors.contains(main_winner)
}

/// Returns whether the supplied minor winners are pairwise distinct and none
/// of them is the main winner.
fn winner_list_valid(main_winner: AccountId, minor_winners: &Vec<AccountId>) -> (b: bool)
    ensures
        b == spec_winner_list_valid(main_winner, minor_winners@),
{
    let n = minor_winners.len();
    let mut i: usize = 0;
    while i < n
        invariant
            i <= n,
            n == minor_winners@.len(),
            forall|k: int| 0 <= k < i ==> minor_winners@[k] != main_winner,
            forall|k1: int, k2: int|
                0 <= k1 < k2 < i ==> minor_winners@[k1] != minor_winners@[k2],
        decreases n - i,
    {
        if minor_winners[i] == main_winner {
            assert(minor_winners@.contains(main_winner)) by {
                assert(minor_winners@[i as int] == main_winner);
            }
            return false;
        }
        let mut j: usize = 0;
        while j < i
            invariant
                j <= i < n,
                n == minor_winners@.len(),
                forall|k: int| 0 <= k < j ==> minor_winners@[k] != minor_winners@[i as int],
            decreases i - j,
        {
            if minor_winners[j] == minor_winners[i] {
                assert(!minor_winners@.no_duplicates()) by {
                    assert(minor_winners@[j as int] == minor_winners@[i as int]);
                }
                return false;
            }
            j = j + 1;
        }
        i = i + 1;
    }
    proof {
        assert forall|k1: int, k2: int|
            0 <= k1 < minor_winners@.len() && 0 <= k2 < minor_winners@.len() && k1
                != k2 implies minor_winners@[k1] != minor_winners@[k2] by {
            if k1 < k2 {
                assert(minor_winners@[k1] != minor_winners@[k2]);
            } else {
                assert(minor_winners@[k2] != minor_winners@[k1]);
            }
        }
    }
    true
}

/// Records the winners a payout-outcome draw selected. Only the admin may
/// call it, only while a seed is pending (`snapshot_seed != 0`), and only
/// with at most eight distinct minor winners, none of them the main winner.
pub fn set_winners(
    l: &mut Lottery,
    caller: AccountId,
    main_winner: AccountId,
    minor_winners: Vec<AccountId>,
) -> (r: Result<(), ErrorCode>)
    requires
        old(l).wf(),
    ensures
        final(l).wf(),
        caller != old(l).admin ==> r == Err::<(), ErrorCode>(ErrorCode::Unauthorized) && *final(l)
            == *old(l),
        caller == old(l).admin && old(l).snapshot_seed == 0 ==> r == Err::<(), ErrorCode>(
            ErrorCode::NoWinners,
        ) && *final(l) == *old(l),
        caller == old(l).admin && old(l).snapshot_seed != 0 && (minor_winners@.len()
            > MAX_MINOR_WINNERS || !spec_winner_list_valid(main_winner, minor_winners@)) ==> r
            == Err::<(), ErrorCode>(ErrorCode::InvalidConfig) && *final(l) == *old(l),
        caller == old(l).admin && old(l).snapshot_seed != 0 && minor_winners@.len()
            <= MAX_MINOR_WINNERS && spec_winner_list_valid(main_winner, minor_winners@) ==> {
            &&& r == Ok::<(), ErrorCode>(())
            &&& final(l).winners.main_winner == Some(main_winner)
            &&& final(l).winners.minor_winners@ == minor_winners@
            &&& *final(l) == (Lottery { winners: final(l).winners, ..*old(l) })
        },
{
    if caller != l.admin {
        return Err(ErrorCode::Unauthorized);
    }
    if l.snapshot_seed == 0 {
        return Err(ErrorCode::NoWinners);
    }
    if minor_winners.len() > MAX_MINOR_WINNERS {
        return Err(ErrorCode::InvalidConfig);
    }
    if !winner_list_valid(main_winner, &minor_winners) {
        return Err(ErrorCode::InvalidConfig);
    }
    l.winners.main_winner = Some(main_winner);
    l.winners.minor_winners = minor_winners;
    Ok(())
}

/// The per-recipient amounts one payout computes from the distributable pool.
#[derive(Clone, Copy, Debug, PartialEq, Eq, Structural)]
pub struct PayoutAmounts {
    /// The whole pool distributed: prize pool plus carry-over.
    pub total_distributable: u64,
    /// 50% of the pool, for the main winner.
    pub main_reward: u64,
    /// 40% of the pool, split across the minor winners.
    pub minor_pool: u64,
    /// 5% of the pool: one minor winner's share, an eighth of the minor pool.
    pub minor_each: u64,
    /// 10% of the pool, for the protocol fee sink.
    pub house_fee: u64,
}

/// Whole basis points of the distributable pool.
pub const PAYOUT_BASIS_POINTS: u64 = 10000;

/// The percentage schedule a payout applies, in basis points of the
/// distributable pool. The shares may sum to less than the whole; the
/// remainder stays in the pool's source as operational float.
#[derive(Clone, Copy, Debug, PartialEq, Eq, Structural)]
pub struct PayoutSchedule {
    /// Main winner's share.
    pub main_bp: u16,
    /// The pool split evenly across the minor winners.
    pub minor_pool_bp: u16,
    /// The protocol fee sink's share.
    pub house_bp: u16,
}

impl PayoutSchedule {
    /// The three shares never promise more than the whole pool.
    pub open spec fn wf(self) -> bool {
        self.main_bp + self.minor_pool_bp + self.house_bp <= PAYOUT_BASIS_POINTS
    }

    /// The canonical split: 50% main, 40% minor pool, 10% house.
    pub fn standard() -> (s: PayoutSchedule)
        ensures
            s == (PayoutSchedule { main_bp: 5000, minor_pool_bp: 4000, house_bp: 1000 }),
            s.wf(),
    {
        PayoutSchedule { main_bp: 5000, minor_pool_bp: 4000, house_bp: 1000 }
    }
}

/// Truncating basis-point shares of a pool stay within it: each share is
/// non-negative, and together they never exceed the pool — any rounding loss
/// is retained, never redistributed.
proof fn lemma_payout_shares_bounded(pool: int, a: int, b: int, c: int)
    requires
        pool >= 0,
        0 <= a,
        0 <= b,
        0 <= c,
        a + b + c <= PAYOUT_BASIS_POINTS,
    ensures
        0 <= (pool * a) / (PAYOUT_BASIS_POINTS as int),
        0 <= (pool * b) / (PAYOUT_BASIS_POINTS as int),
        0 <= (pool * c) / (PAYOUT_BASIS_POINTS as int),
        (pool * a) / (PAYOUT_BASIS_POINTS as int) + (pool * b) / (PAYOUT_BASIS_POINTS as int) + (
        pool * c) / (PAYOUT_BASIS_POINTS as int) <= pool,
{
    let d = PAYOUT_BASIS_POINTS as int;
    vstd::arithmetic::mul::lemma_mul_nonnegative(pool, a);
    vstd::arithmetic::mul::lemma_mul_nonnegative(pool, b);
    vstd::arithmetic::mul::lemma_mul_nonnegative(pool, c);
    let qa = (pool * a) / d;
    let qb = (pool * b) / d;
    let qc = (pool * c) / d;
    assert(pool * a == d * qa + (pool * a) % d);
    assert(pool * b == d * qb + (pool * b) % d);
    assert(pool * c == d * qc + (pool * c) % d);
    assert(pool * a + pool * b + pool * c == pool * (a + b + c)) by (nonlinear_arith);
    vstd::arithmetic::mul::lemma_mul_inequality(a + b + c, d, pool);
    assert(pool * (a + b + c) == (a + b + c) * pool) by (nonlinear_arith);
    assert(pool * d == d * pool) by (nonlinear_arith);
}

/// The pure payout math: each recipient class receives its truncating
/// basis-point share of the pool, and a minor winner an eighth of the minor
/// pool. Independent of any lottery state.
pub fn payout_amounts(pool: u64, schedule: PayoutSchedule) -> (a: PayoutAmounts)
    requires
        schedule.wf(),
    ensures
        a.total_distributable == pool,
        a.main_reward == (pool * schedule.main_bp) / (PAYOUT_BASIS_POINTS as int),
        a.minor_pool == (pool * schedule.minor_pool_bp) / (PAYOUT_BASIS_POINTS as int),
        a.minor_each == a.minor_pool / 8,
        a.house_fee == (pool * schedule.house_bp) / (PAYOUT_BASIS_POINTS as int),
        a.main_reward + a.minor_pool + a.house_fee <= pool,
{
    proof {
        vstd::arithmetic::mul::lemma_mul_upper_bound(
            pool as int,
            u64::MAX as int,
            PAYOUT_BASIS_POINTS as int,
            PAYOUT_BASIS_POINTS as int,
        );
        lemma_payout_shares_bounded(
            pool as int,
            schedule.main_bp as int,
            schedule.minor_pool_bp as int,
            schedule.house_bp as int,
        );
    }
    let main_reward = ((pool as u128 * schedule.main_bp as u128)
        / (PAYOUT_BASIS_POINTS as u128)) as u64;
    let minor_pool = ((pool as u128 * schedule.minor_pool_bp as u128)
        / (PAYOUT_BASIS_POINTS as u128)) as u64;
    let minor_each = minor_pool / 8;
    let house_fee = ((pool as u128 * schedule.house_bp as u128)
        / (PAYOUT_BASIS_POINTS as u128)) as u64;
    PayoutAmounts { total_distributable: pool, main_reward, minor_pool, minor_each, house_fee }
}

/// The standard schedule in basis points computes the very same truncating
/// quotients as halving, two fifths, and a tenth of the pool.
proof fn lemma_standard_schedule_fractions(t: int)
    requires
        t >= 0,
    ensures
        (t * 5000) / (PAYOUT_BASIS_POINTS as int) == t / 2,
        (t * 4000) / (PAYOUT_BASIS_POINTS as int) == (2 * t) / 5,
        (t * 1000) / (PAYOUT_BASIS_POINTS as int) == t / 10,
{
    vstd::arithmetic::div_mod::lemma_div_multiples_vanish_quotient(5000, t, 2);
    assert(t * 5000 == 5000 * t) by (nonlinear_arith);
    vstd::arithmetic::mul::lemma_mul_nonnegative(2, t);
    vstd::arithmetic::div_mod::lemma_div_multiples_vanish_quotient(2000, 2 * t, 5);
    assert(t * 4000 == 2000 * (2 * t)) by (nonlinear_arith);
    assert(2000 * 5 == PAYOUT_BASIS_POINTS);
    vstd::arithmetic::div_mod::lemma_div_multiples_vanish_quotient(1000, t, 10);
    assert(t * 1000 == 1000 * t) by (nonlinear_arith);
}

/// Pays the recorded winners: computes the 50/40/10 schedule on the prize
/// pool plus the carry-over (integer division, truncating), then resets every
/// round-scoped field — pools, winners, seed, streak, ball count, and the
/// whole ledger — for the next round.
///
/// Fails with `NoWinners` when no main winner is recorded, and with
/// `PayoutNotAllowed` when the last outcome was a rollover (even ball count),
/// which guards against paying out after the round already rolled over.
pub fn payout_winners(l: &mut Lottery) -> (r: Result<PayoutAmounts, ErrorCode>)
    requires
        old(l).wf(),
        old(l).winners.main_winner is Some && old(l).pepe_ball_count % 2 == 1 ==> old(
            l,
        ).jackpot_amount + old(l).carry_over_amount <= u64::MAX,
    ensures
        final(l).wf(),
        old(l).winners.main_winner is None ==> r == Err::<PayoutAmounts, ErrorCode>(
            ErrorCode::NoWinners,
        ) && *final(l) == *old(l),
        old(l).winners.main_winner is Some && old(l).pepe_ball_count % 2 == 0 ==> r == Err::<
            PayoutAmounts,
            ErrorCode,
        >(ErrorCode::PayoutNotAllowed) && *final(l) == *old(l),
        old(l).winners.main_winner is Some && old(l).pepe_ball_count % 2 == 1 ==> {
            let total = old(l).jackpot_amount + old(l).carry_over_amount;
            &&& r matches Ok(a) && {
                &&& a.total_distributable == total
                &&& a.main_reward == total / 2
                &&& a.minor_pool == (2 * total) / 5
                &&& a.minor_each == ((2 * total) / 5) / 8
                &&& a.house_fee == total / 10
                &&& a.main_reward + a.minor_pool + a.house_fee <= total
            }
            &&& final(l).jackpot_amount == 0
            &&& final(l).carry_over_amount == 0
            &&& final(l).winners.main_winner is None
            &&& final(l).winners.minor_winners@.len() == 0
            &&& final(l).snapshot_seed == 0
            &&& final(l).rollover_count == 0
            &&& final(l).pepe_ball_count == 0
            &&& final(l).total_participants == 0
            &&& final(l).total_tickets == 0
            &&& final(l).entries@.len() == 0
            &&& final(l).last_snapshot == old(l).last_snapshot
            &&& final(l).base_snapshot_interval == old(l).base_snapshot_interval
            &&& final(l).fast_snapshot_interval == old(l).fast_snapshot_interval
            &&& final(l).fast_mode_threshold == old(l).fast_mode_threshold
            &&& final(l).fees_collected == old(l).fees_collected
            &&& final(l).is_fast_mode == old(l).is_fast_mode
            &&& final(l).is_active == old(l).is_active
            &&& final(l).admin == old(l).admin
            &&& final(l).total_snapshots == old(l).total_snapshots
        },
{
    if l.winners.main_winner.is_none() {
        return Err(ErrorCode::NoWinners);
    }
    if l.pepe_ball_count % 2 == 0 {
        return Err(ErrorCode::PayoutNotAllowed);
    }
    let total_jackpot = l.jackpot_amount + l.carry_over_amount;
    let amounts = payout_amounts(total_jackpot, PayoutSchedule::standard());
    proof {
        lemma_standard_schedule_fractions(total_jackpot as int);
    }
    l.carry_over_amount = 0;
    l.jackpot_amount = 0;
    l.winners.main_winner = None;
    l.winners.minor_winners.clear();
    l.snapshot_seed = 0;
    l.rollover_count = 0;
    l.pepe_ball_count = 0;
    l.total_participants = 0;
    l.total_tickets = 0;
    l.entries.clear();
    Ok(amounts)
}

/// Sets the accumulated-fee counter and recomputes the fast-mode flag, so a
/// threshold crossing takes effect on the next gating check. Admin only.
pub fn update_fees_collected(l: &mut Lottery, caller: AccountId, new_fees: u64) -> (r: Result<
    (),
    ErrorCode,
>)
    requires
        old(l).wf(),
    ensures
        final(l).wf(),
        caller != old(l).admin ==> r == Err::<(), ErrorCode>(ErrorCode::Unauthorized) && *final(l)
            == *old(l),
        caller == old(l).admin ==> {
            &&& r == Ok::<(), ErrorCode>(())
            &&& final(l).fees_collected == new_fees
            &&& final(l).is_fast_mode == (new_fees >= old(l).fast_mode_threshold)
            &&& *final(l) == (Lottery {
                fees_collected: new_fees,
                is_fast_mode: final(l).is_fast_mode,
                ..*old(l)
            })
        },
{
    if caller != l.admin {
        return Err(ErrorCode::Unauthorized);
    }
    l.fees_collected = new_fees;
    l.is_fast_mode = l.fees_collected >= l.fast_mode_threshold;
    Ok(())
}

/// Toggles whether the lottery accepts entries and draws. Admin only.
pub fn emergency_pause_lottery(l: &mut Lottery, caller: AccountId) -> (r: Result<(), ErrorCode>)
    requires
        old(l).wf(),
    ensures
        final(l).wf(),
        caller != old(l).admin ==> r == Err::<(), ErrorCode>(ErrorCode::Unauthorized) && *final(l)
            == *old(l),
        caller == old(l).admin ==> r == Ok::<(), ErrorCode>(()) && *final(l) == (Lottery {
            is_active: !old(l).is_active,
            ..*old(l)
        }),
{
    if caller != l.admin {
        return Err(ErrorCode::Unauthorized);
    }
    l.is_active = !l.is_active;
    Ok(())
}

/// Reconfigures the two gating intervals and the fast-mode threshold, and
/// recomputes the fast-mode flag against the new threshold. Admin only;
/// rejects a non-positive interval with `InvalidConfig`.
pub fn configure_timing(
    l: &mut Lottery,
    caller: AccountId,
    base_snapshot_interval: u64,
    fast_snapshot_interval: u64,
    fast_mode_threshold: u64,
) -> (r: Result<(), ErrorCode>)
    requires
        old(l).wf(),
    ensures
        final(l).wf(),
        caller != old(l).admin ==> r == Err::<(), ErrorCode>(ErrorCode::Unauthorized) && *final(l)
            == *old(l),
        caller == old(l).admin && (base_snapshot_interval == 0 || fast_snapshot_interval == 0) ==> r
            == Err::<(), ErrorCode>(ErrorCode::InvalidConfig) && *final(l) == *old(l),
        caller == old(l).admin && base_snapshot_interval > 0 && fast_snapshot_interval > 0 ==> {
            &&& r == Ok::<(), ErrorCode>(())
            &&& final(l).is_fast_mode == (old(l).fees_collected >= fast_mode_threshold)
            &&& *final(l) == (Lottery {
                base_snapshot_interval,
                fast_snapshot_interval,
                fast_mode_threshold,
                is_fast_mode: final(l).is_fast_mode,
                ..*old(l)
            })
        },
{
    if caller != l.admin {
        return Err(ErrorCode::Unauthorized);
    }
    if base_snapshot_interval == 0 {
        return Err(ErrorCode::InvalidConfig);
    }
    if fast_snapshot_interval == 0 {
        return Err(ErrorCode::InvalidConfig);
    }
    l.base_snapshot_interval = base_snapshot_interval;
    l.fast_snapshot_interval = fast_snapshot_interval;
    l.fast_mode_threshold = fast_mode_threshold;
    l.is_fast_mode = l.fees_collected >= l.fast_mode_threshold;
    Ok(())
}

/// Directly sets the prize pool. Admin only.
pub fn update_jackpot_amount(l: &mut Lottery, caller: AccountId, new_amount: u64) -> (r: Result<
    (),
    ErrorCode,
>)
    requires
        old(l).wf(),
    ensures
        final(l).wf(),
        caller != old(l).admin ==> r == Err::<(), ErrorCode>(ErrorCode::Unauthorized) && *final(l)
            == *old(l),
        caller == old(l).admin ==> r == Ok::<(), ErrorCode>(()) && *final(l) == (Lottery {
            jackpot_amount: new_amount,
            ..*old(l)
        }),
{
    if caller != l.admin {
        return Err(ErrorCode::Unauthorized);
    }
    l.jackpot_amount = new_amount;
    Ok(())
}

/// Authorizes closing the lottery instance: the host environment reclaims the
/// stored state only after this check passes. The state itself is untouched.
pub fn close_lottery(l: &Lottery, caller: AccountId) -> (r: Result<(), ErrorCode>)
    ensures
        caller == l.admin <==> r == Ok::<(), ErrorCode>(()),
        caller != l.admin <==> r == Err::<(), ErrorCode>(ErrorCode::Unauthorized),
{
    if caller != l.admin {
        return Err(ErrorCode::Unauthorized);
    }
    Ok(())
}

} // verus!
