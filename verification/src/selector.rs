//! Winner selection: one main winner, weighted exactly by ticket share, and
//! up to eight distinct minor winners drawn uniformly from the remaining
//! participants. Selection is a pure function of the seed and a ledger
//! snapshot, so a draw repeated on the same inputs picks the same winners.

use vstd::prelude::*;
use vstd::seq_lib::group_seq_properties;
use vstd::set_lib::lemma_int_range;
use vstd::set_lib::lemma_len_subset;
use vstd::set_lib::set_int_range;
use crate::lottery::AccountId;
use crate::lottery::ErrorCode;
use crate::lottery::Lottery;
use crate::lottery::MAX_MINOR_WINNERS;
use crate::lottery::MIN_PARTICIPANTS;
use crate::lottery::ParticipantAccount;
use crate::lottery::ROLLOVER_EXTENSION_EVEN;
use crate::lottery::Winners;
use crate::lottery::distinct_wallets;
use crate::lottery::eq_outside_draw;
use crate::lottery::lemma_prefix_tickets_mono;
use crate::lottery::prefix_tickets;
use crate::lottery::set_winners;
use crate::lottery::spec_ball_count;
use crate::lottery::spec_rollover_extension;
use crate::lottery::spec_seed;
use crate::lottery::take_snapshot;
use crate::lottery::ticket_total;

verus! {

/// The main seed is decorrelated into the minor-selection seed by this
/// multiplier.
pub const MINOR_SEED_MULTIPLIER: u64 = 7;

/// Between minor picks the selection seed advances by `* 13 + 1`.
pub const MINOR_SEED_STEP_MULTIPLIER: u64 = 13;

/// Where in the cumulative ticket walk the main draw lands: the seed reduced
/// modulo the snapshot's total ticket count.
pub open spec fn spec_main_target(s: Seq<ParticipantAccount>, seed: u64) -> int {
    (seed as int) % ticket_total(s)
}

/// Entry `i` is the main winner for `seed`: the draw target falls inside
/// `i`'s cumulative ticket band, which makes each entry's chance exactly
/// proportional to its ticket share.
pub open spec fn is_main_winner_index(s: Seq<ParticipantAccount>, seed: u64, i: int) -> bool {
    &&& 0 <= i < s.len()
    &&& prefix_tickets(s, i) <= spec_main_target(s, seed)
    &&& spec_main_target(s, seed) < prefix_tickets(s, i) + s[i].ticket_count
}

/// The index the main draw picks; unique by `lemma_main_winner_unique`.
pub open spec fn spec_main_winner_index(s: Seq<ParticipantAccount>, seed: u64) -> int {
    choose|i: int| is_main_winner_index(s, seed, i)
}

/// The cumulative ticket bands are disjoint, so at most one index satisfies
/// the main-winner characterization: main selection is deterministic in the
/// seed and the snapshot.
pub proof fn lemma_main_winner_unique(s: Seq<ParticipantAccount>, seed: u64, i: int, j: int)
    requires
        is_main_winner_index(s, seed, i),
        is_main_winner_index(s, seed, j),
    ensures
        i == j,
{
    if i < j {
        lemma_prefix_tickets_mono(s, i + 1, j);
    }
    if j < i {
        lemma_prefix_tickets_mono(s, j + 1, i);
    }
}

/// With every entry holding exactly one ticket the cumulative walk is the
/// identity, so prefix sums count the entries themselves.
proof fn lemma_prefix_tickets_uniform(s: Seq<ParticipantAccount>, n: int)
    requires
        0 <= n <= s.len(),
        forall|k: int| 0 <= k < s.len() ==> s[k].ticket_count == 1,
    ensures
        prefix_tickets(s, n) == n,
    decreases n,
{
    if n > 0 {
        lemma_prefix_tickets_uniform(s, n - 1);
    }
}

/// On a snapshot where every participant holds exactly one ticket, the main
/// winner's index is the seed modulo the number of participants.
pub proof fn lemma_uniform_tickets_main_index(s: Seq<ParticipantAccount>, seed: u64, i: int)
    requires
        s.len() > 0,
        forall|k: int| 0 <= k < s.len() ==> s[k].ticket_count == 1,
        is_main_winner_index(s, seed, i),
    ensures
        i == (seed as int) % (s.len() as int),
{
    lemma_prefix_tickets_uniform(s, s.len() as int);
    lemma_prefix_tickets_uniform(s, i);
    lemma_prefix_tickets_uniform(s, i + 1);
}

/// Walks the snapshot accumulating ticket counts and returns the first index
/// whose cumulative sum exceeds the draw target `seed % total_tickets`.
pub fn select_main_winner(seed: u64, entries: &Vec<ParticipantAccount>, total_tickets: u64) -> (i:
    usize)
    requires
        total_tickets == ticket_total(entries@),
        total_tickets > 0,
    ensures
        is_main_winner_index(entries@, seed, i as int),
        i as int == spec_main_winner_index(entries@, seed),
{
    let target = seed % total_tickets;
    let n_entries = entries.len();
    let mut i: usize = 0;
    let mut cumulative: u64 = 0;
    loop
        invariant
            total_tickets == ticket_total(entries@),
            total_tickets > 0,
            target == seed % total_tickets,
            n_entries == entries@.len(),
            0 <= i <= n_entries,
            cumulative == prefix_tickets(entries@, i as int),
            cumulative <= target,
        decreases entries@.len() - i,
    {
        proof {
            assert(target < total_tickets);
            if i as int == entries@.len() as int {
                assert(cumulative == ticket_total(entries@));
                assert(false);
            }
            lemma_prefix_tickets_mono(entries@, i as int + 1, entries@.len() as int);
        }
        let count = entries[i].ticket_count as u64;
        if cumulative + count > target {
            proof {
                assert(is_main_winner_index(entries@, seed, i as int));
                assert(exists|k: int| is_main_winner_index(entries@, seed, k));
                lemma_main_winner_unique(
                    entries@,
                    seed,
                    i as int,
                    spec_main_winner_index(entries@, seed),
                );
            }
            return i;
        }
        cumulative = cumulative + count;
        i = i + 1;
    }
}

/// The indices still eligible for a minor pick among `0..k`: not the main
/// winner and not already chosen, in increasing order.
pub open spec fn eligible_upto(n: int, chosen: Seq<usize>, main: usize, k: int) -> Seq<usize>
    decreases k,
{
    if k <= 0 {
        Seq::empty()
    } else {
        let pre = eligible_upto(n, chosen, main, k - 1);
        if (k - 1) as usize != main && !chosen.contains((k - 1) as usize) {
            pre.push((k - 1) as usize)
        } else {
            pre
        }
    }
}

/// The indices still eligible for a minor pick over the whole snapshot.
pub open spec fn eligible_indices(n: int, chosen: Seq<usize>, main: usize) -> Seq<usize> {
    eligible_upto(n, chosen, main, n)
}

/// An index that is neither the main winner nor chosen appears among the
/// eligible indices.
proof fn lemma_eligible_contains(n: int, chosen: Seq<usize>, main: usize, x: usize, k: int)
    requires
        (x as int) < k <= n,
        x != main,
        !chosen.contains(x),
    ensures
        eligible_upto(n, chosen, main, k).contains(x),
    decreases k,
{
    if (x as int) == k - 1 {
        let pre = eligible_upto(n, chosen, main, k - 1);
        assert(eligible_upto(n, chosen, main, k) == pre.push(x));
        assert(pre.push(x)[pre.len() as int] == x);
    } else {
        lemma_eligible_contains(n, chosen, main, x, k - 1);
        let pre = eligible_upto(n, chosen, main, k - 1);
        let idx = choose|j: int| 0 <= j < pre.len() && pre[j] == x;
        if (k - 1) as usize != main && !chosen.contains((k - 1) as usize) {
            assert(pre.push((k - 1) as usize)[idx] == x);
        }
    }
}

/// A distinct set of indices drawn from `0..n` without the main winner has at
/// most `n - 1` members; and when it exhausts every such index, exactly
/// `n - 1`.
proof fn lemma_chosen_cardinality(chosen: Seq<usize>, n: int, main: usize)
    requires
        chosen.no_duplicates(),
        forall|j: int| 0 <= j < chosen.len() ==> (chosen[j] as int) < n && chosen[j] != main,
        0 <= (main as int) < n <= usize::MAX,
    ensures
        chosen.len() <= n - 1,
        (forall|x: usize| (x as int) < n && x != main ==> chosen.contains(x)) ==> chosen.len() >= n
            - 1,
{
    broadcast use group_seq_properties;

    let cs = chosen.map_values(|x: usize| x as int);
    assert forall|i: int, j: int| 0 <= i < j < cs.len() implies cs[i] != cs[j] by {
        assert(chosen[i] != chosen[j]);
    }
    cs.unique_seq_to_set();
    let cset = cs.to_set();
    lemma_int_range(0, n);
    let avail = set_int_range(0, n).remove(main as int);
    assert(set_int_range(0, n).contains(main as int));
    assert(avail.len() == n - 1);
    assert(cset.subset_of(avail)) by {
        assert forall|x: int| cset.contains(x) implies avail.contains(x) by {
            let j = choose|j: int| 0 <= j < cs.len() && cs[j] == x;
            assert((chosen[j] as int) < n && chosen[j] != main);
        }
    }
    lemma_len_subset(cset, avail);
    if forall|x: usize| (x as int) < n && x != main ==> chosen.contains(x) {
        assert(avail.subset_of(cset)) by {
            assert forall|x: int| avail.contains(x) implies cset.contains(x) by {
                assert(0 <= x < n);
                let xu = x as usize;
                assert(xu as int == x);
                assert((xu as int) < n && xu != main);
                assert(chosen.contains(xu));
                let j = choose|j: int| 0 <= j < chosen.len() && chosen[j] == xu;
                assert(cs[j] == chosen[j] as int);
                assert(cs[j] == x);
            }
        }
        lemma_len_subset(avail, cset);
    }
}

/// How the minor-selection seed advances after each pick.
pub open spec fn spec_minor_step(seed2: u64) -> u64 {
    seed2.wrapping_mul(MINOR_SEED_STEP_MULTIPLIER).wrapping_add(1)
}

/// Up to `rounds` more minor picks starting from selection seed `seed2` and
/// the picks already in `chosen`: each round picks uniformly among the still
/// eligible indices and stops early once none is left.
pub open spec fn spec_minor_rounds(
    seed2: u64,
    n: int,
    main: usize,
    chosen: Seq<usize>,
    rounds: nat,
) -> Seq<usize>
    decreases rounds,
{
    if rounds == 0 {
        chosen
    } else {
        let e = eligible_indices(n, chosen, main);
        if e.len() == 0 {
            chosen
        } else {
            let pick = e[(seed2 as int) % (e.len() as int)];
            spec_minor_rounds(
                spec_minor_step(seed2),
                n,
                main,
                chosen.push(pick),
                (rounds - 1) as nat,
            )
        }
    }
}

/// The full minor selection for a draw: eight rounds from the decorrelated
/// seed `seed * 7`, starting with nothing chosen.
pub open spec fn spec_minor_winner_indices(seed: u64, n: int, main: usize) -> Seq<usize> {
    spec_minor_rounds(seed.wrapping_mul(MINOR_SEED_MULTIPLIER), n, main, Seq::empty(), 8)
}

/// Returns whether `x` occurs in `v`.
fn vec_contains(v: &Vec<usize>, x: usize) -> (b: bool)
    ensures
        b == v@.contains(x),
{
    let mut j: usize = 0;
    while j < v.len()
        invariant
            j <= v@.len(),
            forall|k: int| 0 <= k < j ==> v@[k] != x,
        decreases v@.len() - j,
    {
        if v[j] == x {
            assert(v@[j as int] == x);
            return true;
        }
        j = j + 1;
    }
    false
}

/// Picks up to eight distinct minor-winner indices, never the main winner's,
/// uniformly among the remaining eligible indices (not ticket-weighted — a
/// deliberate asymmetry with the main draw). With fewer than eight other
/// participants it returns them all, which is not an error.
pub fn select_minor_winners(seed: u64, n: usize, main_index: usize) -> (w: Vec<usize>)
    requires
        main_index < n,
    ensures
        w@ == spec_minor_winner_indices(seed, n as int, main_index),
        w@.no_duplicates(),
        forall|j: int| 0 <= j < w@.len() ==> (#[trigger] w@[j]) < n && w@[j] != main_index,
        w@.len() == if n - 1 >= MAX_MINOR_WINNERS {
            MAX_MINOR_WINNERS as int
        } else {
            n - 1
        },
{
    let mut seed2 = seed.wrapping_mul(MINOR_SEED_MULTIPLIER);
    let mut chosen: Vec<usize> = Vec::new();
    let mut round: usize = 0;
    let mut stop = false;
    while round < MAX_MINOR_WINNERS && !stop
        invariant
            main_index < n,
            round <= MAX_MINOR_WINNERS,
            chosen@.len() <= round,
            !stop ==> chosen@.len() == round,
            stop ==> eligible_indices(n as int, chosen@, main_index).len() == 0,
            chosen@.no_duplicates(),
            forall|j: int| 0 <= j < chosen@.len() ==> (#[trigger] chosen@[j]) < n && chosen@[j]
                != main_index,
            spec_minor_rounds(
                seed2,
                n as int,
                main_index,
                chosen@,
                (MAX_MINOR_WINNERS - round) as nat,
            ) == spec_minor_winner_indices(seed, n as int, main_index),
        decreases MAX_MINOR_WINNERS - round + if stop {
            0int
        } else {
            1int
        },
    {
        let mut elig: Vec<usize> = Vec::new();
        let mut k: usize = 0;
        while k < n
            invariant
                k <= n,
                elig@ == eligible_upto(n as int, chosen@, main_index, k as int),
                forall|j: int|
                    0 <= j < elig@.len() ==> (#[trigger] elig@[j]) < k && elig@[j] != main_index
                        && !chosen@.contains(elig@[j]),
            decreases n - k,
        {
            if k != main_index && !vec_contains(&chosen, k) {
                elig.push(k);
            }
            k = k + 1;
        }
        if elig.len() == 0 {
            stop = true;
        } else {
            let idx = (seed2 % (elig.len() as u64)) as usize;
            let pick = elig[idx];
            proof {
                let e = eligible_indices(n as int, chosen@, main_index);
                assert(e[idx as int] == pick);
                assert(!chosen@.contains(pick) && pick != main_index && (pick as int) < n);
                assert forall|i: int, j: int|
                    0 <= i < j < chosen@.push(pick).len() implies chosen@.push(pick)[i]
                    != chosen@.push(pick)[j] by {
                    if j < chosen@.len() {
                        assert(chosen@[i] != chosen@[j]);
                    } else {
                        if chosen@.push(pick)[i] == pick {
                            assert(chosen@.contains(pick));
                        }
                    }
                }
            }
            chosen.push(pick);
            seed2 = seed2.wrapping_mul(MINOR_SEED_STEP_MULTIPLIER).wrapping_add(1);
            round = round + 1;
        }
    }
    proof {
        lemma_chosen_cardinality(chosen@, n as int, main_index);
        if stop {
            assert forall|x: usize| (x as int) < n && x != main_index implies chosen@.contains(
                x,
            ) by {
                if !chosen@.contains(x) {
                    lemma_eligible_contains(n as int, chosen@, main_index, x, n as int);
                }
            }
        }
    }
    chosen
}

/// Selects the winners of one draw from a ledger snapshot: the
/// ticket-weighted main winner and up to eight distinct minor winners, none
/// of them the main winner. Both picks are deterministic in the seed and the
/// snapshot.
pub fn select_winners(seed: u64, entries: &Vec<ParticipantAccount>, total_tickets: u64) -> (w:
    Winners)
    requires
        total_tickets == ticket_total(entries@),
        total_tickets > 0,
        distinct_wallets(entries@),
    ensures
        ({
            let mi = spec_main_winner_index(entries@, seed);
            let minors = spec_minor_winner_indices(seed, entries@.len() as int, mi as usize);
            &&& is_main_winner_index(entries@, seed, mi)
            &&& w.main_winner == Some(entries@[mi].wallet)
            &&& w.minor_winners@ == minors.map_values(|i: usize| entries@[i as int].wallet)
            &&& w.minor_winners@.no_duplicates()
            &&& forall|j: int|
                0 <= j < w.minor_winners@.len() ==> (#[trigger] w.minor_winners@[j])
                    != entries@[mi].wallet
            &&& w.minor_winners@.len() == if entries@.len() - 1 >= MAX_MINOR_WINNERS {
                MAX_MINOR_WINNERS as int
            } else {
                entries@.len() - 1
            }
        }),
{
    let main_index = select_main_winner(seed, entries, total_tickets);
    let minor_indices = select_minor_winners(seed, entries.len(), main_index);
    let mut minor_wallets: Vec<AccountId> = Vec::new();
    let mut j: usize = 0;
    while j < minor_indices.len()
        invariant
            minor_indices@.no_duplicates(),
            forall|k: int|
                0 <= k < minor_indices@.len() ==> (#[trigger] minor_indices@[k]) < entries@.len()
                    && minor_indices@[k] != main_index,
            (main_index as int) < entries@.len(),
            distinct_wallets(entries@),
            j <= minor_indices@.len(),
            minor_wallets@.len() == j,
            forall|k: int|
                0 <= k < j ==> (#[trigger] minor_wallets@[k]) == entries@[minor_indices@[k] as int].wallet,
        decreases minor_indices@.len() - j,
    {
        let idx = minor_indices[j];
        minor_wallets.push(entries[idx].wallet);
        j = j + 1;
    }
    proof {
        assert(minor_wallets@ =~= minor_indices@.map_values(
            |i: usize| entries@[i as int].wallet,
        ));
        assert forall|a: int, b: int|
            0 <= a < b < minor_wallets@.len() implies minor_wallets@[a] != minor_wallets@[b] by {
            let ia = minor_indices@[a];
            let ib = minor_indices@[b];
            assert(ia != ib);
            if ia < ib {
                assert(entries@[ia as int].wallet != entries@[ib as int].wallet);
            } else {
                assert(entries@[ib as int].wallet != entries@[ia as int].wallet);
            }
        }
        assert forall|k: int| 0 <= k < minor_wallets@.len() implies (#[trigger] minor_wallets@[k])
            != entries@[main_index as int].wallet by {
            let ik = minor_indices@[k];
            if ik < main_index {
                assert(entries@[ik as int].wallet != entries@[main_index as int].wallet);
            } else {
                assert(entries@[main_index as int].wallet != entries@[ik as int].wallet);
            }
        }
    }
    Winners { main_winner: Some(entries[main_index].wallet), minor_winners: minor_wallets }
}

/// One whole draw: derives the seed and the ball count, applies the outcome
/// its parity picks, and on a payout outcome immediately selects the winners
/// from the ledger snapshot and records them — so the recorded main winner is
/// exactly the ticket-weighted pick of the retained seed, and the recorded
/// minor winners exactly the uniform picks over the remaining participants.
/// On a rollover outcome no winners are recorded. Fails exactly as the draw's
/// gating does, with nothing changed.
pub fn draw_and_select(l: &mut Lottery, now: i64, slot: u64) -> (r: Result<(u64, u8), ErrorCode>)
    requires
        old(l).wf(),
        old(l).spec_can_draw(now as int) ==> {
            &&& 0 <= now <= i64::MAX - ROLLOVER_EXTENSION_EVEN
            &&& old(l).total_snapshots < u64::MAX
            &&& old(l).rollover_count < u8::MAX
        },
    ensures
        final(l).wf(),
        r is Ok <==> old(l).spec_can_draw(now as int),
        !old(l).is_active ==> r == Err::<(u64, u8), ErrorCode>(ErrorCode::LotteryInactive)
            && *final(l) == *old(l),
        old(l).is_active && now - old(l).last_snapshot < old(l).spec_active_interval() ==> r
            == Err::<(u64, u8), ErrorCode>(ErrorCode::DrawTooEarly) && *final(l) == *old(l),
        old(l).is_active && now - old(l).last_snapshot >= old(l).spec_active_interval() && (old(
            l,
        ).total_participants < MIN_PARTICIPANTS || old(l).total_tickets == 0) ==> r == Err::<
            (u64, u8),
            ErrorCode,
        >(ErrorCode::NotEnoughParticipants) && *final(l) == *old(l),
        old(l).spec_can_draw(now as int) ==> {
            let s = spec_seed(slot, now, old(l).total_participants, old(l).total_snapshots);
            let ball = spec_ball_count(s);
            let n = old(l).entries@.len() as int;
            let mi = spec_main_winner_index(old(l).entries@, s);
            &&& r == Ok::<(u64, u8), ErrorCode>((s, ball))
            &&& eq_outside_draw(*final(l), *old(l))
            &&& final(l).pepe_ball_count == ball
            &&& final(l).total_snapshots == old(l).total_snapshots + 1
            &&& final(l).is_fast_mode == old(l).is_fast_mode
            &&& ball % 2 == 1 ==> {
                &&& final(l).snapshot_seed == s
                &&& final(l).snapshot_seed != 0
                &&& final(l).last_snapshot == now
                &&& final(l).rollover_count == old(l).rollover_count
                &&& is_main_winner_index(old(l).entries@, s, mi)
                &&& final(l).winners.main_winner == Some(old(l).entries@[mi].wallet)
                &&& final(l).winners.minor_winners@ == spec_minor_winner_indices(
                    s,
                    n,
                    mi as usize,
                ).map_values(|i: usize| old(l).entries@[i as int].wallet)
                &&& final(l).winners.minor_winners@.no_duplicates()
                &&& !final(l).winners.minor_winners@.contains(old(l).entries@[mi].wallet)
                &&& final(l).winners.minor_winners@.len() == if n - 1 >= MAX_MINOR_WINNERS {
                    MAX_MINOR_WINNERS as int
                } else {
                    n - 1
                }
            }
            &&& ball % 2 == 0 ==> {
                &&& final(l).snapshot_seed == 0
                &&& final(l).rollover_count == old(l).rollover_count + 1
                &&& final(l).last_snapshot == now + spec_rollover_extension(
                    (old(l).rollover_count + 1) as u8,
                )
                &&& final(l).winners.main_winner is None
                &&& final(l).winners.minor_winners@.len() == 0
            }
        },
{
    let admin = l.admin;
    let (seed, ball) = match take_snapshot(l, now, slot) {
        Ok(p) => p,
        Err(e) => {
            return Err(e);
        },
    };
    if ball % 2 == 1 {
        let w = select_winners(seed, &l.entries, l.total_tickets);
        let main = match w.main_winner {
            Some(m) => m,
            None => {
                proof {
                    assert(false);
                }
                0
            },
        };
        proof {
            if w.minor_winners@.contains(main) {
                let j = choose|j: int|
                    0 <= j < w.minor_winners@.len() && w.minor_winners@[j] == main;
                assert(w.minor_winners@[j] != main);
            }
        }
        let recorded = set_winners(l, admin, main, w.minor_winners);
        proof {
            assert(recorded == Ok::<(), ErrorCode>(()));
        }
    }
    Ok((seed, ball))
}

} // verus!
