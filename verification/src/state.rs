//! Core data model of the token sale: configuration, lifecycle state,
//! vesting batches and per-buyer positions, all over plain unsigned
//! integers (amounts as `u128`, timestamps as nanoseconds in a `u64`,
//! prices as fixed-point decimals with eighteen fractional digits).

use vstd::prelude::*;

verus! {

/// Scale of the fixed-point [`Decimal`] type: one unit is represented
/// by this many atomic parts (eighteen decimal digits).
pub const DECIMAL_FRACTIONAL: u128 = 1_000_000_000_000_000_000;

/// An exact non-negative decimal number with eighteen fractional
/// digits, stored as its count of atomic parts. The value `0.1`, for
/// example, has `atomics == DECIMAL_FRACTIONAL / 10`.
#[derive(Debug, Clone, Copy, PartialEq, Eq, Structural)]
pub struct Decimal {
    pub atomics: u128,
}

/// Lifecycle of the sale: strictly forward, `Pending` at construction.
#[derive(Debug, Clone, Copy, PartialEq, Eq, Structural)]
pub enum Status {
    Pending,
    Active,
    Distribution,
}

impl Status {
    /// The lower-case name of the status, as reported by state queries.
    pub fn to_string(&self) -> (r: String)
        ensures
            *self == Status::Pending ==> r@ == "pending"@,
            *self == Status::Active ==> r@ == "active"@,
            *self == Status::Distribution ==> r@ == "distribution"@,
    {
        match self {
            Status::Pending => "pending".to_owned(),
            Status::Active => "active".to_owned(),
            Status::Distribution => "distribution".to_owned(),
        }
    }
}

/// Sale parameters. `admin`, `revenue_collector` and `price` may be
/// changed by the admin at any time; the remaining fields are frozen
/// once the sale leaves the `Pending` status.
#[derive(Debug, Clone)]
pub struct Config {
    pub admin: String,
    /// Nanoseconds between consecutive batch release times.
    pub batch_duration: u128,
    /// Number of batches a first purchase is split into.
    pub batch_amount: u128,
    pub revenue_collector: String,
    /// Payment units per one unit of the sold asset.
    pub price: Decimal,
    pub buy_denom: String,
    pub sell_denom: String,
    /// Release time of the first batch, in nanoseconds.
    pub first_batch_release_time: u64,
}

/// Global sale state: the lifecycle status and two accumulators that
/// only ever grow.
#[derive(Debug, Clone, Copy, PartialEq, Eq, Structural)]
pub struct State {
    pub total_revenue: u128,
    pub total_sold: u128,
    pub status: Status,
}

/// One still-unclaimed instalment: `amount` of the sold asset, locked
/// until `release_time` (nanoseconds) has passed.
#[derive(Debug, Clone, Copy, PartialEq, Eq, Structural)]
pub struct Batch {
    pub amount: u128,
    pub release_time: u64,
}

/// A buyer's ledger entry: cumulative totals plus the batches that are
/// still unclaimed. Created on the first purchase, never deleted.
#[derive(Debug, Clone)]
pub struct Position {
    pub address: String,
    pub total_bought: u128,
    pub total_paid: u128,
    pub total_claimed: u128,
    /// The price at the first purchase; never updated afterwards.
    pub price: Decimal,
    /// The time of the first purchase; never updated afterwards.
    pub timestamp: u64,
    pub batches: Vec<Batch>,
}

/// Sum of the amounts of a batch sequence, as a mathematical integer.
pub open spec fn sum_amounts(s: Seq<Batch>) -> int
    decreases s.len(),
{
    if s.len() == 0 {
        0
    } else {
        sum_amounts(s.drop_last()) + s.last().amount
    }
}

/// A batch matures strictly after its release time has passed.
pub open spec fn is_mature(b: Batch, now: u64) -> bool {
    b.release_time < now
}

/// The batches of `s` that have matured at time `now`, in order.
pub open spec fn mature_batches(s: Seq<Batch>, now: u64) -> Seq<Batch> {
    s.filter(|b: Batch| is_mature(b, now))
}

/// The batches of `s` that are still locked at time `now`, in order.
pub open spec fn pending_batches(s: Seq<Batch>, now: u64) -> Seq<Batch> {
    s.filter(|b: Batch| !is_mature(b, now))
}

impl Position {
    /// The exact ledger-balance invariant: everything ever bought is
    /// either already claimed or still waiting in a batch. It holds
    /// whenever every buy amount was divisible by the batch count;
    /// otherwise the floor-division remainder is lost from the
    /// schedule and only [`Position::ledger_bounded`] holds.
    pub open spec fn balanced(self) -> bool {
        self.total_claimed + sum_amounts(self.batches@) == self.total_bought
    }

    /// The inequality form of the ledger balance, true of every
    /// position however the floor divisions rounded: no buyer is ever
    /// owed more than was bought.
    pub open spec fn ledger_bounded(self) -> bool {
        self.total_claimed + sum_amounts(self.batches@) <= self.total_bought
    }
}

/// Pointwise order on the two accumulators of the sale state.
pub open spec fn totals_le(a: State, b: State) -> bool {
    a.total_revenue <= b.total_revenue && a.total_sold <= b.total_sold
}

/// Appending a batch adds exactly its amount to the sum.
pub proof fn lemma_sum_amounts_push(s: Seq<Batch>, b: Batch)
    ensures
        sum_amounts(s.push(b)) == sum_amounts(s) + b.amount,
{
    assert(s.push(b).drop_last() =~= s);
}

/// Filtering distributes over appending one element at the back.
pub proof fn lemma_filter_push(s: Seq<Batch>, pred: spec_fn(Batch) -> bool, b: Batch)
    ensures
        pred(b) ==> s.push(b).filter(pred) == s.filter(pred).push(b),
        !pred(b) ==> s.push(b).filter(pred) == s.filter(pred),
{
    reveal(Seq::filter);
    assert(s.push(b).drop_last() =~= s);
}

/// At any instant the matured and the still-pending batches partition
/// the batch sequence: counts and amounts add up exactly.
pub proof fn lemma_mature_pending_partition(s: Seq<Batch>, now: u64)
    ensures
        mature_batches(s, now).len() + pending_batches(s, now).len() == s.len(),
        sum_amounts(mature_batches(s, now)) + sum_amounts(pending_batches(s, now))
            == sum_amounts(s),
    decreases s.len(),
{
    reveal(Seq::filter);
    if s.len() > 0 {
        let prefix = s.drop_last();
        lemma_mature_pending_partition(prefix, now);
        assert(prefix.push(s.last()) =~= s);
        lemma_filter_push(prefix, |b: Batch| is_mature(b, now), s.last());
        lemma_filter_push(prefix, |b: Batch| !is_mature(b, now), s.last());
        if is_mature(s.last(), now) {
            lemma_sum_amounts_push(mature_batches(prefix, now), s.last());
        } else {
            lemma_sum_amounts_push(pending_batches(prefix, now), s.last());
        }
    }
}

/// Appending one batch extends the matured or the pending side of the
/// partition, according to the batch's maturity, and leaves the other
/// side unchanged.
pub proof fn lemma_mature_pending_push(s: Seq<Batch>, b: Batch, now: u64)
    ensures
        is_mature(b, now) ==> mature_batches(s.push(b), now) == mature_batches(s, now).push(b),
        is_mature(b, now) ==> pending_batches(s.push(b), now) == pending_batches(s, now),
        !is_mature(b, now) ==> pending_batches(s.push(b), now) == pending_batches(s, now).push(b),
        !is_mature(b, now) ==> mature_batches(s.push(b), now) == mature_batches(s, now),
{
    reveal(Seq::filter);
    assert(s.push(b).drop_last() =~= s);
}

/// The matured part of a prefix never exceeds the matured part of the
/// whole sequence, in count or in summed amount.
pub proof fn lemma_mature_sum_prefix(s: Seq<Batch>, i: int, now: u64)
    requires
        0 <= i <= s.len(),
    ensures
        sum_amounts(mature_batches(s.subrange(0, i), now)) <= sum_amounts(mature_batches(s, now)),
        mature_batches(s.subrange(0, i), now).len() <= mature_batches(s, now).len(),
    decreases s.len() - i,
{
    if i == s.len() {
        assert(s.subrange(0, i) =~= s);
    } else {
        lemma_mature_sum_prefix(s, i + 1, now);
        assert(s.subrange(0, i + 1) =~= s.subrange(0, i).push(s[i]));
        lemma_mature_pending_push(s.subrange(0, i), s[i], now);
        if is_mature(s[i], now) {
            lemma_sum_amounts_push(mature_batches(s.subrange(0, i), now), s[i]);
        }
    }
}

/// Every batch on the pending side of the partition is indeed still
/// locked: its release time has not passed.
pub proof fn lemma_pending_batches_pending(s: Seq<Batch>, now: u64)
    ensures
        forall|i: int|
            0 <= i < pending_batches(s, now).len() ==> (#[trigger] pending_batches(s, now)[i]).release_time
                >= now,
    decreases s.len(),
{
    reveal(Seq::filter);
    if s.len() > 0 {
        let prefix = s.drop_last();
        lemma_pending_batches_pending(prefix, now);
        assert(prefix.push(s.last()) =~= s);
        lemma_mature_pending_push(prefix, s.last(), now);
        assert forall|i: int|
            0 <= i < pending_batches(s, now).len() implies (
        #[trigger] pending_batches(s, now)[i]).release_time >= now by {
            if !is_mature(s.last(), now) {
                if i < pending_batches(s, now).len() - 1 {
                    assert(pending_batches(s, now)[i] == pending_batches(prefix, now)[i]);
                } else {
                    assert(pending_batches(s, now)[i] == s.last());
                }
            } else {
                assert(pending_batches(s, now)[i] == pending_batches(prefix, now)[i]);
            }
        }
    }
}

/// A batch sequence none of whose batches has matured has an empty
/// matured part, so a claim against it finds nothing to settle.
pub proof fn lemma_no_mature_batches(s: Seq<Batch>, now: u64)
    requires
        forall|i: int| 0 <= i < s.len() ==> (#[trigger] s[i]).release_time >= now,
    ensures
        mature_batches(s, now).len() == 0,
    decreases s.len(),
{
    reveal(Seq::filter);
    if s.len() > 0 {
        let prefix = s.drop_last();
        assert forall|i: int| 0 <= i < prefix.len() implies (#[trigger] prefix[i]).release_time
            >= now by {
            assert(prefix[i] == s[i]);
        }
        lemma_no_mature_batches(prefix, now);
        assert(s.last().release_time >= now);
    }
}

/// A sequence of batches that all hold the same amount sums to that
/// amount times the length.
pub proof fn lemma_sum_amounts_uniform(s: Seq<Batch>, a: u128)
    requires
        forall|i: int| 0 <= i < s.len() ==> (#[trigger] s[i]).amount == a,
    ensures
        sum_amounts(s) == s.len() * a,
    decreases s.len(),
{
    if s.len() > 0 {
        let prefix = s.drop_last();
        assert forall|i: int| 0 <= i < prefix.len() implies (#[trigger] prefix[i]).amount == a by {
            assert(prefix[i] == s[i]);
        }
        lemma_sum_amounts_uniform(prefix, a);
        assert(s.last().amount == a);
        assert((s.len() - 1) * (a as int) + a == s.len() * (a as int)) by (nonlinear_arith);
    }
}

/// Raising every amount of a batch sequence by the same delta raises
/// the sum by the delta times the length.
pub proof fn lemma_sum_amounts_pointwise_add(s1: Seq<Batch>, s2: Seq<Batch>, d: u128)
    requires
        s1.len() == s2.len(),
        forall|i: int| 0 <= i < s1.len() ==> (#[trigger] s2[i]).amount == s1[i].amount + d,
    ensures
        sum_amounts(s2) == sum_amounts(s1) + s1.len() * d,
    decreases s1.len(),
{
    if s1.len() > 0 {
        let p1 = s1.drop_last();
        let p2 = s2.drop_last();
        assert forall|i: int| 0 <= i < p1.len() implies (#[trigger] p2[i]).amount == p1[i].amount
            + d by {
            assert(p1[i] == s1[i]);
            assert(p2[i] == s2[i]);
        }
        lemma_sum_amounts_pointwise_add(p1, p2, d);
        assert(s2.last().amount == s1.last().amount + d);
        assert(p1.len() == s1.len() - 1);
        assert((s1.len() - 1) * (d as int) + d == s1.len() * (d as int)) by (nonlinear_arith);
    } else {
        assert(s2.len() == 0);
        assert(s1.len() * (d as int) == 0) by (nonlinear_arith)
            requires s1.len() == 0,
        ;
    }
}

/// The accumulators `total_revenue` and `total_sold` are non-decreasing
/// across any sequence of states in which each step is non-decreasing,
/// as every sale operation is.
pub proof fn lemma_totals_monotonic(states: Seq<State>)
    requires
        forall|i: int| 0 <= i < states.len() - 1 ==> totals_le(#[trigger] states[i], states[i + 1]),
    ensures
        forall|i: int, j: int|
            0 <= i <= j < states.len() ==> #[trigger] totals_le(states[i], states[j]),
{
    assert forall|i: int, j: int|
        0 <= i <= j < states.len() implies #[trigger] totals_le(states[i], states[j]) by {
        lemma_totals_le_chain(states, i, j);
    }
}

proof fn lemma_totals_le_chain(states: Seq<State>, i: int, j: int)
    requires
        forall|k: int| 0 <= k < states.len() - 1 ==> totals_le(#[trigger] states[k], states[k + 1]),
        0 <= i <= j < states.len(),
    ensures
        totals_le(states[i], states[j]),
    decreases j - i,
{
    if i < j {
        lemma_totals_le_chain(states, i, j - 1);
        assert(totals_le(states[j - 1], states[j]));
    }
}

} // verus!
