//! The sale's operations: initialisation, lifecycle transitions,
//! purchases, claims, configuration updates, withdrawals and queries.
//!
//! Every operation is a pure transition: it takes the current records
//! (and, where the host must supply them, the caller, the time, the
//! validated payment or the held balance) and returns the updated
//! records or an error. Persistence, payment extraction and transfer
//! construction are the host's concern.

use vstd::prelude::*;

verus! {

use crate::batch::{create_batches, update_batches, schedule_fits, fold_fits, release_time_at};
use crate::error::ContractError;
use crate::msg::{InstantiateMsg, QueryConfigResponse, QueryPositionResponse, QueryStateResponse};
use crate::state::{
    Config, State, Status, Batch, Position, Decimal, DECIMAL_FRACTIONAL, sum_amounts, totals_le,
    mature_batches, pending_batches, lemma_sum_amounts_push, lemma_mature_pending_push,
    lemma_mature_pending_partition, lemma_mature_sum_prefix, lemma_no_mature_batches,
    lemma_pending_batches_pending,
};
use vstd::arithmetic::div_mod::lemma_fundamental_div_mod;
use vstd::arithmetic::mul::lemma_mul_inequality;

/// Sets up the sale: the given parameters as the configuration (the
/// caller as admin when none is named) and a zeroed, `Pending` state.
pub fn instantiate(msg: InstantiateMsg, sender: String) -> (r: (Config, State))
    ensures
        msg.admin matches Some(a) ==> r.0.admin@ == a@,
        msg.admin is None ==> r.0.admin@ == sender@,
        r.0.batch_duration == msg.batch_duration,
        r.0.batch_amount == msg.batch_amount,
        r.0.revenue_collector@ == msg.revenue_collector@,
        r.0.price == msg.price,
        r.0.buy_denom@ == msg.buy_denom@,
        r.0.sell_denom@ == msg.sell_denom@,
        r.0.first_batch_release_time == msg.first_batch_release_time,
        r.1.total_revenue == 0,
        r.1.total_sold == 0,
        r.1.status == Status::Pending,
{
    let admin = match msg.admin {
        Some(a) => a,
        None => sender,
    };
    let config = Config {
        admin,
        batch_duration: msg.batch_duration,
        batch_amount: msg.batch_amount,
        revenue_collector: msg.revenue_collector,
        price: msg.price,
        buy_denom: msg.buy_denom,
        sell_denom: msg.sell_denom,
        first_batch_release_time: msg.first_batch_release_time,
    };
    let state = State { total_revenue: 0, total_sold: 0, status: Status::Pending };
    (config, state)
}

/// Admin-only forward transition `Pending -> Active`. Once it
/// succeeds, the `Pending`-gated configuration fields are frozen.
pub fn execute_start_sale(config: &Config, state: &State, sender: &String) -> (r: Result<
    State,
    ContractError,
>)
    ensures
        r == Err::<State, ContractError>(ContractError::Unauthorized) <==> sender@
            != config.admin@,
        r == Err::<State, ContractError>(ContractError::SaleNotPending) <==> (sender@
            == config.admin@ && state.status != Status::Pending),
        r is Ok <==> (sender@ == config.admin@ && state.status == Status::Pending),
        r matches Ok(s) ==> s == (State { status: Status::Active, ..*state }),
{
    let authorized = *sender == config.admin;
    if !authorized {
        return Err(ContractError::Unauthorized);
    }
    if !matches!(state.status, Status::Pending) {
        return Err(ContractError::SaleNotPending);
    }
    Ok(State { status: Status::Active, ..*state })
}

/// Admin-only forward transition `Active -> Distribution`; from here
/// on purchases are closed and claims open.
pub fn execute_start_distribution(config: &Config, state: &State, sender: &String) -> (r: Result<
    State,
    ContractError,
>)
    ensures
        r == Err::<State, ContractError>(ContractError::Unauthorized) <==> sender@
            != config.admin@,
        r == Err::<State, ContractError>(ContractError::SaleNotActive) <==> (sender@
            == config.admin@ && state.status != Status::Active),
        r is Ok <==> (sender@ == config.admin@ && state.status == Status::Active),
        r matches Ok(s) ==> s == (State { status: Status::Distribution, ..*state }),
{
    let authorized = *sender == config.admin;
    if !authorized {
        return Err(ContractError::Unauthorized);
    }
    if !matches!(state.status, Status::Active) {
        return Err(ContractError::SaleNotActive);
    }
    Ok(State { status: Status::Distribution, ..*state })
}

/// Admin-only withdrawal of `amount` of the sold asset, allowed only
/// during `Distribution` and only up to `balance`, the amount the
/// contract currently holds (queried by the host). Returns the amount
/// the host must transfer to the admin.
pub fn execute_admin_withdraw(
    config: &Config,
    state: &State,
    sender: &String,
    amount: u128,
    balance: u128,
) -> (r: Result<u128, ContractError>)
    ensures
        r == Err::<u128, ContractError>(ContractError::Unauthorized) <==> sender@
            != config.admin@,
        r == Err::<u128, ContractError>(ContractError::SaleNotDistribution) <==> (sender@
            == config.admin@ && state.status != Status::Distribution),
        r == Err::<u128, ContractError>(ContractError::InsufficientBalance) <==> (sender@
            == config.admin@ && state.status == Status::Distribution && balance < amount),
        r is Ok <==> (sender@ == config.admin@ && state.status == Status::Distribution && balance
            >= amount),
        r matches Ok(a) ==> a == amount,
{
    let authorized = *sender == config.admin;
    if !authorized {
        return Err(ContractError::Unauthorized);
    }
    if !matches!(state.status, Status::Distribution) {
        return Err(ContractError::SaleNotDistribution);
    }
    if balance < amount {
        return Err(ContractError::InsufficientBalance);
    }
    Ok(amount)
}

/// What a purchase settles on: the updated global state, the buyer's
/// created or folded position, and the amount of the sold asset the
/// payment bought.
#[derive(Debug, Clone)]
pub struct BuyOutcome {
    pub state: State,
    pub position: Position,
    pub buy_amount: u128,
}

/// The amount bought by a payment: `amount_paid / price`, floored,
/// computed exactly on the price's atomic parts.
pub open spec fn spec_buy_amount(amount_paid: u128, price: Decimal) -> int {
    (amount_paid * DECIMAL_FRACTIONAL) / (price.atomics as int)
}

/// The exact intermediate product of the buy-amount division fits in
/// 128 bits, so the checked arithmetic of the purchase path accepts it.
pub open spec fn buy_amount_representable(amount_paid: u128) -> bool {
    amount_paid * DECIMAL_FRACTIONAL <= u128::MAX
}

/// Folding a purchase into an existing position overflows none of the
/// position's accumulators or batch amounts.
pub open spec fn position_update_fits(
    p: Position,
    buy_amount: u128,
    amount_paid: u128,
    batch_amount: u128,
) -> bool {
    &&& fold_fits(p.batches@, buy_amount, batch_amount)
    &&& p.total_bought + buy_amount <= u128::MAX
    &&& p.total_paid + amount_paid <= u128::MAX
}

/// The global accumulators take the purchase without overflow.
pub open spec fn state_update_fits(state: State, buy_amount: u128, amount_paid: u128) -> bool {
    &&& state.total_revenue + amount_paid <= u128::MAX
    &&& state.total_sold + buy_amount <= u128::MAX
}

/// All checked arithmetic of the purchase path succeeds: the branch
/// taken for the buyer's position fits, and so do the global totals.
pub open spec fn buy_fits(
    config: Config,
    state: State,
    position: Option<Position>,
    amount_paid: u128,
) -> bool {
    let buy_amount = spec_buy_amount(amount_paid, config.price) as u128;
    &&& (match position {
        Some(p) => position_update_fits(p, buy_amount, amount_paid, config.batch_amount),
        None => schedule_fits(
            config.first_batch_release_time,
            config.batch_duration,
            config.batch_amount,
        ),
    })
    &&& state_update_fits(state, buy_amount, amount_paid)
}

/// The purchase succeeds: the sale is active, the price and the batch
/// count are non-zero, and nothing overflows.
pub open spec fn buy_accepted(
    config: Config,
    state: State,
    position: Option<Position>,
    amount_paid: u128,
) -> bool {
    &&& state.status == Status::Active
    &&& config.price.atomics != 0
    &&& buy_amount_representable(amount_paid)
    &&& config.batch_amount != 0
    &&& buy_fits(config, state, position, amount_paid)
}

/// The purchase path. The host has already extracted `amount_paid` (a
/// single payment in the configured buy denomination) and looked up
/// the buyer's position; it must afterwards persist the outcome and
/// forward the payment to the revenue collector.
///
/// A first purchase is carved into `config.batch_amount` equal batches
/// on a linear schedule; a repeat purchase is folded into the existing
/// batches, adding no batch and moving no release time. Both floor
/// divisions lose the remainder from the schedule, so the exact ledger
/// balance is promised only for divisible buy amounts, the bound
/// [`Position::ledger_bounded`] always.
pub fn execute_buy(
    config: &Config,
    state: State,
    position: Option<Position>,
    sender: String,
    amount_paid: u128,
    now: u64,
) -> (r: Result<BuyOutcome, ContractError>)
    requires
        config.batch_amount <= usize::MAX as u128,
        position matches Some(p) ==> p.address@ == sender@,
    ensures
        r is Ok <==> buy_accepted(*config, state, position, amount_paid),
        r == Err::<BuyOutcome, ContractError>(ContractError::SaleNotActive) <==> state.status
            != Status::Active,
        r == Err::<BuyOutcome, ContractError>(ContractError::DivideByZero) <==> (state.status
            == Status::Active && (config.price.atomics == 0 || (buy_amount_representable(
            amount_paid,
        ) && config.batch_amount == 0))),
        r == Err::<BuyOutcome, ContractError>(ContractError::ArithmeticOverflow) <==> (state.status
            == Status::Active && config.price.atomics != 0 && (!buy_amount_representable(
            amount_paid,
        ) || (config.batch_amount != 0 && !buy_fits(*config, state, position, amount_paid)))),
        r matches Ok(o) ==> {
            &&& o.buy_amount == spec_buy_amount(amount_paid, config.price)
            &&& o.state.status == Status::Active
            &&& o.state.total_revenue == state.total_revenue + amount_paid
            &&& o.state.total_sold == state.total_sold + o.buy_amount
            &&& totals_le(state, o.state)
            &&& o.position.address@ == sender@
        },
        r matches Ok(o) ==> match position {
            None => {
                &&& o.position.total_bought == o.buy_amount
                &&& o.position.total_paid == amount_paid
                &&& o.position.total_claimed == 0
                &&& o.position.price == config.price
                &&& o.position.timestamp == now
                &&& o.position.batches@.len() == config.batch_amount
                &&& (forall|i: int|
                    0 <= i < o.position.batches@.len() ==> (#[trigger] o.position.batches@[i]).amount
                        == o.buy_amount / config.batch_amount)
                &&& (forall|i: int|
                    0 <= i < o.position.batches@.len() ==> (
                    #[trigger] o.position.batches@[i]).release_time == release_time_at(
                        config.first_batch_release_time,
                        config.batch_duration,
                        i,
                    ))
                &&& sum_amounts(o.position.batches@) == config.batch_amount * (o.buy_amount
                    / config.batch_amount)
                &&& (o.buy_amount % config.batch_amount == 0 ==> o.position.balanced())
                &&& o.position.ledger_bounded()
            },
            Some(p) => {
                &&& o.position.total_bought == p.total_bought + o.buy_amount
                &&& o.position.total_paid == p.total_paid + amount_paid
                &&& o.position.total_claimed == p.total_claimed
                &&& o.position.price == p.price
                &&& o.position.timestamp == p.timestamp
                &&& o.position.batches@.len() == p.batches@.len()
                &&& (forall|i: int|
                    0 <= i < o.position.batches@.len() ==> (#[trigger] o.position.batches@[i]).amount
                        == p.batches@[i].amount + o.buy_amount / config.batch_amount)
                &&& (forall|i: int|
                    0 <= i < o.position.batches@.len() ==> (
                    #[trigger] o.position.batches@[i]).release_time == p.batches@[i].release_time)
                &&& sum_amounts(o.position.batches@) == sum_amounts(p.batches@) + p.batches@.len()
                    * (o.buy_amount / config.batch_amount)
                &&& (p.balanced() && p.batches@.len() == config.batch_amount && o.buy_amount
                    % config.batch_amount == 0 ==> o.position.balanced())
                &&& (p.ledger_bounded() && p.batches@.len() <= config.batch_amount
                    ==> o.position.ledger_bounded())
            },
        },
{
    let ghost position0 = position;
    if !matches!(state.status, Status::Active) {
        return Err(ContractError::SaleNotActive);
    }
    if config.price.atomics == 0 {
        return Err(ContractError::DivideByZero);
    }
    let numerator = match amount_paid.checked_mul(DECIMAL_FRACTIONAL) {
        Some(n) => n,
        None => {
            return Err(ContractError::ArithmeticOverflow);
        },
    };
    let buy_amount: u128 = numerator / config.price.atomics;
    let new_position = match position {
        Some(p) => {
            let new_batches = match update_batches(p.batches, buy_amount, config.batch_amount) {
                Ok(b) => b,
                Err(e) => {
                    return Err(e);
                },
            };
            let total_bought = match p.total_bought.checked_add(buy_amount) {
                Some(v) => v,
                None => {
                    return Err(ContractError::ArithmeticOverflow);
                },
            };
            let total_paid = match p.total_paid.checked_add(amount_paid) {
                Some(v) => v,
                None => {
                    return Err(ContractError::ArithmeticOverflow);
                },
            };
            Position {
                address: p.address,
                total_bought,
                total_paid,
                total_claimed: p.total_claimed,
                price: p.price,
                timestamp: p.timestamp,
                batches: new_batches,
            }
        },
        None => {
            let batches = match create_batches(
                config.batch_duration,
                config.batch_amount,
                buy_amount,
                config.first_batch_release_time,
            ) {
                Ok(b) => b,
                Err(e) => {
                    return Err(e);
                },
            };
            Position {
                address: sender,
                total_bought: buy_amount,
                total_paid: amount_paid,
                total_claimed: 0,
                price: config.price,
                timestamp: now,
                batches,
            }
        },
    };
    let total_revenue = match state.total_revenue.checked_add(amount_paid) {
        Some(v) => v,
        None => {
            return Err(ContractError::ArithmeticOverflow);
        },
    };
    let total_sold = match state.total_sold.checked_add(buy_amount) {
        Some(v) => v,
        None => {
            return Err(ContractError::ArithmeticOverflow);
        },
    };
    let new_state = State { total_revenue, total_sold, status: state.status };
    proof {
        lemma_fundamental_div_mod(buy_amount as int, config.batch_amount as int);
        match position0 {
            Some(p) => {
                if p.batches@.len() <= config.batch_amount {
                    lemma_mul_inequality(
                        p.batches@.len() as int,
                        config.batch_amount as int,
                        (buy_amount / config.batch_amount) as int,
                    );
                }
            },
            None => {},
        }
    }
    Ok(BuyOutcome { state: new_state, position: new_position, buy_amount })
}

/// What a claim settles on: the position with the matured batches
/// removed, and the settled amount the host must transfer to the buyer.
#[derive(Debug, Clone)]
pub struct ClaimOutcome {
    pub position: Position,
    pub claim_amount: u128,
}

/// The claim path. During `Distribution`, a buyer with a position
/// settles exactly the batches whose release time lies strictly before
/// `now`: they are removed for good, their amounts are summed into the
/// settlement and into `total_claimed`, and the still-locked batches
/// stay untouched and in order. A claim with nothing matured fails
/// rather than settling zero; there is no partial claim.
pub fn execute_claim(state: &State, position: Option<Position>, now: u64) -> (r: Result<
    ClaimOutcome,
    ContractError,
>)
    ensures
        r == Err::<ClaimOutcome, ContractError>(ContractError::SaleNotDistribution) <==> state.status
            != Status::Distribution,
        r == Err::<ClaimOutcome, ContractError>(ContractError::PositionNotFound) <==> (state.status
            == Status::Distribution && position is None),
        r == Err::<ClaimOutcome, ContractError>(ContractError::NoMatureClaims) <==> (state.status
            == Status::Distribution && (position matches Some(p) && mature_batches(
            p.batches@,
            now,
        ).len() == 0)),
        r == Err::<ClaimOutcome, ContractError>(ContractError::ArithmeticOverflow) <==> (state.status
            == Status::Distribution && (position matches Some(p) && mature_batches(
            p.batches@,
            now,
        ).len() > 0 && p.total_claimed + sum_amounts(mature_batches(p.batches@, now))
            > u128::MAX)),
        r is Ok <==> (state.status == Status::Distribution && (position matches Some(p)
            && mature_batches(p.batches@, now).len() > 0 && p.total_claimed + sum_amounts(
            mature_batches(p.batches@, now),
        ) <= u128::MAX)),
        r matches Ok(o) ==> position matches Some(p) && {
            &&& o.position.batches@ == pending_batches(p.batches@, now)
            &&& o.claim_amount == sum_amounts(mature_batches(p.batches@, now))
            &&& o.position.total_claimed == p.total_claimed + o.claim_amount
            &&& o.position.total_bought == p.total_bought
            &&& o.position.total_paid == p.total_paid
            &&& o.position.address@ == p.address@
            &&& o.position.price == p.price
            &&& o.position.timestamp == p.timestamp
            &&& o.position.batches@.len() + mature_batches(p.batches@, now).len()
                == p.batches@.len()
            &&& (forall|i: int|
                0 <= i < o.position.batches@.len() ==> (
                #[trigger] o.position.batches@[i]).release_time >= now)
            &&& mature_batches(o.position.batches@, now).len() == 0
            &&& (p.balanced() ==> o.position.balanced())
            &&& (p.ledger_bounded() ==> o.position.ledger_bounded())
        },
{
    if !matches!(state.status, Status::Distribution) {
        return Err(ContractError::SaleNotDistribution);
    }
    let p = match position {
        Some(p) => p,
        None => {
            return Err(ContractError::PositionNotFound);
        },
    };
    let ghost all = p.batches@;
    let mut kept: Vec<Batch> = Vec::new();
    let mut claim_total: u128 = 0;
    let mut idx: usize = 0;
    while idx < p.batches.len()
        invariant
            state.status == Status::Distribution,
            position == Some(p),
            idx <= all.len(),
            all == p.batches@,
            kept@ == pending_batches(all.subrange(0, idx as int), now),
            claim_total == sum_amounts(mature_batches(all.subrange(0, idx as int), now)),
        decreases all.len() - idx,
    {
        let b = p.batches[idx];
        let ghost prefix = all.subrange(0, idx as int);
        proof {
            assert(all.subrange(0, idx as int + 1) =~= prefix.push(b));
            lemma_mature_pending_push(prefix, b, now);
        }
        if b.release_time < now {
            proof {
                lemma_sum_amounts_push(mature_batches(prefix, now), b);
            }
            claim_total = match claim_total.checked_add(b.amount) {
                Some(t) => t,
                None => {
                    proof {
                        lemma_mature_sum_prefix(all, idx as int + 1, now);
                        lemma_sum_amounts_push(mature_batches(prefix, now), b);
                    }
                    return Err(ContractError::ArithmeticOverflow);
                },
            };
        } else {
            kept.push(b);
        }
        idx = idx + 1;
    }
    proof {
        assert(all.subrange(0, all.len() as int) =~= all);
        lemma_mature_pending_partition(all, now);
    }
    if kept.len() == p.batches.len() {
        return Err(ContractError::NoMatureClaims);
    }
    let total_claimed = match p.total_claimed.checked_add(claim_total) {
        Some(c) => c,
        None => {
            return Err(ContractError::ArithmeticOverflow);
        },
    };
    proof {
        lemma_pending_batches_pending(all, now);
        lemma_no_mature_batches(kept@, now);
    }
    Ok(
        ClaimOutcome {
            position: Position {
                address: p.address,
                total_bought: p.total_bought,
                total_paid: p.total_paid,
                total_claimed,
                price: p.price,
                timestamp: p.timestamp,
                batches: kept,
            },
            claim_amount: claim_total,
        },
    )
}

/// One of the `Pending`-gated configuration fields is being changed.
pub open spec fn touches_frozen_field(
    batch_duration: Option<u128>,
    batch_amount: Option<u128>,
    buy_denom: Option<String>,
    sell_denom: Option<String>,
) -> bool {
    batch_duration is Some || batch_amount is Some || buy_denom is Some || sell_denom is Some
}

/// Admin-only configuration update. `admin`, `revenue_collector` and
/// `price` may change at any time; `batch_duration`, `batch_amount`,
/// `buy_denom` and `sell_denom` only while the sale is still
/// `Pending`. A field left `None` is untouched. All-or-nothing: on an
/// error the configuration is unchanged.
pub fn execute_update_config(
    config: Config,
    state: &State,
    sender: &String,
    admin: Option<String>,
    batch_duration: Option<u128>,
    batch_amount: Option<u128>,
    revenue_collector: Option<String>,
    price: Option<Decimal>,
    buy_denom: Option<String>,
    sell_denom: Option<String>,
) -> (r: Result<Config, ContractError>)
    ensures
        r == Err::<Config, ContractError>(ContractError::Unauthorized) <==> sender@
            != config.admin@,
        r == Err::<Config, ContractError>(ContractError::SaleNotPending) <==> (sender@
            == config.admin@ && state.status != Status::Pending && touches_frozen_field(
            batch_duration,
            batch_amount,
            buy_denom,
            sell_denom,
        )),
        r is Ok <==> (sender@ == config.admin@ && (state.status == Status::Pending
            || !touches_frozen_field(batch_duration, batch_amount, buy_denom, sell_denom))),
        r matches Ok(c) ==> {
            &&& (admin matches Some(a) ==> c.admin@ == a@)
            &&& (admin is None ==> c.admin@ == config.admin@)
            &&& (batch_duration matches Some(d) ==> c.batch_duration == d)
            &&& (batch_duration is None ==> c.batch_duration == config.batch_duration)
            &&& (batch_amount matches Some(n) ==> c.batch_amount == n)
            &&& (batch_amount is None ==> c.batch_amount == config.batch_amount)
            &&& (revenue_collector matches Some(rc) ==> c.revenue_collector@ == rc@)
            &&& (revenue_collector is None ==> c.revenue_collector@ == config.revenue_collector@)
            &&& (price matches Some(p) ==> c.price == p)
            &&& (price is None ==> c.price == config.price)
            &&& (buy_denom matches Some(bd) ==> c.buy_denom@ == bd@)
            &&& (buy_denom is None ==> c.buy_denom@ == config.buy_denom@)
            &&& (sell_denom matches Some(sd) ==> c.sell_denom@ == sd@)
            &&& (sell_denom is None ==> c.sell_denom@ == config.sell_denom@)
            &&& c.first_batch_release_time == config.first_batch_release_time
        },
{
    let authorized = *sender == config.admin;
    if !authorized {
        return Err(ContractError::Unauthorized);
    }
    let pending = matches!(state.status, Status::Pending);
    if !pending && (batch_duration.is_some() || batch_amount.is_some() || buy_denom.is_some()
        || sell_denom.is_some()) {
        return Err(ContractError::SaleNotPending);
    }
    let mut config = config;
    if let Some(a) = admin {
        config.admin = a;
    }
    if let Some(d) = batch_duration {
        config.batch_duration = d;
    }
    if let Some(n) = batch_amount {
        config.batch_amount = n;
    }
    if let Some(rc) = revenue_collector {
        config.revenue_collector = rc;
    }
    if let Some(p) = price {
        config.price = p;
    }
    if let Some(bd) = buy_denom {
        config.buy_denom = bd;
    }
    if let Some(sd) = sell_denom {
        config.sell_denom = sd;
    }
    Ok(config)
}

/// The current configuration, as reported to queries.
pub fn query_config(config: &Config) -> (r: QueryConfigResponse)
    ensures
        r.admin@ == config.admin@,
        r.batch_duration == config.batch_duration,
        r.batch_amount == config.batch_amount,
        r.revenue_collector@ == config.revenue_collector@,
        r.price == config.price,
        r.buy_denom@ == config.buy_denom@,
        r.sell_denom@ == config.sell_denom@,
        r.first_batch_release_time == config.first_batch_release_time,
{
    QueryConfigResponse {
        admin: config.admin.clone(),
        batch_duration: config.batch_duration,
        batch_amount: config.batch_amount,
        revenue_collector: config.revenue_collector.clone(),
        price: config.price,
        buy_denom: config.buy_denom.clone(),
        sell_denom: config.sell_denom.clone(),
        first_batch_release_time: config.first_batch_release_time,
    }
}

/// The current sale state, the status rendered as its lower-case name.
pub fn query_state(state: &State) -> (r: QueryStateResponse)
    ensures
        r.total_revenue == state.total_revenue,
        r.total_sold == state.total_sold,
        state.status == Status::Pending ==> r.status@ == "pending"@,
        state.status == Status::Active ==> r.status@ == "active"@,
        state.status == Status::Distribution ==> r.status@ == "distribution"@,
{
    QueryStateResponse {
        total_revenue: state.total_revenue,
        total_sold: state.total_sold,
        status: state.status.to_string(),
    }
}

/// A buyer's position, as reported to queries: the cumulative totals
/// and the still-pending batches.
pub fn query_position(position: Position) -> (r: QueryPositionResponse)
    ensures
        r.address@ == position.address@,
        r.total_bought == position.total_bought,
        r.total_paid == position.total_paid,
        r.total_claimed == position.total_claimed,
        r.price == position.price,
        r.timestamp == position.timestamp,
        r.batches@ == position.batches@,
{
    QueryPositionResponse {
        address: position.address,
        total_bought: position.total_bought,
        total_paid: position.total_paid,
        total_claimed: position.total_claimed,
        price: position.price,
        timestamp: position.timestamp,
        batches: position.batches,
    }
}

} // verus!
