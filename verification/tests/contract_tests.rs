use token_sale::contract::{
    execute_admin_withdraw, execute_buy, execute_claim, execute_start_distribution,
    execute_start_sale, execute_update_config, instantiate, query_config, query_position,
    query_state,
};
use token_sale::msg::InstantiateMsg;
use token_sale::state::{Decimal, Status};
use token_sale::ContractError;

/// 0.1 as a fixed-point decimal with eighteen fractional digits.
fn price_one_tenth() -> Decimal {
    Decimal { atomics: 100_000_000_000_000_000 }
}

fn default_init_msg() -> InstantiateMsg {
    InstantiateMsg {
        admin: None,
        batch_duration: 100,
        batch_amount: 10,
        revenue_collector: "revenue_collector".to_string(),
        price: price_one_tenth(),
        buy_denom: "ujuno".to_string(),
        sell_denom: "token".to_string(),
        first_batch_release_time: 100000000000,
    }
}

#[test]
pub fn test_proper_init() {
    // instantiate without admin: the sender becomes admin
    let (config, state) = instantiate(default_init_msg(), "creator".to_string());
    let res = query_config(&config);
    assert_eq!("creator".to_string(), res.admin);
    assert_eq!(100u128, res.batch_duration);
    assert_eq!(10u128, res.batch_amount);
    assert_eq!("revenue_collector".to_string(), res.revenue_collector);
    assert_eq!(price_one_tenth(), res.price);
    assert_eq!("ujuno".to_string(), res.buy_denom);
    assert_eq!("token".to_string(), res.sell_denom);
    assert_eq!(100000000000u64, res.first_batch_release_time);
    assert_eq!(state.status, Status::Pending);
    assert_eq!(state.total_revenue, 0u128);
    assert_eq!(state.total_sold, 0u128);

    // instantiate with admin
    let mut init_msg = default_init_msg();
    init_msg.admin = Some("admin".to_string());
    let (config, _state) = instantiate(init_msg, "creator".to_string());
    assert_eq!("admin".to_string(), query_config(&config).admin);
}

#[test]
pub fn test_buy() {
    let (config, state) = instantiate(default_init_msg(), "creator".to_string());

    // Try buying before sale start
    let res = execute_buy(&config, state, None, "buyer".to_string(), 10, 0).unwrap_err();
    assert_eq!(ContractError::SaleNotActive, res);

    // activate sale
    let state = execute_start_sale(&config, &state, &"creator".to_string()).unwrap();

    // Happy path: 10 ujuno at price 0.1 buys 100
    let out = execute_buy(&config, state, None, "buyer".to_string(), 10, 0).unwrap();
    let state = out.state;
    assert_eq!(out.buy_amount, 100u128);
    // check state
    let st = query_state(&state);
    assert_eq!(st.total_revenue, 10u128);
    assert_eq!(st.total_sold, 100u128);

    // check position
    let position = query_position(out.position.clone());
    assert_eq!(position.total_bought, 100u128);
    assert_eq!(position.total_paid, 10u128);
    assert_eq!(position.address, "buyer".to_string());
    let expected_release_times: Vec<u64> = vec![
        100000000000,
        100000000100,
        100000000200,
        100000000300,
        100000000400,
        100000000500,
        100000000600,
        100000000700,
        100000000800,
        100000000900,
    ];
    assert_eq!(position.batches.len(), 10);
    for (i, batch) in position.batches.iter().enumerate() {
        assert_eq!(batch.amount, 10u128);
        assert_eq!(batch.release_time, expected_release_times[i]);
    }

    // Try buying again: 877 ujuno buys 8770, folded into the batches
    let out = execute_buy(&config, state, Some(out.position), "buyer".to_string(), 877, 0)
        .unwrap();
    let state = out.state;
    // check state
    let st = query_state(&state);
    assert_eq!(st.total_revenue, 887u128);
    assert_eq!(st.total_sold, 100u128 + 8770u128);

    // check position
    let position = query_position(out.position.clone());
    assert_eq!(position.total_bought, 100u128 + 8770u128);
    assert_eq!(position.total_paid, 887u128);
    assert_eq!(position.address, "buyer".to_string());
    // the buyer still has 10 batches; each gained 8770 / 10 = 877
    assert_eq!(position.batches.len(), 10);
    assert_eq!(position.batches[0].amount, 887u128);

    // start distribution
    let state = execute_start_distribution(&config, &state, &"creator".to_string()).unwrap();

    // try claiming just past the first release time: only batch 0 matured
    let out2 = execute_claim(&state, Some(out.position), 100000000000 + 1).unwrap();
    assert_eq!(out2.claim_amount, 887u128);
    // check batches
    let position = query_position(out2.position.clone());
    assert_eq!(position.batches.len(), 9);
    assert_eq!(position.total_claimed, 887u128);
    assert_eq!(position.batches[0].amount, 887u128);
    assert_eq!(position.batches[0].release_time, 100000000100u64);

    // now try claiming everything left
    let out3 = execute_claim(&state, Some(out2.position), 100000000900 + 1).unwrap();
    assert_eq!(out3.claim_amount, 8870u128 - 887u128);
    // check batches
    let position = query_position(out3.position.clone());
    assert_eq!(position.batches.len(), 0);
    assert_eq!(position.total_claimed, 8870u128);
}

#[test]
pub fn test_update_config() {
    let (config, state) = instantiate(default_init_msg(), "creator".to_string());

    // random update config
    let res = execute_update_config(
        config.clone(),
        &state,
        &"random".to_string(),
        None,
        Some(12),
        None,
        None,
        None,
        None,
        None,
    );
    assert_eq!(res.unwrap_err(), ContractError::Unauthorized);

    // update config
    let config = execute_update_config(
        config,
        &state,
        &"creator".to_string(),
        None,
        Some(12),
        None,
        None,
        None,
        None,
        None,
    )
    .unwrap();
    // check config
    assert_eq!(query_config(&config).batch_duration, 12u128);

    // start sale
    let state = execute_start_sale(&config, &state, &"creator".to_string()).unwrap();

    // update config after the sale started fails
    let res = execute_update_config(
        config,
        &state,
        &"creator".to_string(),
        None,
        Some(12),
        None,
        None,
        None,
        None,
        None,
    );
    assert_eq!(res.unwrap_err(), ContractError::SaleNotPending);
}

#[test]
fn test_lifecycle_transitions_and_guards() {
    let (config, state) = instantiate(default_init_msg(), "creator".to_string());
    let creator = "creator".to_string();

    // distribution cannot start before the sale
    assert_eq!(
        execute_start_distribution(&config, &state, &creator).unwrap_err(),
        ContractError::SaleNotActive
    );
    let state = execute_start_sale(&config, &state, &creator).unwrap();
    assert_eq!(state.status, Status::Active);
    // the sale cannot start twice
    assert_eq!(
        execute_start_sale(&config, &state, &creator).unwrap_err(),
        ContractError::SaleNotPending
    );
    // non-admin cannot transition
    assert_eq!(
        execute_start_distribution(&config, &state, &"random".to_string()).unwrap_err(),
        ContractError::Unauthorized
    );
    let state = execute_start_distribution(&config, &state, &creator).unwrap();
    assert_eq!(state.status, Status::Distribution);
    // no path back, no re-entry
    assert_eq!(
        execute_start_sale(&config, &state, &creator).unwrap_err(),
        ContractError::SaleNotPending
    );
    assert_eq!(
        execute_start_distribution(&config, &state, &creator).unwrap_err(),
        ContractError::SaleNotActive
    );
}

#[test]
fn test_status_strings() {
    let (config, state) = instantiate(default_init_msg(), "creator".to_string());
    assert_eq!(query_state(&state).status, "pending".to_string());
    let state = execute_start_sale(&config, &state, &"creator".to_string()).unwrap();
    assert_eq!(query_state(&state).status, "active".to_string());
    let state = execute_start_distribution(&config, &state, &"creator".to_string()).unwrap();
    assert_eq!(query_state(&state).status, "distribution".to_string());
}

#[test]
fn test_totals_monotonic_across_purchases() {
    let (config, state) = instantiate(default_init_msg(), "creator".to_string());
    let state = execute_start_sale(&config, &state, &"creator".to_string()).unwrap();

    let mut prev = state;
    let mut position = None;
    for paid in [10u128, 877, 1, 30] {
        let out = execute_buy(&config, prev, position, "buyer".to_string(), paid, 0).unwrap();
        assert!(out.state.total_revenue >= prev.total_revenue);
        assert!(out.state.total_sold >= prev.total_sold);
        prev = out.state;
        position = Some(out.position);
    }
    assert_eq!(prev.total_revenue, 918u128);
    assert_eq!(prev.total_sold, 9180u128);
}

#[test]
fn test_ledger_balance_after_buys_and_claims() {
    let (config, state) = instantiate(default_init_msg(), "creator".to_string());
    let state = execute_start_sale(&config, &state, &"creator".to_string()).unwrap();

    // both buy amounts (100 and 8770) are divisible by the batch count,
    // so the exact ledger balance holds throughout
    let out = execute_buy(&config, state, None, "buyer".to_string(), 10, 0).unwrap();
    let out = execute_buy(&config, out.state, Some(out.position), "buyer".to_string(), 877, 0)
        .unwrap();
    let sum: u128 = out.position.batches.iter().map(|b| b.amount).sum();
    assert_eq!(out.position.total_claimed + sum, out.position.total_bought);

    let state = execute_start_distribution(&config, &out.state, &"creator".to_string()).unwrap();
    let claimed = execute_claim(&state, Some(out.position), 100000000201).unwrap();
    let sum: u128 = claimed.position.batches.iter().map(|b| b.amount).sum();
    assert_eq!(claimed.position.total_claimed + sum, claimed.position.total_bought);
}

#[test]
fn test_rounding_loss_keeps_ledger_bounded() {
    // a batch count of 3 forces a floor-division remainder
    let mut msg = default_init_msg();
    msg.batch_amount = 3;
    let (config, state) = instantiate(msg, "creator".to_string());
    let state = execute_start_sale(&config, &state, &"creator".to_string()).unwrap();

    // 10 ujuno buys 100; 100 / 3 = 33 per batch, 1 lost from the schedule
    let out = execute_buy(&config, state, None, "buyer".to_string(), 10, 0).unwrap();
    let sum: u128 = out.position.batches.iter().map(|b| b.amount).sum();
    assert_eq!(sum, 99u128);
    assert_eq!(out.position.total_bought, 100u128);
    assert!(out.position.total_claimed + sum <= out.position.total_bought);
}

#[test]
fn test_claim_idempotent_noop() {
    let (config, state) = instantiate(default_init_msg(), "creator".to_string());
    let state = execute_start_sale(&config, &state, &"creator".to_string()).unwrap();
    let out = execute_buy(&config, state, None, "buyer".to_string(), 10, 0).unwrap();
    let state = execute_start_distribution(&config, &out.state, &"creator".to_string()).unwrap();

    // first claim at this instant settles batch 0
    let now = 100000000001u64;
    let claimed = execute_claim(&state, Some(out.position), now).unwrap();
    assert_eq!(claimed.claim_amount, 10u128);
    // a second claim with no time advance and no new purchase fails
    let res = execute_claim(&state, Some(claimed.position), now);
    assert_eq!(res.unwrap_err(), ContractError::NoMatureClaims);
}

#[test]
fn test_claim_guards() {
    let (config, state) = instantiate(default_init_msg(), "creator".to_string());
    let state = execute_start_sale(&config, &state, &"creator".to_string()).unwrap();
    let out = execute_buy(&config, state, None, "buyer".to_string(), 10, 0).unwrap();

    // claiming before distribution fails
    assert_eq!(
        execute_claim(&out.state, Some(out.position.clone()), 200000000000).unwrap_err(),
        ContractError::SaleNotDistribution
    );
    let state = execute_start_distribution(&config, &out.state, &"creator".to_string()).unwrap();
    // a buyer without a position cannot claim
    assert_eq!(
        execute_claim(&state, None, 200000000000).unwrap_err(),
        ContractError::PositionNotFound
    );
    // nothing matured: release times are strict lower bounds
    assert_eq!(
        execute_claim(&state, Some(out.position.clone()), 100000000000).unwrap_err(),
        ContractError::NoMatureClaims
    );
    // everything matured
    let claimed = execute_claim(&state, Some(out.position), 200000000000).unwrap();
    assert_eq!(claimed.claim_amount, 100u128);
    assert_eq!(claimed.position.batches.len(), 0);
}

#[test]
fn test_admin_withdraw_guards() {
    let (config, state) = instantiate(default_init_msg(), "creator".to_string());
    let creator = "creator".to_string();

    assert_eq!(
        execute_admin_withdraw(&config, &state, &"random".to_string(), 5, 100).unwrap_err(),
        ContractError::Unauthorized
    );
    assert_eq!(
        execute_admin_withdraw(&config, &state, &creator, 5, 100).unwrap_err(),
        ContractError::SaleNotDistribution
    );
    let state = execute_start_sale(&config, &state, &creator).unwrap();
    let state = execute_start_distribution(&config, &state, &creator).unwrap();
    assert_eq!(
        execute_admin_withdraw(&config, &state, &creator, 101, 100).unwrap_err(),
        ContractError::InsufficientBalance
    );
    assert_eq!(execute_admin_withdraw(&config, &state, &creator, 100, 100).unwrap(), 100u128);
}

#[test]
fn test_buy_error_conditions() {
    let (config, state) = instantiate(default_init_msg(), "creator".to_string());
    let state = execute_start_sale(&config, &state, &"creator".to_string()).unwrap();

    // a price of zero cannot divide the payment
    let mut zero_price = config.clone();
    zero_price.price = Decimal { atomics: 0 };
    assert_eq!(
        execute_buy(&zero_price, state, None, "buyer".to_string(), 10, 0).unwrap_err(),
        ContractError::DivideByZero
    );

    // a batch count of zero cannot split the purchase
    let mut zero_batches = config.clone();
    zero_batches.batch_amount = 0;
    assert_eq!(
        execute_buy(&zero_batches, state, None, "buyer".to_string(), 10, 0).unwrap_err(),
        ContractError::DivideByZero
    );

    // the exact intermediate product must fit in 128 bits
    assert_eq!(
        execute_buy(&config, state, None, "buyer".to_string(), u128::MAX, 0).unwrap_err(),
        ContractError::ArithmeticOverflow
    );

    // a schedule whose last release time passes the end of time fails
    let mut far_future = config.clone();
    far_future.first_batch_release_time = u64::MAX;
    assert_eq!(
        execute_buy(&far_future, state, None, "buyer".to_string(), 10, 0).unwrap_err(),
        ContractError::ArithmeticOverflow
    );
}

#[test]
fn test_update_config_all_fields() {
    let (config, state) = instantiate(default_init_msg(), "creator".to_string());
    let config = execute_update_config(
        config,
        &state,
        &"creator".to_string(),
        Some("admin2".to_string()),
        Some(7),
        Some(5),
        Some("collector2".to_string()),
        Some(Decimal { atomics: 2_000_000_000_000_000_000 }),
        Some("uatom".to_string()),
        Some("token2".to_string()),
    )
    .unwrap();
    let res = query_config(&config);
    assert_eq!(res.admin, "admin2".to_string());
    assert_eq!(res.batch_duration, 7u128);
    assert_eq!(res.batch_amount, 5u128);
    assert_eq!(res.revenue_collector, "collector2".to_string());
    assert_eq!(res.price, Decimal { atomics: 2_000_000_000_000_000_000 });
    assert_eq!(res.buy_denom, "uatom".to_string());
    assert_eq!(res.sell_denom, "token2".to_string());

    // the unrestricted fields may still change after the sale started
    let state = execute_start_sale(&config, &state, &"admin2".to_string()).unwrap();
    let config = execute_update_config(
        config,
        &state,
        &"admin2".to_string(),
        None,
        None,
        None,
        Some("collector3".to_string()),
        Some(Decimal { atomics: 1 }),
        None,
        None,
    )
    .unwrap();
    assert_eq!(query_config(&config).revenue_collector, "collector3".to_string());
    assert_eq!(query_config(&config).price, Decimal { atomics: 1 });
}
