//! Messages of the sale's external interface, over plain values:
//! amounts as `u128`, timestamps as nanosecond `u64`, prices as
//! fixed-point [`Decimal`]s and identities as strings already
//! validated by the caller.

use vstd::prelude::*;

verus! {

use crate::state::{Batch, Decimal};

#[derive(Debug, Clone)]
pub struct InstantiateMsg {
    /// Admin identity; the caller becomes admin when absent.
    pub admin: Option<String>,
    pub batch_duration: u128,
    pub batch_amount: u128,
    pub revenue_collector: String,
    pub price: Decimal,
    pub buy_denom: String,
    pub sell_denom: String,
    pub first_batch_release_time: u64,
}

#[derive(Debug, Clone)]
pub enum ExecuteMsg {
    Buy,
    UpdateConfig {
        admin: Option<String>,
        batch_duration: Option<u128>,
        batch_amount: Option<u128>,
        revenue_collector: Option<String>,
        price: Option<Decimal>,
        buy_denom: Option<String>,
        sell_denom: Option<String>,
    },
    StartDistribution,
    AdminWithdraw { amount: u128 },
    StartSale,
    Claim,
}

#[derive(Debug, Clone)]
pub enum QueryMsg {
    QueryPosition { address: String },
    QueryConfig,
    QueryState,
}

#[derive(Debug, Clone)]
pub struct QueryPositionResponse {
    pub address: String,
    pub total_bought: u128,
    pub total_paid: u128,
    pub total_claimed: u128,
    pub price: Decimal,
    pub timestamp: u64,
    pub batches: Vec<Batch>,
}

#[derive(Debug, Clone)]
pub struct QueryConfigResponse {
    pub admin: String,
    pub batch_duration: u128,
    pub batch_amount: u128,
    pub revenue_collector: String,
    pub price: Decimal,
    pub buy_denom: String,
    pub sell_denom: String,
    pub first_batch_release_time: u64,
}

#[derive(Debug, Clone)]
pub struct QueryStateResponse {
    pub total_revenue: u128,
    pub total_sold: u128,
    pub status: String,
}

} // verus!
