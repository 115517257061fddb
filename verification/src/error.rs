//! Errors of the sale's operations. Every operation either fully
//! applies or fails with one of these; no state is left half-updated.

use vstd::prelude::*;

verus! {

#[derive(Debug, Clone, Copy, PartialEq, Eq, Structural)]
pub enum ContractError {
    /// The caller of an admin-only operation is not the admin.
    Unauthorized,
    /// A purchase was attempted while the sale is not `Active`.
    SaleNotActive,
    /// A `Pending`-only operation was attempted after the sale started.
    SaleNotPending,
    /// A `Distribution`-only operation was attempted too early.
    SaleNotDistribution,
    /// A schedule was requested with a batch count of zero.
    DivideByZero,
    /// A checked arithmetic operation overflowed.
    ArithmeticOverflow,
    /// A claim was attempted while no batch has matured.
    NoMatureClaims,
    /// A claim was attempted by a buyer without a position.
    PositionNotFound,
    /// A withdrawal was attempted beyond the held balance.
    InsufficientBalance,
}

} // verus!
