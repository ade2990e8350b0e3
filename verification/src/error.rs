use vstd::prelude::*;

verus! {

/// Every failure the contract reports to the caller of an entry point.
#[derive(Debug, PartialEq, Eq)]
pub enum ContractError {
    /// A storage or encoding failure of the hosting platform, carried opaquely.
    Std { msg: String },
    /// Setup was attempted with a zero unit price.
    InvalidUnitPrice {},
    /// Setup was attempted with a zero supply cap.
    InvalidMaxTokens {},
    /// A deployment callback arrived although the collection is already linked.
    AlreadyLinked {},
    /// A deployment callback carried a correlation id other than the expected tag.
    InvalidCorrelation {},
    /// A purchase was attempted after the supply cap was reached.
    SoldOut {},
    /// A payment notification came from a contract other than the configured one.
    UnauthorizedTokenContract {},
    /// A purchase was attempted before the collection was linked.
    Uninitialized {},
    /// The paid amount differs from the configured unit price.
    WrongPaymentAmount {},
}

} // verus!
