//! The reasons for which an operation on a pool is refused.

use vstd::prelude::*;

verus! {

/// Why an operation was refused. A refused operation changes nothing and asks
/// for no transfer.
#[derive(Clone, Copy, Debug, PartialEq, Eq, Structural)]
pub enum EscrowError {
    /// The weights do not sum to 100, or one of them is above 100.
    InvalidDistribution,
    /// The deposit is zero.
    InvalidAmount,
    /// The deadline is not after the time of creation.
    InvalidDeadline,
    /// The caller is not the identity that the operation is reserved for.
    Unauthorized,
    /// Winners were named before the deadline.
    PoolNotEnded,
    /// Winners were named a second time.
    WinnersAlreadySet,
    /// There are not as many winners as there are weights.
    DistributionMismatch,
    /// A prize was claimed before winners were named.
    WinnersNotSet,
    /// Every rank that the caller holds has been paid.
    AlreadyClaimed,
    /// The caller holds no rank.
    NotAWinner,
    /// A withdrawal was asked for while named winners are still unpaid.
    EmergencyConditionNotMet,
    /// The payout does not fit the integer type it is computed in.
    ArithmeticOverflow,
    /// The token ledger refused the transfer or could not make it.
    TransferFailed,
    /// Winners were named after the owner had withdrawn the whole deposit.
    PoolDrained,
}

} // verus!
