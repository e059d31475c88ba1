//! An escrow for prize pools.
//!
//! A pool holds a deposit of tokens for a post. Its creator fixes, at
//! creation, how the deposit is split: one percentage per rank, 100 in all.
//! After the deadline the creator names one winner per rank, and each winner
//! claims the share of their rank. The creator can take the deposit back as
//! long as no winners are named, and can collect what rounding has left over
//! once every winner is paid.
//!
//! The escrow decides; it does not move tokens, read a clock or store
//! anything. The host hands each operation the caller, the time and the
//! record, makes the [`Transfer`] that comes back, reports to [`settle`]
//! whether the tokens moved, and stores the record only then.
//!
//! - [`model`] states what each operation does, as a function on the
//!   mathematical record of a pool, and what it means for a record to be well
//!   formed.
//! - [`escrow`] holds the operations themselves, each proved to do what
//!   [`model`] states.
//! - [`laws`] proves what holds of every pool: the invariant is kept, no rank
//!   is paid twice, payments never exceed the deposit, only the owner names
//!   winners or withdraws, and winners wait for the deadline.
//! - [`history`] proves the same of whole histories: over any sequence of
//!   requests no more leaves the escrow than was deposited.
//! - [`pool`] is the record as the host stores it; [`shares`] is the
//!   arithmetic of percentages; [`identity`], [`transfer`] and [`error`] are
//!   the values that go in and out.

pub mod error;
pub mod escrow;
pub mod history;
pub mod identity;
pub mod laws;
pub mod model;
pub mod pool;
pub mod shares;
pub mod transfer;

pub use crate::error::EscrowError;
pub use crate::escrow::{claim_prize, create_pool, emergency_withdraw, set_winners, settle};
pub use crate::identity::Identity;
pub use crate::pool::Pool;
pub use crate::transfer::{Account, Transfer};
