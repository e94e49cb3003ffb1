//! A custody-backed swap pool with a fixed conversion rate, and a small counter.
//!
//! The pool holds two assets, A and B, in two vaults that it does not own in the
//! usual sense: no private key controls them. They are controlled by an address that
//! is derived from the pool's two mints, and the pool proves control by deriving that
//! address again. A caller buys A for B at the pool's rate, or sells A for B at the
//! same rate, rounded down. Each swap is two transfers, and both land or neither.
//!
//! - [`address`]: the addresses of ledger records.
//! - [`authority`]: deriving an authority, and deriving it again from its bump.
//! - [`custody`]: balance records, proofs of control, and what a transfer does.
//! - [`pool`]: the pool's state, its rate arithmetic and its initialization.
//! - [`swap`]: buying and selling, with the laws that both obey.
//! - [`error`]: the kinds of rejection.
//! - [`counter`]: a counter that is stepped up or down by one.

pub mod address;
pub mod authority;
pub mod counter;
pub mod custody;
pub mod error;
pub mod pool;
pub mod swap;
