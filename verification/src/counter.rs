//! A signed counter that is stepped up or down by one.

use vstd::prelude::*;
use crate::address::Address;

verus! {

/// The persisted counter record.
#[derive(Clone, Copy, Debug, PartialEq, Eq)]
pub struct Counter {
    pub count: i64,
}

/// The records that creating a counter works on.
#[derive(Clone, Copy, Debug, PartialEq, Eq)]
pub struct Initialize {
    pub counter: Counter,
    /// The caller, who pays for the record.
    pub user: Address,
}

/// The record that a step works on.
#[derive(Clone, Copy, Debug, PartialEq, Eq)]
pub struct MutAccount {
    pub counter: Counter,
}

/// Starts the counter at zero.
pub fn initialize(ctx: &mut Initialize)
    ensures
        *final(ctx) == (Initialize { counter: Counter { count: 0 }, user: old(ctx).user }),
{
    ctx.counter.count = 0;
}

/// Steps the counter up by one. A counter at `i64::MAX` cannot be stepped up.
pub fn increment(ctx: &mut MutAccount)
    requires
        old(ctx).counter.count < i64::MAX,
    ensures
        final(ctx).counter.count == old(ctx).counter.count + 1,
{
    ctx.counter.count = ctx.counter.count + 1;
}

/// Steps the counter down by one. A counter at `i64::MIN` cannot be stepped down.
pub fn decrement(ctx: &mut MutAccount)
    requires
        old(ctx).counter.count > i64::MIN,
    ensures
        final(ctx).counter.count == old(ctx).counter.count - 1,
{
    ctx.counter.count = ctx.counter.count - 1;
}

} // verus!
