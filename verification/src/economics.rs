//! Monetary units and durations in blocks.

use vstd::prelude::*;

verus! {

/// The smallest unit of balance.
pub const CENTS: u128 = 1;

pub const DOLLARS: u128 = 100 * CENTS;

/// The target time between two blocks, in seconds.
pub const SECS_PER_BLOCK: u32 = 6;

/// The number of blocks in a minute.
pub const MINUTES: u32 = 60 / SECS_PER_BLOCK;

/// The number of blocks in an hour.
pub const HOURS: u32 = MINUTES * 60;

/// The number of blocks in a day.
pub const DAYS: u32 = HOURS * 24;

/// The amount bonded by each initial authority, and granted to its stash.
pub const STASH: u128 = 50 * DOLLARS;

/// The amount granted to each endowed account.
pub const ENDOWMENT: u128 = 100_000_000 * DOLLARS;

/// The units in plain numbers: a dollar is a hundred cents, and the block
/// counts of a minute, an hour and a day span exactly that much time at six
/// seconds per block.
pub proof fn lemma_units()
    ensures
        DOLLARS == 100,
        STASH == 5_000,
        ENDOWMENT == 10_000_000_000,
        MINUTES == 10,
        HOURS == 600,
        DAYS == 14_400,
        MINUTES * SECS_PER_BLOCK == 60,
        HOURS * SECS_PER_BLOCK == 3_600,
        DAYS * SECS_PER_BLOCK == 86_400,
{
}

} // verus!
