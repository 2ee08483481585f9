use vstd::prelude::*;

verus! {

/// Stock of every resource kind when a ledger is created.
pub const BASE_RESOURCE_AMOUNT: i32 = 0;

/// Amount added per tick to every resource kind when a ledger is created.
pub const BASE_RESOURCE_PRODUCTION: i32 = 5;

/// Tower health of a player when the game starts.
pub const BASE_TOWER_HP: i32 = 100;

/// Walls health of a player when the game starts.
pub const BASE_WALLS_HP: i32 = 50;

} // verus!
