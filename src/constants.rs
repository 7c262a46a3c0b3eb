use vstd::prelude::*;

verus! {

/// Hard cap on creatures alive at once: the number of slots in the registry.
pub const MAX_POKEMON_SLOTS: usize = 20;

/// Largest coordinate on either axis; positions lie in `0..=MAX_COORDINATE`.
pub const MAX_COORDINATE: u16 = 999;

/// Misses a creature tolerates before it flees to a new position.
pub const MAX_THROW_ATTEMPTS: u8 = 3;

/// Capacity of the collectible vault.
pub const MAX_VAULT_SIZE: u8 = 20;

/// Number of ball tiers (Poke, Great, Ultra, Master).
pub const NUM_BALL_TYPES: usize = 4;

/// Request kind: spawn a creature.
pub const VRF_TYPE_SPAWN: u8 = 0;

/// Request kind: throw a ball at a creature.
pub const VRF_TYPE_THROW: u8 = 1;

/// Largest cost, in token atomic units, of one purchase.
pub const MAX_PURCHASE_AMOUNT: u64 = 49_900_000;

} // verus!
