use vstd::prelude::*;
use crate::state::Pubkey;

verus! {

/// A player bought balls.
#[derive(Clone, Copy, Debug, PartialEq, Eq)]
pub struct BallPurchased {
    pub buyer: Pubkey,
    pub ball_type: u8,
    pub quantity: u32,
    pub total_cost: u64,
}

/// A player threw a ball; the outcome waits for randomness.
#[derive(Clone, Copy, Debug, PartialEq, Eq)]
pub struct ThrowAttempted {
    pub thrower: Pubkey,
    pub pokemon_id: u64,
    pub ball_type: u8,
    pub slot_index: u8,
    pub vrf_seed: [u8; 32],
}

/// A throw caught its creature.
#[derive(Clone, Copy, Debug, PartialEq, Eq)]
pub struct CaughtPokemon {
    pub catcher: Pubkey,
    pub pokemon_id: u64,
    pub slot_index: u8,
    /// The awarded collectible, or the default address when the vault was empty.
    pub nft_mint: Pubkey,
}

/// A throw missed.
#[derive(Clone, Copy, Debug, PartialEq, Eq)]
pub struct FailedCatch {
    pub thrower: Pubkey,
    pub pokemon_id: u64,
    pub slot_index: u8,
    pub attempts_remaining: u8,
}

/// A creature appeared in a slot.
#[derive(Clone, Copy, Debug, PartialEq, Eq)]
pub struct PokemonSpawned {
    pub pokemon_id: u64,
    pub slot_index: u8,
    pub pos_x: u16,
    pub pos_y: u16,
}

/// A creature moved, by fleeing or by an admin override.
#[derive(Clone, Copy, Debug, PartialEq, Eq)]
pub struct PokemonRelocated {
    pub pokemon_id: u64,
    pub slot_index: u8,
    pub old_x: u16,
    pub old_y: u16,
    pub new_x: u16,
    pub new_y: u16,
}

/// A creature was removed by the admin.
#[derive(Clone, Copy, Debug, PartialEq, Eq)]
pub struct PokemonDespawned {
    pub pokemon_id: u64,
    pub slot_index: u8,
}

/// A collectible left the vault for a winner.
#[derive(Clone, Copy, Debug, PartialEq, Eq)]
pub struct NftAwarded {
    pub winner: Pubkey,
    pub nft_mint: Pubkey,
    pub vault_remaining: u8,
}

/// A collectible entered the vault.
#[derive(Clone, Copy, Debug, PartialEq, Eq)]
pub struct NftDeposited {
    pub nft_mint: Pubkey,
    pub vault_count: u8,
}

/// A collectible was taken out of the vault by the admin.
#[derive(Clone, Copy, Debug, PartialEq, Eq)]
pub struct NftWithdrawn {
    pub nft_mint: Pubkey,
    pub vault_count: u8,
}

/// The price of a tier changed.
#[derive(Clone, Copy, Debug, PartialEq, Eq)]
pub struct BallPriceUpdated {
    pub ball_type: u8,
    pub old_price: u64,
    pub new_price: u64,
}

/// The catch rate of a tier changed.
#[derive(Clone, Copy, Debug, PartialEq, Eq)]
pub struct CatchRateUpdated {
    pub ball_type: u8,
    pub old_rate: u8,
    pub new_rate: u8,
}

/// The soft cap on active creatures changed.
#[derive(Clone, Copy, Debug, PartialEq, Eq)]
pub struct MaxActivePokemonUpdated {
    pub old_max: u8,
    pub new_max: u8,
}

/// Revenue left the game's token account.
#[derive(Clone, Copy, Debug, PartialEq, Eq)]
pub struct RevenueWithdrawn {
    pub recipient: Pubkey,
    pub amount: u64,
}

} // verus!
