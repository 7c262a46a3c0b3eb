use vstd::prelude::*;
use crate::constants::{MAX_POKEMON_SLOTS, NUM_BALL_TYPES, VRF_TYPE_THROW};
use crate::errors::GameError;
use crate::events::ThrowAttempted;
use crate::instructions::spawn_pokemon::{make_vrf_seed, vrf_seed_of};
use crate::state::{game_wf, GameConfig, PlayerInventory, PokemonSlots, Pubkey, VrfRequest};

verus! {

/// Why `player` may not throw a ball of tier `ball_type` at `slot_index`, if it may not.
pub open spec fn throw_error(config: GameConfig, slots: PokemonSlots, inventory: PlayerInventory, player: Pubkey, slot_index: u8, ball_type: u8) -> Option<GameError> {
    if !config.is_initialized {
        Some(GameError::NotInitialized)
    } else if slot_index >= MAX_POKEMON_SLOTS {
        Some(GameError::InvalidSlotIndex)
    } else if ball_type >= NUM_BALL_TYPES {
        Some(GameError::InvalidBallType)
    } else if !slots.slots@[slot_index as int].is_active {
        Some(GameError::SlotNotActive)
    } else if inventory.player@ != player@ {
        Some(GameError::Unauthorized)
    } else if inventory.balls@[ball_type as int] == 0 {
        Some(GameError::InsufficientBalls)
    } else if inventory.total_throws == u64::MAX || config.vrf_counter == u64::MAX {
        Some(GameError::MathOverflow)
    } else {
        None
    }
}

/// A player throws one ball at an active creature: the ball is used up, and the
/// returned request waits for the randomness that decides the catch.
pub fn handler(
    game_config: &mut GameConfig,
    pokemon_slots: &PokemonSlots,
    player_inventory: &mut PlayerInventory,
    player: Pubkey,
    slot_index: u8,
    ball_type: u8,
    bump: u8,
) -> (r: Result<(VrfRequest, ThrowAttempted), GameError>)
    requires
        game_wf(*old(game_config), *pokemon_slots),
    ensures
        game_wf(*final(game_config), *pokemon_slots),
        r is Err <==> throw_error(*old(game_config), *pokemon_slots, *old(player_inventory), player, slot_index, ball_type) is Some,
        r matches Err(e) ==> throw_error(*old(game_config), *pokemon_slots, *old(player_inventory), player, slot_index, ball_type) == Some(e),
        r is Err ==> *final(game_config) == *old(game_config) && *final(player_inventory) == *old(player_inventory),
        r matches Ok((req, ev)) ==> {
            let seed = vrf_seed_of(old(game_config).vrf_counter, VRF_TYPE_THROW);
            &&& req.request_type == VRF_TYPE_THROW
            &&& req.player == player
            &&& req.slot_index == slot_index
            &&& req.ball_type == ball_type
            &&& req.seed@ == seed
            &&& !req.is_fulfilled
            &&& req.bump == bump
            &&& ev.thrower == player
            &&& ev.pokemon_id == pokemon_slots.slots@[slot_index as int].pokemon_id
            &&& ev.ball_type == ball_type
            &&& ev.slot_index == slot_index
            &&& ev.vrf_seed@ == seed
        },
        r is Ok ==> *final(game_config) == (GameConfig { vrf_counter: (old(game_config).vrf_counter + 1) as u64, ..*old(game_config) }),
        r is Ok ==> final(player_inventory).balls@ == old(player_inventory).balls@.update(
            ball_type as int, (old(player_inventory).balls@[ball_type as int] - 1) as u32),
        r is Ok ==> *final(player_inventory) == (PlayerInventory {
            balls: final(player_inventory).balls,
            total_throws: (old(player_inventory).total_throws + 1) as u64,
            ..*old(player_inventory)
        }),
{
    if !game_config.is_initialized {
        return Err(GameError::NotInitialized);
    }
    let slot_idx = slot_index as usize;
    if slot_idx >= MAX_POKEMON_SLOTS {
        return Err(GameError::InvalidSlotIndex);
    }
    let tier = ball_type as usize;
    if tier >= NUM_BALL_TYPES {
        return Err(GameError::InvalidBallType);
    }
    if !pokemon_slots.slots[slot_idx].is_active {
        return Err(GameError::SlotNotActive);
    }
    if player_inventory.player != player {
        return Err(GameError::Unauthorized);
    }
    if player_inventory.balls[tier] == 0 {
        return Err(GameError::InsufficientBalls);
    }
    if player_inventory.total_throws == u64::MAX || game_config.vrf_counter == u64::MAX {
        return Err(GameError::MathOverflow);
    }
    let seed = make_vrf_seed(game_config.vrf_counter, VRF_TYPE_THROW);
    player_inventory.balls[tier] = player_inventory.balls[tier] - 1;
    player_inventory.total_throws = player_inventory.total_throws + 1;
    game_config.vrf_counter = game_config.vrf_counter + 1;
    let request = VrfRequest {
        request_type: VRF_TYPE_THROW,
        player,
        slot_index,
        ball_type,
        seed,
        is_fulfilled: false,
        bump,
    };
    let event = ThrowAttempted {
        thrower: player,
        pokemon_id: pokemon_slots.slots[slot_idx].pokemon_id,
        ball_type,
        slot_index,
        vrf_seed: seed,
    };
    Ok((request, event))
}

} // verus!
