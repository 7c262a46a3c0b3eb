use vstd::prelude::*;
use crate::constants::{MAX_COORDINATE, MAX_POKEMON_SLOTS};
use crate::errors::GameError;
use crate::events::PokemonSpawned;
use crate::slots::spawned_slot;
use crate::state::{game_wf, GameConfig, PokemonSlots, Pubkey};

verus! {

/// Why the admin `signer` may not place a creature at `(pos_x, pos_y)` in `slot_index`, if it may not.
pub open spec fn force_spawn_error(config: GameConfig, slots: PokemonSlots, signer: Pubkey, slot_index: u8, pos_x: u16, pos_y: u16) -> Option<GameError> {
    if config.admin_error(signer) is Some {
        config.admin_error(signer)
    } else if slot_index >= MAX_POKEMON_SLOTS {
        Some(GameError::InvalidSlotIndex)
    } else if pos_x > MAX_COORDINATE || pos_y > MAX_COORDINATE {
        Some(GameError::InvalidCoordinate)
    } else if slots.slots@[slot_index as int].is_active {
        Some(GameError::SlotAlreadyOccupied)
    } else if slots.active_count >= config.max_active_pokemon {
        Some(GameError::MaxActivePokemonReached)
    } else if config.pokemon_id_counter == u64::MAX {
        Some(GameError::MathOverflow)
    } else {
        None
    }
}

/// Places a new creature at chosen coordinates, without randomness.
pub fn handler(game_config: &mut GameConfig, pokemon_slots: &mut PokemonSlots, signer: Pubkey, slot_index: u8, pos_x: u16, pos_y: u16, now: i64) -> (r: Result<PokemonSpawned, GameError>)
    requires
        game_wf(*old(game_config), *old(pokemon_slots)),
    ensures
        game_wf(*final(game_config), *final(pokemon_slots)),
        r is Err <==> force_spawn_error(*old(game_config), *old(pokemon_slots), signer, slot_index, pos_x, pos_y) is Some,
        r matches Err(e) ==> force_spawn_error(*old(game_config), *old(pokemon_slots), signer, slot_index, pos_x, pos_y) == Some(e),
        r is Err ==> *final(game_config) == *old(game_config) && *final(pokemon_slots) == *old(pokemon_slots),
        r is Ok ==> {
            let id = (old(game_config).pokemon_id_counter + 1) as u64;
            &&& r == Ok::<PokemonSpawned, GameError>((PokemonSpawned { pokemon_id: id, slot_index, pos_x, pos_y }))
            &&& *final(game_config) == (GameConfig { pokemon_id_counter: id, ..*old(game_config) })
            &&& final(pokemon_slots).slots@ == old(pokemon_slots).slots@.update(slot_index as int, spawned_slot(id, pos_x, pos_y, now))
            &&& final(pokemon_slots).active_count == old(pokemon_slots).active_count + 1
        },
        final(pokemon_slots).bump == old(pokemon_slots).bump,
{
    game_config.check_admin(&signer)?;
    let slot_idx = slot_index as usize;
    if slot_idx >= MAX_POKEMON_SLOTS {
        return Err(GameError::InvalidSlotIndex);
    }
    if pos_x > MAX_COORDINATE || pos_y > MAX_COORDINATE {
        return Err(GameError::InvalidCoordinate);
    }
    if pokemon_slots.slots[slot_idx].is_active {
        return Err(GameError::SlotAlreadyOccupied);
    }
    if pokemon_slots.active_count >= game_config.max_active_pokemon {
        return Err(GameError::MaxActivePokemonReached);
    }
    let pokemon_id = match game_config.pokemon_id_counter.checked_add(1) {
        Some(n) => n,
        None => return Err(GameError::MathOverflow),
    };
    game_config.pokemon_id_counter = pokemon_id;
    pokemon_slots.place(slot_idx, pokemon_id, pos_x, pos_y, now);
    Ok(PokemonSpawned { pokemon_id, slot_index, pos_x, pos_y })
}

} // verus!
