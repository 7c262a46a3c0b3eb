use vstd::prelude::*;
use crate::constants::MAX_POKEMON_SLOTS;
use crate::errors::GameError;
use crate::events::PokemonDespawned;
use crate::state::{empty_slot, game_wf, GameConfig, PokemonSlots, Pubkey};

verus! {

/// Why the admin `signer` may not remove the creature of `slot_index`, if it may not.
pub open spec fn despawn_error(config: GameConfig, slots: PokemonSlots, signer: Pubkey, slot_index: u8) -> Option<GameError> {
    if config.admin_error(signer) is Some {
        config.admin_error(signer)
    } else if slot_index >= MAX_POKEMON_SLOTS {
        Some(GameError::InvalidSlotIndex)
    } else if !slots.slots@[slot_index as int].is_active {
        Some(GameError::SlotNotActive)
    } else {
        None
    }
}

/// Removes an active creature and clears its slot.
pub fn handler(game_config: &GameConfig, pokemon_slots: &mut PokemonSlots, signer: Pubkey, slot_index: u8) -> (r: Result<PokemonDespawned, GameError>)
    requires
        game_wf(*game_config, *old(pokemon_slots)),
    ensures
        game_wf(*game_config, *final(pokemon_slots)),
        r is Err <==> despawn_error(*game_config, *old(pokemon_slots), signer, slot_index) is Some,
        r matches Err(e) ==> despawn_error(*game_config, *old(pokemon_slots), signer, slot_index) == Some(e),
        r is Err ==> *final(pokemon_slots) == *old(pokemon_slots),
        r is Ok ==> {
            &&& r == Ok::<PokemonDespawned, GameError>((PokemonDespawned {
                pokemon_id: old(pokemon_slots).slots@[slot_index as int].pokemon_id,
                slot_index,
            }))
            &&& final(pokemon_slots).slots@ == old(pokemon_slots).slots@.update(slot_index as int, empty_slot())
            &&& final(pokemon_slots).active_count == old(pokemon_slots).active_count - 1
        },
        final(pokemon_slots).bump == old(pokemon_slots).bump,
{
    game_config.check_admin(&signer)?;
    let slot_idx = slot_index as usize;
    if slot_idx >= MAX_POKEMON_SLOTS {
        return Err(GameError::InvalidSlotIndex);
    }
    if !pokemon_slots.slots[slot_idx].is_active {
        return Err(GameError::SlotNotActive);
    }
    let pokemon_id = pokemon_slots.slots[slot_idx].pokemon_id;
    pokemon_slots.clear(slot_idx);
    Ok(PokemonDespawned { pokemon_id, slot_index })
}

} // verus!
