use vstd::prelude::*;
use crate::constants::{MAX_COORDINATE, MAX_POKEMON_SLOTS};
use crate::errors::GameError;
use crate::events::PokemonRelocated;
use crate::slots::moved_slot;
use crate::state::{game_wf, GameConfig, PokemonSlots, Pubkey};

verus! {

/// Why the admin `signer` may not move the creature of `slot_index` to `(x, y)`, if it may not.
pub open spec fn reposition_error(config: GameConfig, slots: PokemonSlots, signer: Pubkey, slot_index: u8, x: u16, y: u16) -> Option<GameError> {
    if config.admin_error(signer) is Some {
        config.admin_error(signer)
    } else if slot_index >= MAX_POKEMON_SLOTS {
        Some(GameError::InvalidSlotIndex)
    } else if x > MAX_COORDINATE || y > MAX_COORDINATE {
        Some(GameError::InvalidCoordinate)
    } else if !slots.slots@[slot_index as int].is_active {
        Some(GameError::SlotNotActive)
    } else {
        None
    }
}

/// Moves an active creature and gives it a fresh attempt budget.
pub fn handler(game_config: &GameConfig, pokemon_slots: &mut PokemonSlots, signer: Pubkey, slot_index: u8, new_pos_x: u16, new_pos_y: u16) -> (r: Result<PokemonRelocated, GameError>)
    requires
        game_wf(*game_config, *old(pokemon_slots)),
    ensures
        game_wf(*game_config, *final(pokemon_slots)),
        r is Err <==> reposition_error(*game_config, *old(pokemon_slots), signer, slot_index, new_pos_x, new_pos_y) is Some,
        r matches Err(e) ==> reposition_error(*game_config, *old(pokemon_slots), signer, slot_index, new_pos_x, new_pos_y) == Some(e),
        r is Err ==> *final(pokemon_slots) == *old(pokemon_slots),
        r is Ok ==> {
            let s = old(pokemon_slots).slots@[slot_index as int];
            &&& r == Ok::<PokemonRelocated, GameError>((PokemonRelocated {
                pokemon_id: s.pokemon_id,
                slot_index,
                old_x: s.pos_x,
                old_y: s.pos_y,
                new_x: new_pos_x,
                new_y: new_pos_y,
            }))
            &&& final(pokemon_slots).slots@ == old(pokemon_slots).slots@.update(slot_index as int, moved_slot(s, new_pos_x, new_pos_y))
            &&& final(pokemon_slots).active_count == old(pokemon_slots).active_count
        },
        final(pokemon_slots).bump == old(pokemon_slots).bump,
{
    game_config.check_admin(&signer)?;
    let slot_idx = slot_index as usize;
    if slot_idx >= MAX_POKEMON_SLOTS {
        return Err(GameError::InvalidSlotIndex);
    }
    if new_pos_x > MAX_COORDINATE || new_pos_y > MAX_COORDINATE {
        return Err(GameError::InvalidCoordinate);
    }
    let s = pokemon_slots.slots[slot_idx];
    if !s.is_active {
        return Err(GameError::SlotNotActive);
    }
    pokemon_slots.move_to(slot_idx, new_pos_x, new_pos_y);
    Ok(PokemonRelocated {
        pokemon_id: s.pokemon_id,
        slot_index,
        old_x: s.pos_x,
        old_y: s.pos_y,
        new_x: new_pos_x,
        new_y: new_pos_y,
    })
}

} // verus!
