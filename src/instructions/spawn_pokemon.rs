use vstd::prelude::*;
use crate::constants::{MAX_POKEMON_SLOTS, VRF_TYPE_SPAWN};
use crate::errors::GameError;
use crate::state::{game_wf, GameConfig, PokemonSlots, Pubkey, VrfRequest};

verus! {

/// The seed of request number `counter` of kind `request_type`: the counter in
/// little-endian order, the kind, zeros, and the tag `pkblgame`.
pub open spec fn vrf_seed_of(counter: u64, request_type: u8) -> Seq<u8> {
    Seq::new(32, |i: int|
        if i < 8 {
            ((counter >> (8 * i) as u64) & 0xff) as u8
        } else if i == 8 {
            request_type
        } else if i < 24 {
            0u8
        } else {
            seq![0x70u8, 0x6bu8, 0x62u8, 0x6cu8, 0x67u8, 0x61u8, 0x6du8, 0x65u8][i - 24]
        })
}

/// Distinct request numbers or kinds give distinct seeds, so each request
/// addresses its own oracle record.
pub proof fn lemma_vrf_seed_unique(c1: u64, t1: u8, c2: u64, t2: u8)
    requires
        vrf_seed_of(c1, t1) == vrf_seed_of(c2, t2),
    ensures
        c1 == c2,
        t1 == t2,
{
    let s1 = vrf_seed_of(c1, t1);
    let s2 = vrf_seed_of(c2, t2);
    assert(s1[0] == s2[0] && s1[1] == s2[1] && s1[2] == s2[2] && s1[3] == s2[3]);
    assert(s1[4] == s2[4] && s1[5] == s2[5] && s1[6] == s2[6] && s1[7] == s2[7]);
    assert(s1[8] == s2[8]);
    assert(c1 == c2) by (bit_vector)
        requires
            ((c1 >> 0u64) & 0xff) as u8 == ((c2 >> 0u64) & 0xff) as u8,
            ((c1 >> 8u64) & 0xff) as u8 == ((c2 >> 8u64) & 0xff) as u8,
            ((c1 >> 16u64) & 0xff) as u8 == ((c2 >> 16u64) & 0xff) as u8,
            ((c1 >> 24u64) & 0xff) as u8 == ((c2 >> 24u64) & 0xff) as u8,
            ((c1 >> 32u64) & 0xff) as u8 == ((c2 >> 32u64) & 0xff) as u8,
            ((c1 >> 40u64) & 0xff) as u8 == ((c2 >> 40u64) & 0xff) as u8,
            ((c1 >> 48u64) & 0xff) as u8 == ((c2 >> 48u64) & 0xff) as u8,
            ((c1 >> 56u64) & 0xff) as u8 == ((c2 >> 56u64) & 0xff) as u8,
    ;
}

/// Builds the unique seed of randomness request number `counter`.
pub fn make_vrf_seed(counter: u64, request_type: u8) -> (seed: [u8; 32])
    ensures
        seed@ == vrf_seed_of(counter, request_type),
{
    let mut seed = [0u8; 32];
    let tag: [u8; 8] = [0x70, 0x6b, 0x62, 0x6c, 0x67, 0x61, 0x6d, 0x65];
    let mut i: usize = 0;
    while i < 8
        invariant
            i <= 8,
            forall|j: int| 0 <= j < i ==> seed@[j] == vrf_seed_of(counter, request_type)[j],
            forall|j: int| i <= j < 32 ==> seed@[j] == 0,
        decreases 8 - i,
    {
        seed[i] = ((counter >> (8 * i as u64)) & 0xff) as u8;
        i += 1;
    }
    seed[8] = request_type;
    let mut k: usize = 0;
    while k < 8
        invariant
            k <= 8,
            tag@ == seq![0x70u8, 0x6bu8, 0x62u8, 0x6cu8, 0x67u8, 0x61u8, 0x6du8, 0x65u8],
            forall|j: int| 0 <= j < 24 + k ==> seed@[j] == vrf_seed_of(counter, request_type)[j],
            forall|j: int| 24 + k <= j < 32 ==> seed@[j] == 0,
        decreases 8 - k,
    {
        seed[24 + k] = tag[k];
        k += 1;
    }
    assert(seed@ =~= vrf_seed_of(counter, request_type));
    seed
}

/// Why the admin `signer` may not ask for a spawn into `slot_index`, if it may not.
pub open spec fn spawn_request_error(config: GameConfig, slots: PokemonSlots, signer: Pubkey, slot_index: u8) -> Option<GameError> {
    if config.admin_error(signer) is Some {
        config.admin_error(signer)
    } else if slot_index >= MAX_POKEMON_SLOTS {
        Some(GameError::InvalidSlotIndex)
    } else if slots.slots@[slot_index as int].is_active {
        Some(GameError::SlotAlreadyOccupied)
    } else if slots.active_count >= config.max_active_pokemon {
        Some(GameError::MaxActivePokemonReached)
    } else if config.vrf_counter == u64::MAX {
        Some(GameError::MathOverflow)
    } else {
        None
    }
}

/// Asks for a creature in the empty slot `slot_index`: returns the request that
/// the randomness for it will resolve, with the seed of the current request
/// number, and moves the request counter on.
pub fn handler(game_config: &mut GameConfig, pokemon_slots: &PokemonSlots, signer: Pubkey, slot_index: u8, bump: u8) -> (r: Result<VrfRequest, GameError>)
    requires
        game_wf(*old(game_config), *pokemon_slots),
    ensures
        game_wf(*final(game_config), *pokemon_slots),
        r is Err <==> spawn_request_error(*old(game_config), *pokemon_slots, signer, slot_index) is Some,
        r matches Err(e) ==> spawn_request_error(*old(game_config), *pokemon_slots, signer, slot_index) == Some(e),
        r is Err ==> *final(game_config) == *old(game_config),
        r matches Ok(req) ==> {
            &&& req.request_type == VRF_TYPE_SPAWN
            &&& req.player == signer
            &&& req.slot_index == slot_index
            &&& req.ball_type == 0
            &&& req.seed@ == vrf_seed_of(old(game_config).vrf_counter, VRF_TYPE_SPAWN)
            &&& !req.is_fulfilled
            &&& req.bump == bump
        },
        r is Ok ==> *final(game_config) == (GameConfig { vrf_counter: (old(game_config).vrf_counter + 1) as u64, ..*old(game_config) }),
{
    game_config.check_admin(&signer)?;
    let slot_idx = slot_index as usize;
    if slot_idx >= MAX_POKEMON_SLOTS {
        return Err(GameError::InvalidSlotIndex);
    }
    if pokemon_slots.slots[slot_idx].is_active {
        return Err(GameError::SlotAlreadyOccupied);
    }
    if pokemon_slots.active_count >= game_config.max_active_pokemon {
        return Err(GameError::MaxActivePokemonReached);
    }
    let next = match game_config.vrf_counter.checked_add(1) {
        Some(n) => n,
        None => return Err(GameError::MathOverflow),
    };
    let seed = make_vrf_seed(game_config.vrf_counter, VRF_TYPE_SPAWN);
    game_config.vrf_counter = next;
    Ok(VrfRequest {
        request_type: VRF_TYPE_SPAWN,
        player: signer,
        slot_index,
        ball_type: 0,
        seed,
        is_fulfilled: false,
        bump,
    })
}

} // verus!
