use vstd::prelude::*;
use crate::constants::{MAX_POKEMON_SLOTS, MAX_THROW_ATTEMPTS, NUM_BALL_TYPES, VRF_TYPE_SPAWN, VRF_TYPE_THROW};
use crate::errors::GameError;
use crate::events::{CaughtPokemon, FailedCatch, NftAwarded, PokemonRelocated, PokemonSpawned};
use crate::oracle::{fulfilled_randomness, fulfilled_randomness_of};
use crate::randomness::{caught_of, is_caught, pool_index, pool_index_of, relocation_position_of, spawn_position, spawn_position_of};
use crate::slots::{missed_slot, spawned_slot};
use crate::state::{empty_slot, game_wf, zero_key, GameConfig, NftVault, PlayerInventory, PokemonSlots, Pubkey, VrfRequest};
use crate::vault::awarded;

verus! {

/// The records that resolving a request reads and writes.
#[derive(Clone, Copy, Debug, PartialEq, Eq)]
pub struct ConsumeRandomness {
    pub game_config: GameConfig,
    pub pokemon_slots: PokemonSlots,
    pub nft_vault: NftVault,
    pub vrf_request: VrfRequest,
    /// The thrower's inventory, when the caller supplied it.
    pub player_inventory: Option<PlayerInventory>,
    /// Key of the token program that holds the vault's collectibles.
    pub token_program: Pubkey,
}

impl ConsumeRandomness {
    pub open spec fn wf(&self) -> bool {
        game_wf(self.game_config, self.pokemon_slots) && self.nft_vault.wf()
    }
}

/// One of the accounts supplied for the custody transfer of an award.
/// They come in groups of three: the mint, the vault's token account for it,
/// and the winner's token account for it.
#[derive(Clone, Copy, Debug, PartialEq, Eq)]
pub struct TransferAccount {
    pub key: Pubkey,
    /// Program that owns the account.
    pub owner: Pubkey,
}

/// What resolving a request did.
#[derive(Clone, Copy, Debug, PartialEq, Eq)]
pub enum ConsumeOutcome {
    /// A creature appeared.
    Spawned(PokemonSpawned),
    /// The throw caught its creature. `award` is set when a collectible left the
    /// vault; `transfer_group` is the group of supplied accounts to move it with,
    /// and is `None` when none was supplied, so the award awaits reconciliation.
    Caught { caught: CaughtPokemon, award: Option<NftAwarded>, transfer_group: Option<usize> },
    /// The throw missed; `relocated` is set when the creature used up its attempts and fled.
    Missed { failed: FailedCatch, relocated: Option<PokemonRelocated> },
    /// The targeted slot was emptied before the randomness arrived; the throw is spent.
    TargetGone { slot_index: u8 },
}

/// The mint of supplied group `g`.
pub open spec fn group_mint(rem: Seq<TransferAccount>, g: int) -> Seq<u8> {
    rem[3 * g].key@
}

/// `g` is the first supplied group whose mint is `mint`.
pub open spec fn is_first_group(rem: Seq<TransferAccount>, mint: Seq<u8>, g: int) -> bool {
    &&& 0 <= g < rem.len() / 3
    &&& group_mint(rem, g) == mint
    &&& forall|h: int| 0 <= h < g ==> #[trigger] group_mint(rem, h) != mint
}

/// The transfer group for `mint`: none when no group names it; otherwise the
/// first group that does, whose two token accounts must belong to `token_program`.
pub open spec fn transfer_lookup(rem: Seq<TransferAccount>, mint: Seq<u8>, token_program: Pubkey) -> Result<Option<usize>, GameError> {
    if exists|g: int| is_first_group(rem, mint, g) {
        let g = choose|g: int| is_first_group(rem, mint, g);
        if rem[3 * g + 1].owner@ == token_program@ && rem[3 * g + 2].owner@ == token_program@ {
            Ok(Some(g as usize))
        } else {
            Err(GameError::NftTransferAccountsMissing)
        }
    } else {
        Ok(None)
    }
}

/// Finds the supplied accounts that move `mint` to the winner.
pub fn find_transfer_group(remaining: &Vec<TransferAccount>, mint: &Pubkey, token_program: &Pubkey) -> (r: Result<Option<usize>, GameError>)
    ensures
        r == transfer_lookup(remaining@, mint@, *token_program),
{
    let n = remaining.len();
    let groups = n / 3;
    let mut g: usize = 0;
    while g < groups
        invariant
            n == remaining@.len(),
            groups == n / 3,
            g <= groups,
            forall|h: int| 0 <= h < g ==> #[trigger] group_mint(remaining@, h) != mint@,
        decreases groups - g,
    {
        assert(3 * g + 2 < n) by (nonlinear_arith)
            requires
                g < groups,
                groups == n / 3,
        ;
        if remaining[3 * g].key == *mint {
            proof {
                assert(is_first_group(remaining@, mint@, g as int));
                let c = choose|c: int| is_first_group(remaining@, mint@, c);
                if c < g {
                    assert(group_mint(remaining@, c) != mint@);
                } else if c > g {
                    assert(group_mint(remaining@, g as int) != mint@);
                }
            }
            if remaining[3 * g + 1].owner == *token_program && remaining[3 * g + 2].owner == *token_program {
                return Ok(Some(g));
            }
            return Err(GameError::NftTransferAccountsMissing);
        }
        g += 1;
    }
    Ok(None)
}

/// `b` is `a` with the request marked fulfilled and only the listed records
/// allowed to differ.
pub open spec fn fulfilled_with(a: ConsumeRandomness, b: ConsumeRandomness, slots: PokemonSlots, vault: NftVault, inventory: Option<PlayerInventory>) -> bool {
    b == ConsumeRandomness {
        pokemon_slots: slots,
        nft_vault: vault,
        player_inventory: inventory,
        vrf_request: VrfRequest { is_fulfilled: true, ..a.vrf_request },
        ..a
    }
}

/// Resolution of a spawn request with randomness `r` at time `now`.
pub open spec fn spawn_post(a: ConsumeRandomness, b: ConsumeRandomness, r: Seq<u8>, now: i64, res: Result<ConsumeOutcome, GameError>) -> bool {
    let idx = a.vrf_request.slot_index as int;
    if idx >= MAX_POKEMON_SLOTS {
        res == Err::<ConsumeOutcome, GameError>(GameError::InvalidSlotIndex) && b == a
    } else if a.game_config.pokemon_id_counter == u64::MAX {
        res == Err::<ConsumeOutcome, GameError>(GameError::MathOverflow) && b == a
    } else {
        let id = (a.game_config.pokemon_id_counter + 1) as u64;
        let (x, y) = spawn_position_of(r);
        &&& res == Ok::<ConsumeOutcome, GameError>(ConsumeOutcome::Spawned(
            (PokemonSpawned { pokemon_id: id, slot_index: idx as u8, pos_x: x, pos_y: y })))
        &&& fulfilled_with(
            ConsumeRandomness { game_config: GameConfig { pokemon_id_counter: id, ..a.game_config }, ..a },
            b, b.pokemon_slots, a.nft_vault, a.player_inventory)
        &&& b.pokemon_slots.slots@ == a.pokemon_slots.slots@.update(idx, spawned_slot(id, x, y, now))
        &&& b.pokemon_slots.active_count == a.pokemon_slots.active_count
            + if a.pokemon_slots.slots@[idx].is_active { 0int } else { 1int }
        &&& b.pokemon_slots.bump == a.pokemon_slots.bump
    }
}

/// Resolution of a throw that caught an active creature.
pub open spec fn caught_post(a: ConsumeRandomness, b: ConsumeRandomness, r: Seq<u8>, rem: Seq<TransferAccount>, res: Result<ConsumeOutcome, GameError>) -> bool {
    let idx = a.vrf_request.slot_index as int;
    let s = a.pokemon_slots.slots@[idx];
    let v = a.nft_vault;
    let prize = if v.count > 0 { Some(v.mints@[pool_index_of(r, v.count as nat) as int]) } else { None };
    let lookup = match prize {
        Some(m) => transfer_lookup(rem, m@, a.token_program),
        None => Ok(None),
    };
    if a.player_inventory matches Some(inv) && inv.total_catches == u64::MAX {
        res == Err::<ConsumeOutcome, GameError>(GameError::MathOverflow) && b == a
    } else if lookup is Err {
        res == Err::<ConsumeOutcome, GameError>(GameError::NftTransferAccountsMissing) && b == a
    } else {
        &&& fulfilled_with(a, b, b.pokemon_slots, b.nft_vault, b.player_inventory)
        &&& awarded(v, b.nft_vault, r, prize)
        &&& b.pokemon_slots.slots@ == a.pokemon_slots.slots@.update(idx, empty_slot())
        &&& b.pokemon_slots.active_count == a.pokemon_slots.active_count - 1
        &&& b.pokemon_slots.bump == a.pokemon_slots.bump
        &&& b.player_inventory == match a.player_inventory {
            Some(inv) => Some(PlayerInventory { total_catches: (inv.total_catches + 1) as u64, ..inv }),
            None => None,
        }
        &&& res matches Ok(ConsumeOutcome::Caught { caught, award, transfer_group }) && {
            &&& caught.catcher == a.vrf_request.player
            &&& caught.pokemon_id == s.pokemon_id
            &&& caught.slot_index == idx as u8
            &&& caught.nft_mint@ == match prize { Some(m) => m@, None => zero_key() }
            &&& award == match prize {
                Some(m) => Some(NftAwarded { winner: a.vrf_request.player, nft_mint: m, vault_remaining: b.nft_vault.count }),
                None => None,
            }
            &&& lookup == Ok::<Option<usize>, GameError>(transfer_group)
        }
    }
}

/// Resolution of a throw that missed an active creature.
pub open spec fn missed_post(a: ConsumeRandomness, b: ConsumeRandomness, r: Seq<u8>, res: Result<ConsumeOutcome, GameError>) -> bool {
    let idx = a.vrf_request.slot_index as int;
    let s = a.pokemon_slots.slots@[idx];
    let fled = s.throw_attempts + 1 >= MAX_THROW_ATTEMPTS;
    let (nx, ny) = relocation_position_of(r);
    &&& fulfilled_with(a, b, b.pokemon_slots, a.nft_vault, a.player_inventory)
    &&& b.pokemon_slots.slots@ == a.pokemon_slots.slots@.update(idx, missed_slot(s, r))
    &&& b.pokemon_slots.active_count == a.pokemon_slots.active_count
    &&& b.pokemon_slots.bump == a.pokemon_slots.bump
    &&& res == Ok::<ConsumeOutcome, GameError>(ConsumeOutcome::Missed {
        failed: FailedCatch {
            thrower: a.vrf_request.player,
            pokemon_id: s.pokemon_id,
            slot_index: idx as u8,
            attempts_remaining: if fled { MAX_THROW_ATTEMPTS } else { (MAX_THROW_ATTEMPTS - (s.throw_attempts + 1)) as u8 },
        },
        relocated: if fled {
            Some(PokemonRelocated { pokemon_id: s.pokemon_id, slot_index: idx as u8, old_x: s.pos_x, old_y: s.pos_y, new_x: nx, new_y: ny })
        } else {
            None
        },
    })
}

/// Resolution of a throw request with randomness `r`.
pub open spec fn throw_post(a: ConsumeRandomness, b: ConsumeRandomness, r: Seq<u8>, rem: Seq<TransferAccount>, res: Result<ConsumeOutcome, GameError>) -> bool {
    let idx = a.vrf_request.slot_index as int;
    let tier = a.vrf_request.ball_type as int;
    if idx >= MAX_POKEMON_SLOTS {
        res == Err::<ConsumeOutcome, GameError>(GameError::InvalidSlotIndex) && b == a
    } else if tier >= NUM_BALL_TYPES {
        res == Err::<ConsumeOutcome, GameError>(GameError::InvalidBallType) && b == a
    } else if !a.pokemon_slots.slots@[idx].is_active {
        res == Ok::<ConsumeOutcome, GameError>(ConsumeOutcome::TargetGone { slot_index: idx as u8 })
            && fulfilled_with(a, b, a.pokemon_slots, a.nft_vault, a.player_inventory)
    } else if caught_of(r, a.game_config.catch_rates@[tier]) {
        caught_post(a, b, r, rem, res)
    } else {
        missed_post(a, b, r, res)
    }
}

/// Resolution of the request of `a` with the 64 random bytes `r`: refused when
/// the request was already resolved, else dispatched on its kind.
pub open spec fn consume_fulfilled_post(a: ConsumeRandomness, b: ConsumeRandomness, r: Seq<u8>, rem: Seq<TransferAccount>, now: i64, res: Result<ConsumeOutcome, GameError>) -> bool {
    if a.vrf_request.is_fulfilled {
        res == Err::<ConsumeOutcome, GameError>(GameError::VrfAlreadyFulfilled) && b == a
    } else if a.vrf_request.request_type == VRF_TYPE_SPAWN {
        spawn_post(a, b, r, now, res)
    } else if a.vrf_request.request_type == VRF_TYPE_THROW {
        throw_post(a, b, r, rem, res)
    } else {
        res == Err::<ConsumeOutcome, GameError>(GameError::InvalidVrfRequestType) && b == a
    }
}

/// Resolution of the request of `a` against the oracle account data `data`.
pub open spec fn consume_post(a: ConsumeRandomness, b: ConsumeRandomness, data: Seq<u8>, rem: Seq<TransferAccount>, now: i64, res: Result<ConsumeOutcome, GameError>) -> bool {
    if a.vrf_request.is_fulfilled {
        res == Err::<ConsumeOutcome, GameError>(GameError::VrfAlreadyFulfilled) && b == a
    } else {
        match fulfilled_randomness_of(data) {
            None => res == Err::<ConsumeOutcome, GameError>(GameError::VrfNotFulfilled) && b == a,
            Some(r) => consume_fulfilled_post(a, b, r, rem, now, res),
        }
    }
}

fn handle_spawn(accts: &mut ConsumeRandomness, r: &[u8; 64], now: i64) -> (res: Result<ConsumeOutcome, GameError>)
    requires
        old(accts).wf(),
        !old(accts).vrf_request.is_fulfilled,
    ensures
        final(accts).wf(),
        spawn_post(*old(accts), *final(accts), r@, now, res),
{
    let slot_index = accts.vrf_request.slot_index;
    let slot_idx = slot_index as usize;
    if slot_idx >= MAX_POKEMON_SLOTS {
        return Err(GameError::InvalidSlotIndex);
    }
    let pokemon_id = match accts.game_config.pokemon_id_counter.checked_add(1) {
        Some(n) => n,
        None => return Err(GameError::MathOverflow),
    };
    let (pos_x, pos_y) = spawn_position(r);
    accts.game_config.pokemon_id_counter = pokemon_id;
    accts.pokemon_slots.place(slot_idx, pokemon_id, pos_x, pos_y, now);
    accts.vrf_request.is_fulfilled = true;
    Ok(ConsumeOutcome::Spawned(PokemonSpawned { pokemon_id, slot_index, pos_x, pos_y }))
}

fn handle_throw(accts: &mut ConsumeRandomness, r: &[u8; 64], remaining: &Vec<TransferAccount>) -> (res: Result<ConsumeOutcome, GameError>)
    requires
        old(accts).wf(),
        !old(accts).vrf_request.is_fulfilled,
    ensures
        final(accts).wf(),
        throw_post(*old(accts), *final(accts), r@, remaining@, res),
{
    let slot_index = accts.vrf_request.slot_index;
    let slot_idx = slot_index as usize;
    if slot_idx >= MAX_POKEMON_SLOTS {
        return Err(GameError::InvalidSlotIndex);
    }
    let tier = accts.vrf_request.ball_type as usize;
    if tier >= NUM_BALL_TYPES {
        return Err(GameError::InvalidBallType);
    }
    let slot = accts.pokemon_slots.slots[slot_idx];
    if !slot.is_active {
        accts.vrf_request.is_fulfilled = true;
        return Ok(ConsumeOutcome::TargetGone { slot_index });
    }
    let player = accts.vrf_request.player;
    let catch_rate = accts.game_config.catch_rates[tier];
    if is_caught(r, catch_rate) {
        if let Some(inv) = &accts.player_inventory {
            if inv.total_catches == u64::MAX {
                return Err(GameError::MathOverflow);
            }
        }
        // Everything that can refuse the catch is checked before the vault changes.
        let mut transfer_group: Option<usize> = None;
        if accts.nft_vault.count > 0 {
            let idx = pool_index(r, accts.nft_vault.count);
            let mint = accts.nft_vault.mints[idx];
            transfer_group = find_transfer_group(remaining, &mint, &accts.token_program)?;
        }
        // The collectible leaves the vault before any custody transfer is tried.
        let prize = accts.nft_vault.award(r);
        let award = match prize {
            Some(m) => Some(NftAwarded { winner: player, nft_mint: m, vault_remaining: accts.nft_vault.count }),
            None => None,
        };
        let nft_mint = match prize {
            Some(m) => m,
            None => Pubkey::default(),
        };
        if let Some(inv) = &mut accts.player_inventory {
            inv.total_catches = inv.total_catches + 1;
        }
        accts.pokemon_slots.clear(slot_idx);
        accts.vrf_request.is_fulfilled = true;
        let caught = CaughtPokemon { catcher: player, pokemon_id: slot.pokemon_id, slot_index, nft_mint };
        Ok(ConsumeOutcome::Caught { caught, award, transfer_group })
    } else {
        let fled = accts.pokemon_slots.record_miss(slot_idx, r);
        accts.vrf_request.is_fulfilled = true;
        let after = accts.pokemon_slots.slots[slot_idx];
        let failed = FailedCatch {
            thrower: player,
            pokemon_id: slot.pokemon_id,
            slot_index,
            attempts_remaining: if fled { MAX_THROW_ATTEMPTS } else { MAX_THROW_ATTEMPTS - after.throw_attempts },
        };
        let relocated = if fled {
            Some(PokemonRelocated {
                pokemon_id: slot.pokemon_id,
                slot_index,
                old_x: slot.pos_x,
                old_y: slot.pos_y,
                new_x: after.pos_x,
                new_y: after.pos_y,
            })
        } else {
            None
        };
        Ok(ConsumeOutcome::Missed { failed, relocated })
    }
}

/// Resolves the request of `accts` with the 64 random bytes `r` that the oracle
/// published for it. A request already resolved is refused before anything
/// changes; otherwise the request is resolved by its kind and marked fulfilled.
pub fn consume_fulfilled(accts: &mut ConsumeRandomness, r: &[u8; 64], remaining: &Vec<TransferAccount>, now: i64) -> (res: Result<ConsumeOutcome, GameError>)
    requires
        old(accts).wf(),
    ensures
        final(accts).wf(),
        consume_fulfilled_post(*old(accts), *final(accts), r@, remaining@, now, res),
{
    if accts.vrf_request.is_fulfilled {
        return Err(GameError::VrfAlreadyFulfilled);
    }
    let kind = accts.vrf_request.request_type;
    if kind == VRF_TYPE_SPAWN {
        handle_spawn(accts, r, now)
    } else if kind == VRF_TYPE_THROW {
        handle_throw(accts, r, remaining)
    } else {
        Err(GameError::InvalidVrfRequestType)
    }
}

/// Resolves the request of `accts` once the oracle account, whose raw data is
/// `randomness_account`, holds its randomness. Anyone may call it; it succeeds
/// at most once per request.
pub fn handler(accts: &mut ConsumeRandomness, randomness_account: &[u8], remaining: &Vec<TransferAccount>, now: i64) -> (res: Result<ConsumeOutcome, GameError>)
    requires
        old(accts).wf(),
    ensures
        final(accts).wf(),
        consume_post(*old(accts), *final(accts), randomness_account@, remaining@, now, res),
{
    if accts.vrf_request.is_fulfilled {
        return Err(GameError::VrfAlreadyFulfilled);
    }
    let randomness = match fulfilled_randomness(randomness_account) {
        Some(b) => b,
        None => return Err(GameError::VrfNotFulfilled),
    };
    consume_fulfilled(accts, &randomness, remaining, now)
}

/// A request resolves at most once: after a successful resolution, every later
/// attempt on the same request, whatever oracle data and accounts it brings, is
/// refused with `VrfAlreadyFulfilled` and changes nothing.
pub proof fn lemma_consume_exactly_once(
    a0: ConsumeRandomness,
    a1: ConsumeRandomness,
    a2: ConsumeRandomness,
    data1: Seq<u8>,
    data2: Seq<u8>,
    rem1: Seq<TransferAccount>,
    rem2: Seq<TransferAccount>,
    now1: i64,
    now2: i64,
    res1: Result<ConsumeOutcome, GameError>,
    res2: Result<ConsumeOutcome, GameError>,
)
    requires
        consume_post(a0, a1, data1, rem1, now1, res1),
        res1 is Ok,
        consume_post(a1, a2, data2, rem2, now2, res2),
    ensures
        a1.vrf_request.is_fulfilled,
        res2 == Err::<ConsumeOutcome, GameError>(GameError::VrfAlreadyFulfilled),
        a2 == a1,
{
}

/// Two catches resolved one after the other against a vault that holds a single
/// collectible: the first takes it and empties the vault, the second is awarded
/// nothing, so exactly one award is reported.
pub proof fn lemma_single_collectible_one_award(
    a0: ConsumeRandomness,
    a1: ConsumeRandomness,
    second: ConsumeRandomness,
    a2: ConsumeRandomness,
    data1: Seq<u8>,
    data2: Seq<u8>,
    rem1: Seq<TransferAccount>,
    rem2: Seq<TransferAccount>,
    now1: i64,
    now2: i64,
    res1: Result<ConsumeOutcome, GameError>,
    res2: Result<ConsumeOutcome, GameError>,
)
    requires
        a0.wf(),
        a0.nft_vault.count == 1,
        consume_post(a0, a1, data1, rem1, now1, res1),
        res1 matches Ok(ConsumeOutcome::Caught { .. }),
        second == (ConsumeRandomness { vrf_request: second.vrf_request, player_inventory: second.player_inventory, ..a1 }),
        consume_post(second, a2, data2, rem2, now2, res2),
        res2 matches Ok(ConsumeOutcome::Caught { .. }),
    ensures
        res1 matches Ok(ConsumeOutcome::Caught { award, .. }) && award matches Some(w) && w.nft_mint == a0.nft_vault.mints@[0],
        res2 matches Ok(ConsumeOutcome::Caught { award, .. }) && award is None,
        a1.nft_vault.count == 0,
        a2.nft_vault.count == 0,
{
    let r1 = fulfilled_randomness_of(data1).unwrap();
    let r2 = fulfilled_randomness_of(data2).unwrap();
    assert(consume_fulfilled_post(a0, a1, r1, rem1, now1, res1));
    assert(throw_post(a0, a1, r1, rem1, res1));
    assert(caught_post(a0, a1, r1, rem1, res1));
    assert(pool_index_of(r1, 1) == 0);
    assert(consume_fulfilled_post(second, a2, r2, rem2, now2, res2));
    assert(throw_post(second, a2, r2, rem2, res2));
    assert(caught_post(second, a2, r2, rem2, res2));
}

} // verus!
