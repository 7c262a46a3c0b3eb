use vstd::prelude::*;
use crate::errors::GameError;
use crate::constants::{MAX_COORDINATE, MAX_POKEMON_SLOTS, MAX_THROW_ATTEMPTS, MAX_VAULT_SIZE};

verus! {

/// A 32-byte account address.
#[derive(Clone, Copy, Debug)]
pub struct Pubkey {
    pub bytes: [u8; 32],
}

/// The all-zero address, which marks an empty entry.
pub open spec fn zero_key() -> Seq<u8> {
    Seq::new(32, |i: int| 0u8)
}

impl View for Pubkey {
    type V = Seq<u8>;

    open spec fn view(&self) -> Seq<u8> {
        self.bytes@
    }
}

impl PartialEq for Pubkey {
    fn eq(&self, o: &Pubkey) -> (r: bool) {
        let mut i: usize = 0;
        while i < 32
            invariant
                0 <= i <= 32,
                forall|j: int| 0 <= j < i ==> self.bytes@[j] == o.bytes@[j],
            decreases 32 - i,
        {
            if self.bytes[i] != o.bytes[i] {
                return false;
            }
            i += 1;
        }
        assert(self.bytes@ =~= o.bytes@);
        true
    }
}

impl vstd::std_specs::cmp::PartialEqSpecImpl for Pubkey {
    open spec fn obeys_eq_spec() -> bool {
        true
    }

    open spec fn eq_spec(&self, o: &Pubkey) -> bool {
        self@ == o@
    }
}

impl Eq for Pubkey {}

impl Default for Pubkey {
    fn default() -> (r: Pubkey)
        ensures
            r@ == zero_key(),
    {
        let r = Pubkey { bytes: [0u8; 32] };
        assert(r@ =~= zero_key());
        r
    }
}

impl Pubkey {
    /// Builds an address from its 32 bytes.
    pub fn new_from_array(bytes: [u8; 32]) -> (r: Pubkey)
        ensures
            r@ == bytes@,
    {
        Pubkey { bytes }
    }

    /// Whether this is the all-zero (default) address.
    pub fn is_zero(&self) -> (r: bool)
        ensures
            r == (self@ == zero_key()),
    {
        let z = Pubkey::default();
        *self == z
    }
}

/// Global game configuration.
#[derive(Clone, Copy, Debug, PartialEq, Eq)]
pub struct GameConfig {
    /// Admin that manages spawns, prices and the vault.
    pub authority: Pubkey,
    /// Treasury wallet receiving a share of revenue.
    pub treasury: Pubkey,
    /// Mint of the token balls are paid in.
    pub solballs_mint: Pubkey,
    /// Mint of the stable token.
    pub usdc_mint: Pubkey,
    /// Price of one ball of each tier, in token atomic units.
    pub ball_prices: [u64; 4],
    /// Catch probability of each tier, in percent.
    pub catch_rates: [u8; 4],
    /// Soft cap on active creatures.
    pub max_active_pokemon: u8,
    /// Last creature id handed out.
    pub pokemon_id_counter: u64,
    /// Total tokens received from purchases.
    pub total_revenue: u64,
    pub is_initialized: bool,
    /// Sequence number of the next randomness request.
    pub vrf_counter: u64,
    pub bump: u8,
}

impl GameConfig {
    /// Once initialized: prices are positive, rates are percentages, and the cap
    /// fits the registry.
    pub open spec fn wf(&self) -> bool {
        self.is_initialized ==> {
            &&& forall|i: int| 0 <= i < 4 ==> self.ball_prices@[i] > 0
            &&& forall|i: int| 0 <= i < 4 ==> self.catch_rates@[i] <= 100
            &&& 1 <= self.max_active_pokemon <= MAX_POKEMON_SLOTS
        }
    }

    /// Why `signer` may not run an admin instruction, if it may not.
    pub open spec fn admin_error(&self, signer: Pubkey) -> Option<GameError> {
        if !self.is_initialized {
            Some(GameError::NotInitialized)
        } else if self.authority@ != signer@ {
            Some(GameError::Unauthorized)
        } else {
            None
        }
    }

    /// Refuses everyone but the admin of an initialized game.
    pub fn check_admin(&self, signer: &Pubkey) -> (r: Result<(), GameError>)
        ensures
            r is Ok <==> self.admin_error(*signer) is None,
            r matches Err(e) ==> self.admin_error(*signer) == Some(e),
    {
        if !self.is_initialized {
            return Err(GameError::NotInitialized);
        }
        if self.authority != *signer {
            return Err(GameError::Unauthorized);
        }
        Ok(())
    }
}

/// One position of the creature registry.
#[derive(Clone, Copy, Debug, PartialEq, Eq, Structural)]
pub struct PokemonSlot {
    pub is_active: bool,
    pub pokemon_id: u64,
    pub pos_x: u16,
    pub pos_y: u16,
    /// Misses against the current creature since it spawned or last moved.
    pub throw_attempts: u8,
    pub spawn_timestamp: i64,
}

/// The cleared slot.
pub open spec fn empty_slot() -> PokemonSlot {
    PokemonSlot { is_active: false, pokemon_id: 0, pos_x: 0, pos_y: 0, throw_attempts: 0, spawn_timestamp: 0 }
}

impl Default for PokemonSlot {
    fn default() -> (r: PokemonSlot)
        ensures
            r == empty_slot(),
    {
        PokemonSlot { is_active: false, pokemon_id: 0, pos_x: 0, pos_y: 0, throw_attempts: 0, spawn_timestamp: 0 }
    }
}

impl PokemonSlot {
    /// An active slot holds a creature with an id, on the map, with attempts left;
    /// an inactive slot is cleared.
    pub open spec fn wf(&self) -> bool {
        if self.is_active {
            &&& self.pokemon_id != 0
            &&& self.pos_x <= MAX_COORDINATE
            &&& self.pos_y <= MAX_COORDINATE
            &&& self.throw_attempts < MAX_THROW_ATTEMPTS
        } else {
            *self == empty_slot()
        }
    }
}

/// Number of active slots in a sequence of slots.
pub open spec fn active_total(s: Seq<PokemonSlot>) -> nat
    decreases s.len(),
{
    if s.len() == 0 {
        0
    } else {
        active_total(s.drop_last()) + if s.last().is_active { 1nat } else { 0nat }
    }
}

/// The fixed-capacity creature registry.
#[derive(Clone, Copy, Debug, PartialEq, Eq)]
pub struct PokemonSlots {
    pub slots: [PokemonSlot; 20],
    /// Number of active slots, kept alongside the slots.
    pub active_count: u8,
    pub bump: u8,
}

impl PokemonSlots {
    /// Every slot is well formed, `active_count` counts the active ones, and
    /// no two active slots share a creature id.
    pub open spec fn wf(&self) -> bool {
        &&& forall|i: int| 0 <= i < 20 ==> (#[trigger] self.slots@[i]).wf()
        &&& self.active_count == active_total(self.slots@)
        &&& forall|i: int, j: int|
            0 <= i < 20 && 0 <= j < 20 && i != j && (#[trigger] self.slots@[i]).is_active
                && (#[trigger] self.slots@[j]).is_active ==> self.slots@[i].pokemon_id
                != self.slots@[j].pokemon_id
    }

    /// Every active creature id was handed out by a counter now at `counter`.
    pub open spec fn ids_issued(&self, counter: u64) -> bool {
        forall|i: int| 0 <= i < 20 && (#[trigger] self.slots@[i]).is_active ==> self.slots@[i].pokemon_id <= counter
    }
}

/// The configuration and the registry agree: both are well formed and every
/// active creature id was handed out by the id counter.
pub open spec fn game_wf(config: GameConfig, slots: PokemonSlots) -> bool {
    &&& config.wf()
    &&& slots.wf()
    &&& slots.ids_issued(config.pokemon_id_counter)
}

/// A player's balls and lifetime counters.
#[derive(Clone, Copy, Debug, PartialEq, Eq)]
pub struct PlayerInventory {
    pub player: Pubkey,
    /// Balls held, per tier.
    pub balls: [u32; 4],
    pub total_purchased: u64,
    pub total_throws: u64,
    pub total_catches: u64,
    pub bump: u8,
}

/// The bounded pool of collectibles that catches award.
#[derive(Clone, Copy, Debug, PartialEq, Eq)]
pub struct NftVault {
    pub authority: Pubkey,
    /// Mints held; the first `count` entries are in use, the rest are zero.
    pub mints: [Pubkey; 20],
    pub count: u8,
    pub max_size: u8,
    pub bump: u8,
}

impl NftVault {
    /// The mints the vault holds, in storage order.
    pub open spec fn held(&self) -> Seq<Pubkey> {
        self.mints@.subrange(0, self.count as int)
    }

    /// Whether the vault holds a mint with these bytes.
    pub open spec fn holds(&self, mint: Seq<u8>) -> bool {
        exists|i: int| 0 <= i < self.count && (#[trigger] self.mints@[i])@ == mint
    }

    /// The first `count` entries are distinct non-zero mints and the rest are zero.
    pub open spec fn wf(&self) -> bool {
        &&& self.max_size <= MAX_VAULT_SIZE
        &&& self.count <= self.max_size
        &&& forall|i: int| 0 <= i < self.count ==> (#[trigger] self.mints@[i])@ != zero_key()
        &&& forall|i: int| self.count <= i < 20 ==> (#[trigger] self.mints@[i])@ == zero_key()
        &&& forall|i: int, j: int|
            0 <= i < self.count && 0 <= j < self.count && i != j ==> (#[trigger] self.mints@[i])@
                != (#[trigger] self.mints@[j])@
    }
}

/// Revenue bookkeeping.
#[derive(Clone, Copy, Debug, PartialEq, Eq)]
pub struct TreasuryConfig {
    pub treasury_wallet: Pubkey,
    pub total_withdrawn: u64,
    pub bump: u8,
}

/// One outstanding call for randomness.
#[derive(Clone, Copy, Debug, PartialEq, Eq)]
pub struct VrfRequest {
    /// `VRF_TYPE_SPAWN` or `VRF_TYPE_THROW`.
    pub request_type: u8,
    /// Thrower, or the admin for a spawn.
    pub player: Pubkey,
    pub slot_index: u8,
    /// Ball tier of a throw.
    pub ball_type: u8,
    /// Seed the oracle's randomness record is addressed by.
    pub seed: [u8; 32],
    pub is_fulfilled: bool,
    pub bump: u8,
}

} // verus!
