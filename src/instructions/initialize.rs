use vstd::prelude::*;
use crate::constants::{MAX_POKEMON_SLOTS, MAX_VAULT_SIZE};
use crate::errors::GameError;
use crate::state::{empty_slot, game_wf, GameConfig, NftVault, PokemonSlots, Pubkey, TreasuryConfig};

verus! {

/// Account bumps of the records that initialization fills.
#[derive(Clone, Copy, Debug, PartialEq, Eq)]
pub struct InitBumps {
    pub game_config: u8,
    pub pokemon_slots: u8,
    pub nft_vault: u8,
    pub treasury_config: u8,
}

/// Why the game may not be set up with these parameters, if it may not.
pub open spec fn initialize_error(config: GameConfig, solballs_mint_account: Pubkey, solballs_mint: Pubkey, ball_prices: [u64; 4], catch_rates: [u8; 4]) -> Option<GameError> {
    if config.is_initialized {
        Some(GameError::AlreadyInitialized)
    } else if exists|i: int| 0 <= i < 4 && ball_prices@[i] == 0 {
        Some(GameError::ZeroBallPrice)
    } else if exists|i: int| 0 <= i < 4 && catch_rates@[i] > 100 {
        Some(GameError::InvalidCatchRate)
    } else if solballs_mint_account@ != solballs_mint@ {
        Some(GameError::Unauthorized)
    } else {
        None
    }
}

/// Sets the game up once: every price must be positive and every catch rate a
/// percentage. On any error nothing is written.
pub fn handler(
    game_config: &mut GameConfig,
    pokemon_slots: &mut PokemonSlots,
    nft_vault: &mut NftVault,
    treasury_config: &mut TreasuryConfig,
    authority: Pubkey,
    solballs_mint_account: Pubkey,
    treasury: Pubkey,
    solballs_mint: Pubkey,
    usdc_mint: Pubkey,
    ball_prices: [u64; 4],
    catch_rates: [u8; 4],
    bumps: InitBumps,
) -> (r: Result<(), GameError>)
    ensures
        r is Err <==> initialize_error(*old(game_config), solballs_mint_account, solballs_mint, ball_prices, catch_rates) is Some,
        r matches Err(e) ==> initialize_error(*old(game_config), solballs_mint_account, solballs_mint, ball_prices, catch_rates) == Some(e),
        r is Err ==> {
            &&& *final(game_config) == *old(game_config)
            &&& *final(pokemon_slots) == *old(pokemon_slots)
            &&& *final(nft_vault) == *old(nft_vault)
            &&& *final(treasury_config) == *old(treasury_config)
        },
        r is Ok ==> {
            &&& *final(game_config) == (GameConfig {
                authority,
                treasury,
                solballs_mint,
                usdc_mint,
                ball_prices,
                catch_rates,
                max_active_pokemon: MAX_POKEMON_SLOTS as u8,
                pokemon_id_counter: 0,
                total_revenue: 0,
                is_initialized: true,
                vrf_counter: 0,
                bump: bumps.game_config,
            })
            &&& game_wf(*final(game_config), *final(pokemon_slots))
            &&& forall|i: int| 0 <= i < 20 ==> (#[trigger] final(pokemon_slots).slots@[i]) == empty_slot()
            &&& final(pokemon_slots).active_count == 0
            &&& final(pokemon_slots).bump == bumps.pokemon_slots
            &&& final(nft_vault).wf()
            &&& final(nft_vault).count == 0
            &&& final(nft_vault).max_size == MAX_VAULT_SIZE
            &&& final(nft_vault).authority == authority
            &&& final(nft_vault).bump == bumps.nft_vault
            &&& *final(treasury_config) == (TreasuryConfig { treasury_wallet: treasury, total_withdrawn: 0, bump: bumps.treasury_config })
        },
{
    if game_config.is_initialized {
        return Err(GameError::AlreadyInitialized);
    }
    let mut i: usize = 0;
    while i < 4
        invariant
            i <= 4,
            !old(game_config).is_initialized,
            *game_config == *old(game_config),
            *pokemon_slots == *old(pokemon_slots),
            *nft_vault == *old(nft_vault),
            *treasury_config == *old(treasury_config),
            forall|j: int| 0 <= j < i ==> ball_prices@[j] > 0,
        decreases 4 - i,
    {
        if ball_prices[i] == 0 {
            assert(ball_prices@[i as int] == 0);
            return Err(GameError::ZeroBallPrice);
        }
        i += 1;
    }
    let mut k: usize = 0;
    while k < 4
        invariant
            k <= 4,
            !old(game_config).is_initialized,
            forall|j: int| 0 <= j < 4 ==> ball_prices@[j] > 0,
            *game_config == *old(game_config),
            *pokemon_slots == *old(pokemon_slots),
            *nft_vault == *old(nft_vault),
            *treasury_config == *old(treasury_config),
            forall|j: int| 0 <= j < k ==> catch_rates@[j] <= 100,
        decreases 4 - k,
    {
        if catch_rates[k] > 100 {
            assert(catch_rates@[k as int] > 100);
            return Err(GameError::InvalidCatchRate);
        }
        k += 1;
    }
    if solballs_mint_account != solballs_mint {
        return Err(GameError::Unauthorized);
    }
    *game_config = GameConfig {
        authority,
        treasury,
        solballs_mint,
        usdc_mint,
        ball_prices,
        catch_rates,
        max_active_pokemon: MAX_POKEMON_SLOTS as u8,
        pokemon_id_counter: 0,
        total_revenue: 0,
        is_initialized: true,
        vrf_counter: 0,
        bump: bumps.game_config,
    };
    *pokemon_slots = PokemonSlots::new(bumps.pokemon_slots);
    *nft_vault = NftVault::new(authority, bumps.nft_vault);
    *treasury_config = TreasuryConfig { treasury_wallet: treasury, total_withdrawn: 0, bump: bumps.treasury_config };
    Ok(())
}

} // verus!
