use vstd::prelude::*;
use crate::constants::{MAX_POKEMON_SLOTS, NUM_BALL_TYPES};
use crate::errors::GameError;
use crate::events::{BallPriceUpdated, CatchRateUpdated, MaxActivePokemonUpdated};
use crate::state::{GameConfig, Pubkey};

verus! {

/// Sets the price of tier `ball_type`.
pub fn set_ball_price_handler(game_config: &mut GameConfig, signer: Pubkey, ball_type: u8, new_price: u64) -> (r: Result<BallPriceUpdated, GameError>)
    requires
        old(game_config).wf(),
    ensures
        final(game_config).wf(),
        old(game_config).admin_error(signer) matches Some(e) ==> r == Err::<BallPriceUpdated, GameError>(e),
        old(game_config).admin_error(signer) is None && ball_type >= 4 ==> r == Err::<BallPriceUpdated, GameError>(GameError::InvalidBallType),
        old(game_config).admin_error(signer) is None && ball_type < 4 && new_price == 0 ==> r == Err::<BallPriceUpdated, GameError>(GameError::ZeroBallPrice),
        r is Err ==> *final(game_config) == *old(game_config),
        r is Ok <==> (old(game_config).admin_error(signer) is None && ball_type < 4 && new_price > 0),
        r is Ok ==> r == Ok::<BallPriceUpdated, GameError>(
            (BallPriceUpdated { ball_type, old_price: old(game_config).ball_prices@[ball_type as int], new_price })),
        r is Ok ==> final(game_config).ball_prices@ == old(game_config).ball_prices@.update(ball_type as int, new_price),
        r is Ok ==> *final(game_config) == (GameConfig { ball_prices: final(game_config).ball_prices, ..*old(game_config) }),
{
    game_config.check_admin(&signer)?;
    if ball_type as usize >= NUM_BALL_TYPES {
        return Err(GameError::InvalidBallType);
    }
    if new_price == 0 {
        return Err(GameError::ZeroBallPrice);
    }
    let old_price = game_config.ball_prices[ball_type as usize];
    game_config.ball_prices[ball_type as usize] = new_price;
    Ok(BallPriceUpdated { ball_type, old_price, new_price })
}

/// Sets the catch probability, in percent, of tier `ball_type`.
pub fn set_catch_rate_handler(game_config: &mut GameConfig, signer: Pubkey, ball_type: u8, new_rate: u8) -> (r: Result<CatchRateUpdated, GameError>)
    requires
        old(game_config).wf(),
    ensures
        final(game_config).wf(),
        old(game_config).admin_error(signer) matches Some(e) ==> r == Err::<CatchRateUpdated, GameError>(e),
        old(game_config).admin_error(signer) is None && ball_type >= 4 ==> r == Err::<CatchRateUpdated, GameError>(GameError::InvalidBallType),
        old(game_config).admin_error(signer) is None && ball_type < 4 && new_rate > 100 ==> r == Err::<CatchRateUpdated, GameError>(GameError::InvalidCatchRate),
        r is Err ==> *final(game_config) == *old(game_config),
        r is Ok <==> (old(game_config).admin_error(signer) is None && ball_type < 4 && new_rate <= 100),
        r is Ok ==> r == Ok::<CatchRateUpdated, GameError>(
            (CatchRateUpdated { ball_type, old_rate: old(game_config).catch_rates@[ball_type as int], new_rate })),
        r is Ok ==> final(game_config).catch_rates@ == old(game_config).catch_rates@.update(ball_type as int, new_rate),
        r is Ok ==> *final(game_config) == (GameConfig { catch_rates: final(game_config).catch_rates, ..*old(game_config) }),
{
    game_config.check_admin(&signer)?;
    if ball_type as usize >= NUM_BALL_TYPES {
        return Err(GameError::InvalidBallType);
    }
    if new_rate > 100 {
        return Err(GameError::InvalidCatchRate);
    }
    let old_rate = game_config.catch_rates[ball_type as usize];
    game_config.catch_rates[ball_type as usize] = new_rate;
    Ok(CatchRateUpdated { ball_type, old_rate, new_rate })
}

/// Sets the soft cap on active creatures, which must lie in `1..=MAX_POKEMON_SLOTS`.
pub fn set_max_active_pokemon_handler(game_config: &mut GameConfig, signer: Pubkey, new_max: u8) -> (r: Result<MaxActivePokemonUpdated, GameError>)
    requires
        old(game_config).wf(),
    ensures
        final(game_config).wf(),
        old(game_config).admin_error(signer) matches Some(e) ==> r == Err::<MaxActivePokemonUpdated, GameError>(e),
        old(game_config).admin_error(signer) is None && !(1 <= new_max <= MAX_POKEMON_SLOTS) ==> r == Err::<MaxActivePokemonUpdated, GameError>(GameError::InvalidMaxActivePokemon),
        r is Err ==> *final(game_config) == *old(game_config),
        r is Ok <==> (old(game_config).admin_error(signer) is None && 1 <= new_max <= MAX_POKEMON_SLOTS),
        r is Ok ==> r == Ok::<MaxActivePokemonUpdated, GameError>(
            (MaxActivePokemonUpdated { old_max: old(game_config).max_active_pokemon, new_max })),
        r is Ok ==> *final(game_config) == (GameConfig { max_active_pokemon: new_max, ..*old(game_config) }),
{
    game_config.check_admin(&signer)?;
    if !(new_max >= 1 && new_max as usize <= MAX_POKEMON_SLOTS) {
        return Err(GameError::InvalidMaxActivePokemon);
    }
    let old_max = game_config.max_active_pokemon;
    game_config.max_active_pokemon = new_max;
    Ok(MaxActivePokemonUpdated { old_max, new_max })
}

} // verus!
