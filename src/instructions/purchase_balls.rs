use vstd::prelude::*;
use crate::constants::{MAX_PURCHASE_AMOUNT, NUM_BALL_TYPES};
use crate::errors::GameError;
use crate::events::BallPurchased;
use crate::state::{zero_key, GameConfig, PlayerInventory, Pubkey};

verus! {

/// Cost of `quantity` balls of tier `ball_type`.
pub open spec fn purchase_cost(config: GameConfig, ball_type: u8, quantity: u32) -> int {
    config.ball_prices@[ball_type as int] * quantity
}

/// Why `player`, holding `balance` tokens, may not buy `quantity` balls of tier `ball_type`, if it may not.
pub open spec fn purchase_error(config: GameConfig, inventory: PlayerInventory, player: Pubkey, balance: u64, ball_type: u8, quantity: u32) -> Option<GameError> {
    let cost = purchase_cost(config, ball_type, quantity);
    if !config.is_initialized {
        Some(GameError::NotInitialized)
    } else if ball_type >= NUM_BALL_TYPES {
        Some(GameError::InvalidBallType)
    } else if quantity == 0 {
        Some(GameError::ZeroQuantity)
    } else if cost > u64::MAX {
        Some(GameError::MathOverflow)
    } else if cost > MAX_PURCHASE_AMOUNT {
        Some(GameError::PurchaseExceedsMax)
    } else if balance < cost {
        Some(GameError::InsufficientSolBalls)
    } else if inventory.player@ != zero_key() && inventory.player@ != player@ {
        Some(GameError::Unauthorized)
    } else if inventory.balls@[ball_type as int] + quantity > u32::MAX
        || inventory.total_purchased + quantity > u64::MAX
        || config.total_revenue + cost > u64::MAX {
        Some(GameError::MathOverflow)
    } else {
        None
    }
}

/// A player buys balls: the returned event carries the cost that the caller
/// moves from the player's token account to the game's.
pub fn handler(
    game_config: &mut GameConfig,
    player_inventory: &mut PlayerInventory,
    player: Pubkey,
    player_balance: u64,
    ball_type: u8,
    quantity: u32,
    inventory_bump: u8,
) -> (r: Result<BallPurchased, GameError>)
    requires
        old(game_config).wf(),
    ensures
        final(game_config).wf(),
        r is Err <==> purchase_error(*old(game_config), *old(player_inventory), player, player_balance, ball_type, quantity) is Some,
        r matches Err(e) ==> purchase_error(*old(game_config), *old(player_inventory), player, player_balance, ball_type, quantity) == Some(e),
        r is Err ==> *final(game_config) == *old(game_config) && *final(player_inventory) == *old(player_inventory),
        r is Ok ==> {
            let cost = purchase_cost(*old(game_config), ball_type, quantity);
            let inv = *old(player_inventory);
            let fresh = inv.player@ == zero_key();
            &&& r == Ok::<BallPurchased, GameError>((BallPurchased { buyer: player, ball_type, quantity, total_cost: cost as u64 }))
            &&& *final(game_config) == (GameConfig { total_revenue: (old(game_config).total_revenue + cost) as u64, ..*old(game_config) })
            &&& final(player_inventory).balls@ == inv.balls@.update(ball_type as int, (inv.balls@[ball_type as int] + quantity) as u32)
            &&& final(player_inventory).player == if fresh { player } else { inv.player }
            &&& final(player_inventory).bump == if fresh { inventory_bump } else { inv.bump }
            &&& final(player_inventory).total_purchased == inv.total_purchased + quantity
            &&& final(player_inventory).total_throws == inv.total_throws
            &&& final(player_inventory).total_catches == inv.total_catches
        },
{
    if !game_config.is_initialized {
        return Err(GameError::NotInitialized);
    }
    let tier = ball_type as usize;
    if tier >= NUM_BALL_TYPES {
        return Err(GameError::InvalidBallType);
    }
    if quantity == 0 {
        return Err(GameError::ZeroQuantity);
    }
    let price = game_config.ball_prices[tier];
    assert(price as u128 * quantity as u128 <= 0xffff_ffff_ffff_ffff_u128 * 0xffff_ffff_u128) by (nonlinear_arith)
        requires
            price <= 0xffff_ffff_ffff_ffff_u64,
            quantity <= 0xffff_ffff_u32,
    ;
    let total = price as u128 * quantity as u128;
    if total > u64::MAX as u128 {
        return Err(GameError::MathOverflow);
    }
    let total_cost = total as u64;
    if total_cost > MAX_PURCHASE_AMOUNT {
        return Err(GameError::PurchaseExceedsMax);
    }
    if player_balance < total_cost {
        return Err(GameError::InsufficientSolBalls);
    }
    let fresh = player_inventory.player.is_zero();
    if !fresh && player_inventory.player != player {
        return Err(GameError::Unauthorized);
    }
    if player_inventory.balls[tier] as u64 + quantity as u64 > u32::MAX as u64
        || player_inventory.total_purchased as u128 + quantity as u128 > u64::MAX as u128
        || game_config.total_revenue as u128 + total_cost as u128 > u64::MAX as u128 {
        return Err(GameError::MathOverflow);
    }
    if fresh {
        player_inventory.player = player;
        player_inventory.bump = inventory_bump;
    }
    player_inventory.balls[tier] = player_inventory.balls[tier] + quantity;
    player_inventory.total_purchased = player_inventory.total_purchased + quantity as u64;
    game_config.total_revenue = game_config.total_revenue + total_cost;
    Ok(BallPurchased { buyer: player, ball_type, quantity, total_cost })
}

} // verus!
