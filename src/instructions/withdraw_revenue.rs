use vstd::prelude::*;
use crate::errors::GameError;
use crate::events::RevenueWithdrawn;
use crate::state::{GameConfig, Pubkey, TreasuryConfig};

verus! {

/// Why the admin `signer` may not withdraw `amount` from a game account holding `balance`, if it may not.
pub open spec fn withdraw_revenue_error(config: GameConfig, treasury: TreasuryConfig, signer: Pubkey, balance: u64, amount: u64) -> Option<GameError> {
    if config.admin_error(signer) is Some {
        config.admin_error(signer)
    } else if amount == 0 || balance < amount {
        Some(GameError::InsufficientWithdrawalAmount)
    } else if treasury.total_withdrawn + amount > u64::MAX {
        Some(GameError::MathOverflow)
    } else {
        None
    }
}

/// Books a withdrawal of revenue to the admin; the caller moves the tokens.
pub fn handler(game_config: &GameConfig, treasury_config: &mut TreasuryConfig, signer: Pubkey, game_balance: u64, amount: u64) -> (r: Result<RevenueWithdrawn, GameError>)
    ensures
        r is Err <==> withdraw_revenue_error(*game_config, *old(treasury_config), signer, game_balance, amount) is Some,
        r matches Err(e) ==> withdraw_revenue_error(*game_config, *old(treasury_config), signer, game_balance, amount) == Some(e),
        r is Err ==> *final(treasury_config) == *old(treasury_config),
        r is Ok ==> {
            &&& r == Ok::<RevenueWithdrawn, GameError>((RevenueWithdrawn { recipient: signer, amount }))
            &&& *final(treasury_config) == (TreasuryConfig {
                total_withdrawn: (old(treasury_config).total_withdrawn + amount) as u64,
                ..*old(treasury_config)
            })
        },
{
    game_config.check_admin(&signer)?;
    if amount == 0 || game_balance < amount {
        return Err(GameError::InsufficientWithdrawalAmount);
    }
    let total_withdrawn = match treasury_config.total_withdrawn.checked_add(amount) {
        Some(t) => t,
        None => return Err(GameError::MathOverflow),
    };
    treasury_config.total_withdrawn = total_withdrawn;
    Ok(RevenueWithdrawn { recipient: signer, amount })
}

} // verus!
