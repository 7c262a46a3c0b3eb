use vstd::prelude::*;
use crate::errors::GameError;
use crate::events::NftDeposited;
use crate::state::{zero_key, GameConfig, NftVault, Pubkey};

verus! {

/// Why the admin `signer` may not add `mint` to the vault, if it may not.
pub open spec fn deposit_error(config: GameConfig, vault: NftVault, signer: Pubkey, mint: Pubkey) -> Option<GameError> {
    if config.admin_error(signer) is Some {
        config.admin_error(signer)
    } else if vault.count >= vault.max_size {
        Some(GameError::VaultFull)
    } else if mint@ == zero_key() || vault.holds(mint@) {
        Some(GameError::InvalidNftMint)
    } else {
        None
    }
}

/// Records a collectible that the admin moved into the vault's custody.
pub fn handler(game_config: &GameConfig, nft_vault: &mut NftVault, signer: Pubkey, mint: Pubkey) -> (r: Result<NftDeposited, GameError>)
    requires
        old(nft_vault).wf(),
    ensures
        final(nft_vault).wf(),
        r is Err <==> deposit_error(*game_config, *old(nft_vault), signer, mint) is Some,
        r matches Err(e) ==> deposit_error(*game_config, *old(nft_vault), signer, mint) == Some(e),
        r is Err ==> *final(nft_vault) == *old(nft_vault),
        r is Ok ==> {
            &&& final(nft_vault).held() == old(nft_vault).held().push(mint)
            &&& final(nft_vault).count == old(nft_vault).count + 1
            &&& final(nft_vault).authority == old(nft_vault).authority
            &&& final(nft_vault).max_size == old(nft_vault).max_size
            &&& final(nft_vault).bump == old(nft_vault).bump
            &&& r == Ok::<NftDeposited, GameError>((NftDeposited { nft_mint: mint, vault_count: final(nft_vault).count }))
        },
{
    game_config.check_admin(&signer)?;
    nft_vault.deposit(mint)?;
    Ok(NftDeposited { nft_mint: mint, vault_count: nft_vault.count })
}

} // verus!
