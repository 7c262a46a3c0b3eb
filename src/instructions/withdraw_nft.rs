use vstd::prelude::*;
use crate::errors::GameError;
use crate::events::NftWithdrawn;
use crate::state::{GameConfig, NftVault, Pubkey};
use crate::vault::removed_at;

verus! {

/// Why the admin `signer` may not take entry `nft_index` out of the vault, if it may not.
pub open spec fn withdraw_nft_error(config: GameConfig, vault: NftVault, signer: Pubkey, nft_index: u8) -> Option<GameError> {
    if config.admin_error(signer) is Some {
        config.admin_error(signer)
    } else if nft_index >= vault.count {
        Some(GameError::InvalidNftIndex)
    } else {
        None
    }
}

/// Takes entry `nft_index` out of the vault for the admin.
pub fn handler(game_config: &GameConfig, nft_vault: &mut NftVault, signer: Pubkey, nft_index: u8) -> (r: Result<NftWithdrawn, GameError>)
    requires
        old(nft_vault).wf(),
    ensures
        final(nft_vault).wf(),
        r is Err <==> withdraw_nft_error(*game_config, *old(nft_vault), signer, nft_index) is Some,
        r matches Err(e) ==> withdraw_nft_error(*game_config, *old(nft_vault), signer, nft_index) == Some(e),
        r is Err ==> *final(nft_vault) == *old(nft_vault),
        r is Ok ==> {
            &&& removed_at(*old(nft_vault), *final(nft_vault), nft_index as int)
            &&& r == Ok::<NftWithdrawn, GameError>((NftWithdrawn {
                nft_mint: old(nft_vault).mints@[nft_index as int],
                vault_count: final(nft_vault).count,
            }))
        },
{
    game_config.check_admin(&signer)?;
    let nft_mint = nft_vault.remove(nft_index as usize)?;
    Ok(NftWithdrawn { nft_mint, vault_count: nft_vault.count })
}

} // verus!
