use vstd::prelude::*;

verus! {

/// Every way an instruction of the game can be refused.
#[derive(Clone, Copy, Debug, PartialEq, Eq, Structural)]
pub enum GameError {
    AlreadyInitialized,
    NotInitialized,
    InvalidBallType,
    InvalidCatchRate,
    InsufficientBalls,
    SlotNotActive,
    SlotAlreadyOccupied,
    InvalidSlotIndex,
    MaxAttemptsReached,
    InvalidCoordinate,
    MaxActivePokemonReached,
    InvalidMaxActivePokemon,
    VaultFull,
    VaultEmpty,
    InvalidNftIndex,
    NftNotInVault,
    InvalidNftMint,
    InsufficientSolBalls,
    ZeroQuantity,
    PurchaseExceedsMax,
    VrfAlreadyFulfilled,
    VrfNotFulfilled,
    InvalidVrfRequestType,
    InsufficientWithdrawalAmount,
    MathOverflow,
    ZeroBallPrice,
    Unauthorized,
    NftTransferAccountsMissing,
}

} // verus!
