use pokeball_game::constants::{MAX_THROW_ATTEMPTS, VRF_TYPE_SPAWN, VRF_TYPE_THROW};
use pokeball_game::errors::GameError;
use pokeball_game::instructions::consume_randomness::{
    consume_fulfilled, find_transfer_group, ConsumeOutcome, ConsumeRandomness, TransferAccount,
};
use pokeball_game::instructions::initialize::InitBumps;
use pokeball_game::instructions::{
    admin, deposit_nft, despawn_pokemon, force_spawn_pokemon, initialize, purchase_balls,
    reposition_pokemon, spawn_pokemon, throw_ball, withdraw_nft, withdraw_revenue,
};
use pokeball_game::state::{
    GameConfig, NftVault, PlayerInventory, PokemonSlot, PokemonSlots, Pubkey, TreasuryConfig,
    VrfRequest,
};

fn key(b: u8) -> Pubkey {
    Pubkey::new_from_array([b; 32])
}

fn zero() -> Pubkey {
    Pubkey::default()
}

fn admin_key() -> Pubkey {
    key(1)
}

fn player_key() -> Pubkey {
    key(9)
}

fn token_program() -> Pubkey {
    key(77)
}

fn blank_config() -> GameConfig {
    GameConfig {
        authority: zero(),
        treasury: zero(),
        solballs_mint: zero(),
        usdc_mint: zero(),
        ball_prices: [0; 4],
        catch_rates: [0; 4],
        max_active_pokemon: 0,
        pokemon_id_counter: 0,
        total_revenue: 0,
        is_initialized: false,
        vrf_counter: 0,
        bump: 0,
    }
}

fn blank_slots() -> PokemonSlots {
    PokemonSlots { slots: [PokemonSlot::default(); 20], active_count: 0, bump: 0 }
}

fn blank_vault() -> NftVault {
    NftVault { authority: zero(), mints: [zero(); 20], count: 0, max_size: 0, bump: 0 }
}

fn blank_treasury() -> TreasuryConfig {
    TreasuryConfig { treasury_wallet: zero(), total_withdrawn: 0, bump: 0 }
}

fn bumps() -> InitBumps {
    InitBumps { game_config: 250, pokemon_slots: 251, nft_vault: 252, treasury_config: 253 }
}

fn setup() -> (GameConfig, PokemonSlots, NftVault, TreasuryConfig) {
    let (mut c, mut s, mut v, mut t) = (blank_config(), blank_slots(), blank_vault(), blank_treasury());
    initialize::handler(
        &mut c,
        &mut s,
        &mut v,
        &mut t,
        admin_key(),
        key(3),
        key(2),
        key(3),
        key(4),
        [1_000_000, 10_000_000, 25_000_000, 49_900_000],
        [2, 20, 50, 99],
        bumps(),
    )
    .unwrap();
    (c, s, v, t)
}

fn blank_inventory() -> PlayerInventory {
    PlayerInventory { player: zero(), balls: [0; 4], total_purchased: 0, total_throws: 0, total_catches: 0, bump: 0 }
}

/// A blob whose catch roll is `roll` and whose other bytes are `fill`.
fn blob_with_roll(roll: u8, fill: u8) -> [u8; 64] {
    let mut r = [fill; 64];
    r[..8].copy_from_slice(&(roll as u64).to_le_bytes());
    r
}

fn accounts(c: GameConfig, s: PokemonSlots, v: NftVault, req: VrfRequest, inv: Option<PlayerInventory>) -> ConsumeRandomness {
    ConsumeRandomness {
        game_config: c,
        pokemon_slots: s,
        nft_vault: v,
        vrf_request: req,
        player_inventory: inv,
        token_program: token_program(),
    }
}

/// A game with one creature in slot 2 and a player holding `balls` great balls.
fn game_with_creature(balls: u32) -> (GameConfig, PokemonSlots, NftVault, PlayerInventory) {
    let (mut c, mut s, v, _) = setup();
    force_spawn_pokemon::handler(&mut c, &mut s, admin_key(), 2, 100, 200, 1_700_000_000).unwrap();
    let mut inv = blank_inventory();
    purchase_balls::handler(&mut c, &mut inv, player_key(), u64::MAX, 1, balls, 5).unwrap();
    (c, s, v, inv)
}

#[test]
fn initialize_sets_up_game() {
    let (c, s, v, t) = setup();
    assert!(c.is_initialized);
    assert!(c.authority == admin_key());
    assert_eq!(c.ball_prices, [1_000_000, 10_000_000, 25_000_000, 49_900_000]);
    assert_eq!(c.catch_rates, [2, 20, 50, 99]);
    assert_eq!(c.max_active_pokemon, 20);
    assert_eq!(c.pokemon_id_counter, 0);
    assert_eq!(c.vrf_counter, 0);
    assert_eq!(c.bump, 250);
    assert_eq!(s.active_count, 0);
    assert_eq!(s.bump, 251);
    assert!(s.slots.iter().all(|x| *x == PokemonSlot::default()));
    assert_eq!(v.count, 0);
    assert_eq!(v.max_size, 20);
    assert!(v.authority == admin_key());
    assert!(t.treasury_wallet == key(2));
    assert_eq!(t.total_withdrawn, 0);
}

#[test]
fn initialize_rejects_zero_price() {
    let (mut c, mut s, mut v, mut t) = (blank_config(), blank_slots(), blank_vault(), blank_treasury());
    let r = initialize::handler(
        &mut c, &mut s, &mut v, &mut t, admin_key(), key(3), key(2), key(3), key(4),
        [0, 10_000_000, 25_000_000, 49_900_000], [2, 20, 50, 99], bumps(),
    );
    assert_eq!(r, Err(GameError::ZeroBallPrice));
    assert!(c == blank_config());
    assert!(s == blank_slots());
    assert!(v == blank_vault());
    assert!(t == blank_treasury());
}

#[test]
fn initialize_rejects_bad_rate_mint_and_second_call() {
    let (mut c, mut s, mut v, mut t) = (blank_config(), blank_slots(), blank_vault(), blank_treasury());
    let prices = [1, 2, 3, 4];
    let r = initialize::handler(&mut c, &mut s, &mut v, &mut t, admin_key(), key(3), key(2), key(3), key(4), prices, [2, 101, 50, 99], bumps());
    assert_eq!(r, Err(GameError::InvalidCatchRate));
    let r = initialize::handler(&mut c, &mut s, &mut v, &mut t, admin_key(), key(5), key(2), key(3), key(4), prices, [2, 20, 50, 99], bumps());
    assert_eq!(r, Err(GameError::Unauthorized));
    assert!(c == blank_config());
    let (mut c, mut s, mut v, mut t) = setup();
    let r = initialize::handler(&mut c, &mut s, &mut v, &mut t, admin_key(), key(3), key(2), key(3), key(4), prices, [2, 20, 50, 99], bumps());
    assert_eq!(r, Err(GameError::AlreadyInitialized));
}

#[test]
fn admin_updates_and_checks() {
    let (mut c, _, _, _) = setup();
    let ev = admin::set_ball_price_handler(&mut c, admin_key(), 2, 7).unwrap();
    assert_eq!((ev.ball_type, ev.old_price, ev.new_price), (2, 25_000_000, 7));
    assert_eq!(c.ball_prices, [1_000_000, 10_000_000, 7, 49_900_000]);
    assert_eq!(admin::set_ball_price_handler(&mut c, admin_key(), 4, 7), Err(GameError::InvalidBallType));
    assert_eq!(admin::set_ball_price_handler(&mut c, admin_key(), 0, 0), Err(GameError::ZeroBallPrice));
    assert_eq!(admin::set_ball_price_handler(&mut c, key(8), 0, 5), Err(GameError::Unauthorized));
    let ev = admin::set_catch_rate_handler(&mut c, admin_key(), 0, 100).unwrap();
    assert_eq!((ev.old_rate, ev.new_rate), (2, 100));
    assert_eq!(admin::set_catch_rate_handler(&mut c, admin_key(), 0, 101), Err(GameError::InvalidCatchRate));
    let ev = admin::set_max_active_pokemon_handler(&mut c, admin_key(), 5).unwrap();
    assert_eq!((ev.old_max, ev.new_max), (20, 5));
    assert_eq!(admin::set_max_active_pokemon_handler(&mut c, admin_key(), 0), Err(GameError::InvalidMaxActivePokemon));
    assert_eq!(admin::set_max_active_pokemon_handler(&mut c, admin_key(), 21), Err(GameError::InvalidMaxActivePokemon));
    let mut blank = blank_config();
    assert_eq!(admin::set_max_active_pokemon_handler(&mut blank, admin_key(), 3), Err(GameError::NotInitialized));
}

#[test]
fn purchase_books_balls_and_revenue() {
    let (mut c, _, _, _) = setup();
    let mut inv = blank_inventory();
    let ev = purchase_balls::handler(&mut c, &mut inv, player_key(), 100_000_000, 1, 3, 5).unwrap();
    assert_eq!(ev.total_cost, 30_000_000);
    assert_eq!(ev.quantity, 3);
    assert!(ev.buyer == player_key());
    assert!(inv.player == player_key());
    assert_eq!(inv.bump, 5);
    assert_eq!(inv.balls, [0, 3, 0, 0]);
    assert_eq!(inv.total_purchased, 3);
    assert_eq!(c.total_revenue, 30_000_000);
}

#[test]
fn purchase_errors() {
    let (mut c, _, _, _) = setup();
    let mut inv = blank_inventory();
    assert_eq!(purchase_balls::handler(&mut c, &mut inv, player_key(), u64::MAX, 4, 1, 5).map(|_| ()), Err(GameError::InvalidBallType));
    assert_eq!(purchase_balls::handler(&mut c, &mut inv, player_key(), u64::MAX, 0, 0, 5).map(|_| ()), Err(GameError::ZeroQuantity));
    assert_eq!(purchase_balls::handler(&mut c, &mut inv, player_key(), u64::MAX, 3, 2, 5).map(|_| ()), Err(GameError::PurchaseExceedsMax));
    assert_eq!(purchase_balls::handler(&mut c, &mut inv, player_key(), 999_999, 0, 1, 5).map(|_| ()), Err(GameError::InsufficientSolBalls));
    admin::set_ball_price_handler(&mut c, admin_key(), 0, u64::MAX).unwrap();
    assert_eq!(purchase_balls::handler(&mut c, &mut inv, player_key(), u64::MAX, 0, 2, 5).map(|_| ()), Err(GameError::MathOverflow));
    assert!(inv == blank_inventory());
    let mut other = blank_inventory();
    other.player = key(10);
    assert_eq!(purchase_balls::handler(&mut c, &mut other, player_key(), u64::MAX, 1, 1, 5).map(|_| ()), Err(GameError::Unauthorized));
    let mut blank = blank_config();
    assert_eq!(purchase_balls::handler(&mut blank, &mut inv, player_key(), u64::MAX, 1, 1, 5).map(|_| ()), Err(GameError::NotInitialized));
}

#[test]
fn spawn_request_records_seed_and_counter() {
    let (mut c, s, _, _) = setup();
    let req = spawn_pokemon::handler(&mut c, &s, admin_key(), 4, 9).unwrap();
    assert_eq!(req.request_type, VRF_TYPE_SPAWN);
    assert_eq!(req.slot_index, 4);
    assert!(!req.is_fulfilled);
    assert_eq!(req.seed, spawn_pokemon::make_vrf_seed(0, VRF_TYPE_SPAWN));
    assert_eq!(c.vrf_counter, 1);
    let req2 = spawn_pokemon::handler(&mut c, &s, admin_key(), 4, 9).unwrap();
    assert_ne!(req.seed, req2.seed);
    assert_eq!(spawn_pokemon::handler(&mut c, &s, admin_key(), 20, 9).map(|_| ()), Err(GameError::InvalidSlotIndex));
    assert_eq!(spawn_pokemon::handler(&mut c, &s, key(5), 1, 9).map(|_| ()), Err(GameError::Unauthorized));
}

#[test]
fn spawn_request_refused_when_occupied_or_capped() {
    let (mut c, mut s, _, _) = setup();
    force_spawn_pokemon::handler(&mut c, &mut s, admin_key(), 0, 1, 1, 0).unwrap();
    assert_eq!(spawn_pokemon::handler(&mut c, &s, admin_key(), 0, 9).map(|_| ()), Err(GameError::SlotAlreadyOccupied));
    admin::set_max_active_pokemon_handler(&mut c, admin_key(), 1).unwrap();
    assert_eq!(spawn_pokemon::handler(&mut c, &s, admin_key(), 1, 9).map(|_| ()), Err(GameError::MaxActivePokemonReached));
    assert_eq!(force_spawn_pokemon::handler(&mut c, &mut s, admin_key(), 1, 1, 1, 0).map(|_| ()), Err(GameError::MaxActivePokemonReached));
}

#[test]
fn force_spawn_reposition_despawn() {
    let (mut c, mut s, _, _) = setup();
    let ev = force_spawn_pokemon::handler(&mut c, &mut s, admin_key(), 3, 999, 0, 42).unwrap();
    assert_eq!((ev.pokemon_id, ev.slot_index, ev.pos_x, ev.pos_y), (1, 3, 999, 0));
    assert_eq!(s.active_count, 1);
    assert_eq!(s.slots[3], PokemonSlot { is_active: true, pokemon_id: 1, pos_x: 999, pos_y: 0, throw_attempts: 0, spawn_timestamp: 42 });
    assert_eq!(force_spawn_pokemon::handler(&mut c, &mut s, admin_key(), 4, 1000, 0, 42).map(|_| ()), Err(GameError::InvalidCoordinate));
    assert_eq!(force_spawn_pokemon::handler(&mut c, &mut s, admin_key(), 3, 1, 1, 42).map(|_| ()), Err(GameError::SlotAlreadyOccupied));
    let ev = reposition_pokemon::handler(&c, &mut s, admin_key(), 3, 5, 6).unwrap();
    assert_eq!((ev.old_x, ev.old_y, ev.new_x, ev.new_y), (999, 0, 5, 6));
    assert_eq!((s.slots[3].pos_x, s.slots[3].pos_y, s.slots[3].throw_attempts), (5, 6, 0));
    assert_eq!(reposition_pokemon::handler(&c, &mut s, admin_key(), 4, 5, 6).map(|_| ()), Err(GameError::SlotNotActive));
    assert_eq!(reposition_pokemon::handler(&c, &mut s, admin_key(), 3, 5, 1000).map(|_| ()), Err(GameError::InvalidCoordinate));
    let ev = despawn_pokemon::handler(&c, &mut s, admin_key(), 3).unwrap();
    assert_eq!((ev.pokemon_id, ev.slot_index), (1, 3));
    assert_eq!(s.active_count, 0);
    assert_eq!(s.slots[3], PokemonSlot::default());
    assert_eq!(despawn_pokemon::handler(&c, &mut s, admin_key(), 3).map(|_| ()), Err(GameError::SlotNotActive));
    assert_eq!(despawn_pokemon::handler(&c, &mut s, admin_key(), 25).map(|_| ()), Err(GameError::InvalidSlotIndex));
}

#[test]
fn throw_uses_a_ball_and_records_request() {
    let (mut c, s, _, mut inv) = game_with_creature(2);
    let (req, ev) = throw_ball::handler(&mut c, &s, &mut inv, player_key(), 2, 1, 3).unwrap();
    assert_eq!(req.request_type, VRF_TYPE_THROW);
    assert_eq!((req.slot_index, req.ball_type, req.bump), (2, 1, 3));
    assert!(req.player == player_key());
    assert_eq!(req.seed, spawn_pokemon::make_vrf_seed(0, VRF_TYPE_THROW));
    assert_eq!(ev.vrf_seed, req.seed);
    assert_eq!(ev.pokemon_id, 1);
    assert_eq!(inv.balls, [0, 1, 0, 0]);
    assert_eq!(inv.total_throws, 1);
    assert_eq!(c.vrf_counter, 1);
}

#[test]
fn throw_errors() {
    let (mut c, s, _, mut inv) = game_with_creature(1);
    assert_eq!(throw_ball::handler(&mut c, &s, &mut inv, player_key(), 20, 1, 3).map(|_| ()), Err(GameError::InvalidSlotIndex));
    assert_eq!(throw_ball::handler(&mut c, &s, &mut inv, player_key(), 2, 4, 3).map(|_| ()), Err(GameError::InvalidBallType));
    assert_eq!(throw_ball::handler(&mut c, &s, &mut inv, player_key(), 5, 1, 3).map(|_| ()), Err(GameError::SlotNotActive));
    assert_eq!(throw_ball::handler(&mut c, &s, &mut inv, key(10), 2, 1, 3).map(|_| ()), Err(GameError::Unauthorized));
    assert_eq!(throw_ball::handler(&mut c, &s, &mut inv, player_key(), 2, 0, 3).map(|_| ()), Err(GameError::InsufficientBalls));
    throw_ball::handler(&mut c, &s, &mut inv, player_key(), 2, 1, 3).unwrap();
    assert_eq!(throw_ball::handler(&mut c, &s, &mut inv, player_key(), 2, 1, 3).map(|_| ()), Err(GameError::InsufficientBalls));
}

#[test]
fn vault_handlers() {
    let (c, _, mut v, mut t) = setup();
    let ev = deposit_nft::handler(&c, &mut v, admin_key(), key(50)).unwrap();
    assert!(ev.nft_mint == key(50));
    assert_eq!(ev.vault_count, 1);
    assert_eq!(deposit_nft::handler(&c, &mut v, key(2), key(51)).map(|_| ()), Err(GameError::Unauthorized));
    assert_eq!(deposit_nft::handler(&c, &mut v, admin_key(), key(50)).map(|_| ()), Err(GameError::InvalidNftMint));
    assert_eq!(withdraw_nft::handler(&c, &mut v, admin_key(), 1).map(|_| ()), Err(GameError::InvalidNftIndex));
    let ev = withdraw_nft::handler(&c, &mut v, admin_key(), 0).unwrap();
    assert!(ev.nft_mint == key(50));
    assert_eq!(ev.vault_count, 0);
    assert_eq!(withdraw_revenue::handler(&c, &mut t, admin_key(), 10, 0).map(|_| ()), Err(GameError::InsufficientWithdrawalAmount));
    assert_eq!(withdraw_revenue::handler(&c, &mut t, admin_key(), 10, 11).map(|_| ()), Err(GameError::InsufficientWithdrawalAmount));
    let ev = withdraw_revenue::handler(&c, &mut t, admin_key(), 10, 10).unwrap();
    assert!(ev.recipient == admin_key());
    assert_eq!(ev.amount, 10);
    assert_eq!(t.total_withdrawn, 10);
    t.total_withdrawn = u64::MAX;
    assert_eq!(withdraw_revenue::handler(&c, &mut t, admin_key(), 10, 1).map(|_| ()), Err(GameError::MathOverflow));
}

#[test]
fn consume_spawn_places_creature() {
    let (mut c, s, v, _) = setup();
    let req = spawn_pokemon::handler(&mut c, &s, admin_key(), 6, 0).unwrap();
    let mut a = accounts(c, s, v, req, None);
    let mut r = [0u8; 64];
    r[0] = 0x39;
    r[1] = 0x05;
    r[2] = 0xff;
    r[3] = 0xff;
    let out = consume_fulfilled(&mut a, &r, &vec![], 77).unwrap();
    match out {
        ConsumeOutcome::Spawned(ev) => assert_eq!((ev.pokemon_id, ev.slot_index, ev.pos_x, ev.pos_y), (1, 6, 337, 535)),
        other => panic!("unexpected outcome {:?}", other),
    }
    assert!(a.vrf_request.is_fulfilled);
    assert_eq!(a.game_config.pokemon_id_counter, 1);
    assert_eq!(a.pokemon_slots.active_count, 1);
    assert_eq!(a.pokemon_slots.slots[6], PokemonSlot { is_active: true, pokemon_id: 1, pos_x: 337, pos_y: 535, throw_attempts: 0, spawn_timestamp: 77 });
}

#[test]
fn second_consume_is_refused() {
    let (mut c, s, v, mut inv) = game_with_creature(1);
    let (req, _) = throw_ball::handler(&mut c, &s, &mut inv, player_key(), 2, 1, 0).unwrap();
    let mut a = accounts(c, s, v, req, Some(inv));
    assert!(consume_fulfilled(&mut a, &blob_with_roll(50, 0), &vec![], 0).is_ok());
    let after_first = a;
    for roll in [0u8, 10, 99] {
        assert_eq!(consume_fulfilled(&mut a, &blob_with_roll(roll, 1), &vec![], 5), Err(GameError::VrfAlreadyFulfilled));
        assert!(a == after_first);
    }
}

#[test]
fn catch_awards_collectible_and_clears_slot() {
    let (mut c, s, mut v, mut inv) = game_with_creature(1);
    deposit_nft::handler(&c, &mut v, admin_key(), key(60)).unwrap();
    deposit_nft::handler(&c, &mut v, admin_key(), key(61)).unwrap();
    let (req, _) = throw_ball::handler(&mut c, &s, &mut inv, player_key(), 2, 1, 0).unwrap();
    let mut a = accounts(c, s, v, req, Some(inv));
    // Roll 5 < 20 catches; selection bytes all 1 pick index 0x0101010101010101 % 2 == 1.
    let r = blob_with_roll(5, 1);
    let remaining = vec![
        TransferAccount { key: key(60), owner: token_program() },
        TransferAccount { key: key(100), owner: token_program() },
        TransferAccount { key: key(101), owner: token_program() },
        TransferAccount { key: key(61), owner: token_program() },
        TransferAccount { key: key(102), owner: token_program() },
        TransferAccount { key: key(103), owner: token_program() },
    ];
    let out = consume_fulfilled(&mut a, &r, &remaining, 0).unwrap();
    match out {
        ConsumeOutcome::Caught { caught, award, transfer_group } => {
            assert!(caught.nft_mint == key(61));
            assert!(caught.catcher == player_key());
            assert_eq!(caught.pokemon_id, 1);
            let award = award.unwrap();
            assert!(award.nft_mint == key(61));
            assert_eq!(award.vault_remaining, 1);
            assert_eq!(transfer_group, Some(1));
        }
        other => panic!("unexpected outcome {:?}", other),
    }
    assert_eq!(a.nft_vault.count, 1);
    assert!(a.nft_vault.mints[0] == key(60));
    assert!(a.nft_vault.mints[1].is_zero());
    assert_eq!(a.pokemon_slots.active_count, 0);
    assert_eq!(a.pokemon_slots.slots[2], PokemonSlot::default());
    assert_eq!(a.player_inventory.unwrap().total_catches, 1);
    assert!(a.vrf_request.is_fulfilled);
}

#[test]
fn catch_without_transfer_accounts_still_removes() {
    let (mut c, s, mut v, mut inv) = game_with_creature(1);
    deposit_nft::handler(&c, &mut v, admin_key(), key(60)).unwrap();
    let (req, _) = throw_ball::handler(&mut c, &s, &mut inv, player_key(), 2, 1, 0).unwrap();
    let mut a = accounts(c, s, v, req, None);
    let out = consume_fulfilled(&mut a, &blob_with_roll(0, 0), &vec![], 0).unwrap();
    match out {
        ConsumeOutcome::Caught { award, transfer_group, .. } => {
            assert!(award.unwrap().nft_mint == key(60));
            assert_eq!(transfer_group, None);
        }
        other => panic!("unexpected outcome {:?}", other),
    }
    assert_eq!(a.nft_vault.count, 0);
    assert!(a.player_inventory.is_none());
}

#[test]
fn catch_with_foreign_token_accounts_is_refused() {
    let (mut c, s, mut v, mut inv) = game_with_creature(1);
    deposit_nft::handler(&c, &mut v, admin_key(), key(60)).unwrap();
    let (req, _) = throw_ball::handler(&mut c, &s, &mut inv, player_key(), 2, 1, 0).unwrap();
    let mut a = accounts(c, s, v, req, Some(inv));
    let before = a;
    let remaining = vec![
        TransferAccount { key: key(60), owner: token_program() },
        TransferAccount { key: key(100), owner: key(5) },
        TransferAccount { key: key(101), owner: token_program() },
    ];
    assert_eq!(consume_fulfilled(&mut a, &blob_with_roll(0, 0), &remaining, 0), Err(GameError::NftTransferAccountsMissing));
    assert!(a == before);
}

#[test]
fn transfer_group_lookup() {
    let accts = vec![
        TransferAccount { key: key(1), owner: token_program() },
        TransferAccount { key: key(2), owner: token_program() },
        TransferAccount { key: key(3), owner: token_program() },
        TransferAccount { key: key(4), owner: token_program() },
    ];
    assert_eq!(find_transfer_group(&accts, &key(1), &token_program()), Ok(Some(0)));
    // The fourth account is not a full group.
    assert_eq!(find_transfer_group(&accts, &key(4), &token_program()), Ok(None));
    assert_eq!(find_transfer_group(&accts, &key(2), &token_program()), Ok(None));
    assert_eq!(find_transfer_group(&accts, &key(1), &key(9)), Err(GameError::NftTransferAccountsMissing));
}

#[test]
fn two_catches_one_collectible() {
    let (mut c, mut s, mut v, mut inv) = game_with_creature(2);
    force_spawn_pokemon::handler(&mut c, &mut s, admin_key(), 7, 1, 1, 0).unwrap();
    deposit_nft::handler(&c, &mut v, admin_key(), key(60)).unwrap();
    let (req1, _) = throw_ball::handler(&mut c, &s, &mut inv, player_key(), 2, 1, 0).unwrap();
    let (req2, _) = throw_ball::handler(&mut c, &s, &mut inv, player_key(), 7, 1, 0).unwrap();
    let mut a = accounts(c, s, v, req1, None);
    let first = consume_fulfilled(&mut a, &blob_with_roll(1, 0x42), &vec![], 0).unwrap();
    let mut b = ConsumeRandomness { vrf_request: req2, ..a };
    let second = consume_fulfilled(&mut b, &blob_with_roll(2, 0x17), &vec![], 0).unwrap();
    let awards = [first, second]
        .iter()
        .filter(|o| matches!(o, ConsumeOutcome::Caught { award: Some(_), .. }))
        .count();
    assert_eq!(awards, 1);
    assert!(matches!(second, ConsumeOutcome::Caught { award: None, .. }));
    assert_eq!(b.nft_vault.count, 0);
    assert_eq!(b.pokemon_slots.active_count, 0);
}

#[test]
fn miss_at_last_attempt_relocates() {
    let (mut c, mut s, v, mut inv) = game_with_creature(1);
    s.slots[2].throw_attempts = MAX_THROW_ATTEMPTS - 1;
    let (req, _) = throw_ball::handler(&mut c, &s, &mut inv, player_key(), 2, 1, 0).unwrap();
    let mut a = accounts(c, s, v, req, None);
    let mut r = blob_with_roll(20, 0);
    r[16] = 0xff;
    r[17] = 0xff;
    r[18] = 0x39;
    r[19] = 0x05;
    let out = consume_fulfilled(&mut a, &r, &vec![], 0).unwrap();
    match out {
        ConsumeOutcome::Missed { failed, relocated } => {
            assert_eq!(failed.attempts_remaining, MAX_THROW_ATTEMPTS);
            let rel = relocated.unwrap();
            assert_eq!((rel.old_x, rel.old_y, rel.new_x, rel.new_y), (100, 200, 535, 337));
        }
        other => panic!("unexpected outcome {:?}", other),
    }
    let slot = a.pokemon_slots.slots[2];
    assert!(slot.is_active);
    assert_eq!((slot.throw_attempts, slot.pos_x, slot.pos_y), (0, 535, 337));
}

#[test]
fn three_misses_relocate_on_third() {
    let (mut c, mut s, mut v, mut inv) = game_with_creature(3);
    assert_eq!(c.catch_rates[1], 20);
    let mut reloc_bytes = [0u8; 64];
    reloc_bytes[16] = 0x10;
    reloc_bytes[17] = 0x27;
    reloc_bytes[18] = 0x2a;
    for (n, roll) in [20u8, 57, 99].iter().enumerate() {
        let (req, _) = throw_ball::handler(&mut c, &s, &mut inv, player_key(), 2, 1, 0).unwrap();
        let mut r = blob_with_roll(*roll, 0);
        r[16..20].copy_from_slice(&reloc_bytes[16..20]);
        let mut a = accounts(c, s, v, req, Some(inv));
        let out = consume_fulfilled(&mut a, &r, &vec![], 0).unwrap();
        c = a.game_config;
        s = a.pokemon_slots;
        v = a.nft_vault;
        inv = a.player_inventory.unwrap();
        match out {
            ConsumeOutcome::Missed { failed, relocated } => {
                if n < 2 {
                    assert!(relocated.is_none());
                    assert_eq!(failed.attempts_remaining, 2 - n as u8);
                    assert_eq!(s.slots[2].throw_attempts, n as u8 + 1);
                } else {
                    let rel = relocated.unwrap();
                    assert_eq!((rel.new_x, rel.new_y), (0, 42));
                    assert_eq!(failed.attempts_remaining, 3);
                }
            }
            other => panic!("unexpected outcome {:?}", other),
        }
    }
    let slot = s.slots[2];
    assert!(slot.is_active);
    assert_eq!(slot.throw_attempts, 0);
    assert_eq!((slot.pos_x, slot.pos_y), (0, 42));
    assert_eq!(inv.total_catches, 0);
    assert_eq!(inv.balls[1], 0);
}

#[test]
fn throw_at_emptied_slot_is_spent() {
    let (mut c, mut s, v, mut inv) = game_with_creature(1);
    let (req, _) = throw_ball::handler(&mut c, &s, &mut inv, player_key(), 2, 1, 0).unwrap();
    despawn_pokemon::handler(&c, &mut s, admin_key(), 2).unwrap();
    let mut a = accounts(c, s, v, req, Some(inv));
    let out = consume_fulfilled(&mut a, &blob_with_roll(0, 0), &vec![], 0).unwrap();
    assert_eq!(out, ConsumeOutcome::TargetGone { slot_index: 2 });
    assert!(a.vrf_request.is_fulfilled);
    assert_eq!(a.pokemon_slots.active_count, 0);
    assert_eq!(a.pokemon_slots.slots[2], PokemonSlot::default());
}

#[test]
fn consume_refuses_bad_requests() {
    let (c, s, v, _) = setup();
    let base = VrfRequest { request_type: 7, player: player_key(), slot_index: 0, ball_type: 0, seed: [0; 32], is_fulfilled: false, bump: 0 };
    let mut a = accounts(c, s, v, base, None);
    assert_eq!(consume_fulfilled(&mut a, &[0; 64], &vec![], 0), Err(GameError::InvalidVrfRequestType));
    let mut a = accounts(c, s, v, VrfRequest { request_type: VRF_TYPE_SPAWN, slot_index: 20, ..base }, None);
    assert_eq!(consume_fulfilled(&mut a, &[0; 64], &vec![], 0), Err(GameError::InvalidSlotIndex));
    let mut a = accounts(c, s, v, VrfRequest { request_type: VRF_TYPE_THROW, ball_type: 4, ..base }, None);
    assert_eq!(consume_fulfilled(&mut a, &[0; 64], &vec![], 0), Err(GameError::InvalidBallType));
    let mut full = c;
    full.pokemon_id_counter = u64::MAX;
    let mut a = accounts(full, s, v, VrfRequest { request_type: VRF_TYPE_SPAWN, ..base }, None);
    assert_eq!(consume_fulfilled(&mut a, &[0; 64], &vec![], 0), Err(GameError::MathOverflow));
    assert!(!a.vrf_request.is_fulfilled);
}
