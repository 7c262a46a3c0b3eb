pub mod admin;
pub mod consume_randomness;
pub mod deposit_nft;
pub mod despawn_pokemon;
pub mod force_spawn_pokemon;
pub mod initialize;
pub mod purchase_balls;
pub mod reposition_pokemon;
pub mod spawn_pokemon;
pub mod throw_ball;
pub mod withdraw_nft;
pub mod withdraw_revenue;
