//! State machine of a creature-catching game driven by oracle randomness:
//! the creature registry, the collectible vault, the derivation of decisions
//! from one randomness blob, and the request/resolve protocol.

pub mod constants;
pub mod errors;
pub mod events;
pub mod instructions;
pub mod oracle;
pub mod randomness;
pub mod slots;
pub mod state;
pub mod vault;
