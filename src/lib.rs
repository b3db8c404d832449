//! A deterministic progression-and-combat engine for one player record:
//! `explore` commits to an encounter, `fight` resolves it against a
//! procedurally derived enemy, and `claim` consumes the reward of a victory.

pub mod record;
pub mod combat;
pub mod entropy;
pub mod laws;
