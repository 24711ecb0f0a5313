//! Two-party stake-matching escrow: a match is created with a stake, joined by
//! a second participant with an equal stake, and settled by the configured
//! authority, who names the winner of both stakes.

pub mod key;
pub mod laws;
pub mod lifecycle;
pub mod state;

pub use key::Key;
pub use lifecycle::{
    create_match, init_config, join_match, settle_match, CreateMatch, InitConfig, JoinMatch,
    SettleMatch,
};
pub use state::{Config, MatchAccount, MatchStatus, MoltFlipError, Transfer};
