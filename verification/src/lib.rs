//! Bookkeeping for a token launchpad that rewards holders for how long they
//! have held, not for how often they trade.
//!
//! Every operation takes the records it touches as plain values, together with
//! the current time, and hands back the notification that observers are owed.
//! Nothing is changed when an operation fails.

pub mod bundler;
pub mod error;
pub mod events;
pub mod keys;
pub mod launch;
pub mod position;
pub mod protocol;
pub mod rank;
pub mod rewards;
pub mod state;

pub use bundler::flag_bundler;
pub use error::DiamondPadError;
pub use events::{BundlerFlagged, LaunchCreated, PositionUpdated, RewardsClaimed};
pub use launch::{create_launch, LaunchRequest};
pub use position::record_position;
pub use protocol::initialize;
pub use rank::{calculate_diamond_rank, get_multiplier_bps, DiamondRank};
pub use rewards::claim_rewards;
pub use state::{text_len, Bundler, Launch, LaunchStatus, Position, Protocol, MAX_EVIDENCE_LEN};
