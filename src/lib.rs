//! Bookkeeping for unit purchases in a turn-based strategy game: a running
//! balance of income points, a list of pending purchases, and the operations
//! that change them.

pub mod ledger;
pub mod state;
pub mod troops;

pub use ledger::{add_purchase, commit_purchase, remove_purchase, show_status, StatusReport};
pub use state::{GameState, GameStateView};
pub use troops::Troops;
