//! Matching core of a line-based trading gateway.
//!
//! Clients submit buy and sell intents for the products of a fixed catalog.
//! The registry pairs opposite intents for the same product that come from
//! different traders and says which notifications go to whom. Everything
//! here is a plain computation on values: the transport hands in one event at
//! a time and carries out the actions it gets back.

pub mod actions;
pub mod directory;
pub mod errors;
pub mod laws;
pub mod products;
pub mod session;
pub mod storage;
pub mod text;
pub mod trader;
pub mod transaction_service;
pub mod utils;

pub use actions::{ClientActions, ServerActions};
pub use errors::ClientError;
pub use products::Product;
pub use utils::{get_greeting_message, split_at_colon};
pub use storage::{same_product_diff_traders, TransactionInfo, TransactionStorage};
pub use trader::Transaction;
pub use directory::TraderDirectory;
pub use transaction_service::{Notification, Outcome, TransactionService};
pub use session::{handle_new_trader, SessionAction, SessionEvent, SessionState, Trader};
