//! The operations of the engine, one module each.

pub mod bet;
pub mod create_event;
pub mod initialize_treasury;
pub mod redeem;
pub mod update_result;

pub use bet::{bet, Bet};
pub use create_event::{create_event, CreateEvent};
pub use initialize_treasury::{initialize_treasury, InitializeTreasury};
pub use redeem::{redeem, Redeem, Redemption};
pub use update_result::{update_result, UpdateResult};
