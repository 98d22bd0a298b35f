//! Two small pieces of verified code: a coin-value lookup over a plain
//! enum, and the rules of a counter record kept on an account ledger.

pub mod address;
pub mod coin;
pub mod context;
pub mod error;
pub mod instructions;
pub mod lifecycle;
pub mod state;

pub use address::{Address, ADDRESS_LEN};
pub use coin::{value_in_cents, Coin};
pub use context::{CloseAmigo, InitializeAmigo, Update};
pub use error::CounterError;
pub use state::{Allocator, Amigo, CounterAccount, Payer, Slot, HEADER_SPACE, SPACE};
