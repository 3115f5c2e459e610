//! A minimal token ledger: balance-holding accounts and the two operations
//! on them, initialisation and transfer, with their contracts.

pub mod account;
pub mod error;
pub mod operations;

pub use account::MyAccount;
pub use error::MyError;
pub use operations::{initialize, transfer, Initialize, Transfer};
