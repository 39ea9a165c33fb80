//! The wallet store: its errors and its synchronization with the chain.

pub mod error;
pub mod store;
pub mod sync;
