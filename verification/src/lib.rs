//! Coordination layer of a drivechain enforcer: the decisions that keep a
//! wallet ledger, its database and its observers in step, stated as
//! contracts and proved.
//!
//! The library decides and the program around it acts. Whatever waits for
//! the network, a lock or the disk is a step that the library asks for and
//! whose outcome it takes: [`wallet::sync`] for the wallet store,
//! [`mempool`] for the bootstrap of the mempool synchronization, and
//! [`supervisor`] for startup and shutdown. [`wallet::store`] states what
//! holds when several operations on the store run side by side.

pub mod bundles;
pub mod logging;
pub mod mempool;
pub mod rpc;
pub mod supervisor;
pub mod text;
pub mod types;
pub mod wallet;
