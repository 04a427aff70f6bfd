//! Hold invoices for a Lightning node: the persisted invoice state, the
//! commands that create, release and reject hold invoices, and the admission
//! monitor that decides what happens to each incoming HTLC.
pub mod state;
pub mod preimage;
pub mod controller;
pub mod monitor;
pub mod config;
