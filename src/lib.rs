//! Chou–Orlandi base oblivious transfer over the Ristretto group, with a
//! transfer-id state machine and an optional tape of the receiver's blinded
//! choices that the sender can later check against a revealed seed.

pub mod bits;
pub mod block;
pub mod config;
pub mod curve;
pub mod error;
pub mod laws;
pub mod msgs;
pub mod receiver;
pub mod sender;
pub mod state;
