//! The merger: it takes the notification that one of its two tokens was
//! sent to it and relays, through a note contract, a request to mint the
//! same amount on the other chain.
pub mod contract;
pub mod msg;
pub mod state;
