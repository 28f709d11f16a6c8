//! The minter whose first caller becomes its only minter: it creates a
//! token contract, binds the address that the creation reports, and from
//! then on turns mint calls into mint messages to that token.
pub mod contract;
pub mod history;
pub mod msg;
pub mod state;
