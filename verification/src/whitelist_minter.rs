//! The minter with an admin and an access list: it creates a token
//! contract, binds the address that the creation reports, and lets its admin
//! and the accounts that the admin has listed mint.
pub mod contract;
pub mod history;
pub mod msg;
pub mod state;
