//! Verified core of a two-chain token merger.
//!
//! Three contracts share this library. Each is written as a set of entry
//! points over an explicit record: the caller loads the record, hands it to
//! the entry point together with what the host said in this call, and
//! stores and sends what comes back. The host's part in a call is one
//! verdict on one address, or the decoded form of an attached message; the
//! entry point decides everything else, and its contract says what.
//!
//! * [`xion_minter`] creates a token contract and lets the first account
//!   that mints become the only minter.
//! * [`whitelist_minter`] creates a token contract and lets its admin and
//!   the accounts on an access list mint.
//! * [`juno_merger`] takes the notification that one of two tokens was sent
//!   to it and relays a mint request to the other chain.
//!
//! The two minters share [`factory`], which creates the token contract and
//! binds its address, and [`mint`], which builds the mint message.
//! [`host`] models the values that travel between host and contract,
//! [`encoding`] holds what outside crates encode, and [`error`] the errors.
pub mod encoding;
pub mod error;
pub mod factory;
pub mod host;
pub mod juno_merger;
pub mod mint;
pub mod whitelist_minter;
pub mod xion_minter;
