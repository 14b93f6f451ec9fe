//! Verified state machines for a charitable-donation workflow.
//!
//! Three ledgers cooperate, each over its own keyed store: the community
//! registry ([`community`]), the donation ledger ([`donation`]) and the
//! escrow vault ([`escrow`]), which holds funds in custody accounts
//! ([`assets`]). Every call is given the identity of its caller
//! ([`identity`]), already authenticated, and the time; it either succeeds
//! and changes the state, or is refused ([`error`]) and changes nothing.
//!
//! Around the ledgers stand the records of the relational mirror
//! ([`mirror`]), the settings of the backend process ([`config`]) and the
//! off-chain helpers ([`stellar`]). The stores themselves are in [`table`],
//! and [`text`] holds what is said of strings.

pub mod assets;
pub mod community;
pub mod config;
pub mod donation;
pub mod error;
pub mod escrow;
pub mod identity;
pub mod mirror;
pub mod stellar;
pub mod table;
pub mod text;
