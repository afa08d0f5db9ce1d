//! Accounting and authorization core of a custodial chip exchange.
//!
//! A single administrator prices a fungible "chip" unit in lamports (the
//! native currency's minor unit), a treasury custodies the deposited value
//! that backs every minted chip, and a reward ledger lets designated
//! recipients withdraw previously credited chip amounts.
//!
//! The chain runtime that actually moves funds (token mints, burns and
//! transfers) is an external collaborator.  This crate holds the state
//! transitions themselves — how balances and records must change, which
//! requests are rejected and with which error — verified over plain
//! integer balances.

pub mod authority;
pub mod errors;
pub mod exchange;
pub mod laws;
pub mod registry;
pub mod rewards;
pub mod treasury;
