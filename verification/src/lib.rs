//! Verified core of a two-party escrow on a ledger of lamports.
//!
//! A sender locks an amount for one recipient in a slot whose address is
//! derived from the two parties and an id. The funds later leave the slot in
//! exactly one direction: to the recipient, who accepts, or back to the
//! sender, who cancels. Either settlement closes the slot and hands the
//! storage deposit back to the sender.
//!
//! The operations work on plain values: the balances and the record that a
//! request touches. Reading them from the ledger and writing them back is the
//! caller's part.

pub mod accept;
pub mod account;
pub mod address;
pub mod cancel;
pub mod error;
pub mod initialize;
pub mod laws;
pub mod pda;
pub mod record;

pub use accept::{accept_at, accept_escrow, AcceptEscrow};
pub use account::{transfer, EscrowAccount, Wallet};
pub use address::Address;
pub use cancel::{cancel_at, cancel_escrow, CancelEscrow};
pub use error::EscrowError;
pub use initialize::{initialize_at, initialize_escrow, InitializeEscrow};
pub use pda::{derive_escrow_address, find_escrow_address, signer_seeds};
pub use record::{Escrow, EscrowView};
