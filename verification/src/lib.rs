//! Minting against a candy-machine sale on a Solana-style ledger.
//!
//! One mint is a single forward pass: the sale's state is read, the caller's
//! eligibility is decided, the program-owned addresses are derived, the
//! instructions are assembled in their required order, and the transaction is
//! submitted and checked. Everything that decides or computes lives here and
//! is verified; the network is driven by the caller, which performs each
//! [`mint::MintAction`] and hands back the matching [`mint::MintEvent`].

pub mod address;
pub mod assemble;
pub mod context;
pub mod eligibility;
pub mod error;
pub mod instruction;
pub mod mint;
pub mod pda;
pub mod reader;
pub mod sale;
pub mod text;
pub mod whitelist;
