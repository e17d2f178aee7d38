//! The on-chain records a mint reads: the sale and its optional collection.

use vstd::prelude::*;
use crate::address::Address;

verus! {

/// What happens to a whitelist token when it is used.
#[derive(Clone, Copy, Debug, PartialEq, Eq)]
pub enum WhitelistMode {
    /// The token is consumed by every mint, so the minter must hold one.
    BurnEveryTime,
    /// The token is only shown, never consumed.
    NeverBurn,
}

/// Whitelist gating of a sale.
#[derive(Clone, Copy, Debug, PartialEq, Eq)]
pub struct WhitelistSettings {
    pub mode: WhitelistMode,
    /// The mint of the whitelist token.
    pub mint: Address,
    /// Whether whitelisted minters may mint before the go-live date.
    pub presale: bool,
}

/// What an end condition measures.
#[derive(Clone, Copy, Debug, PartialEq, Eq)]
pub enum EndConditionKind {
    /// The threshold is a timestamp after which the sale is over.
    Date,
    /// The threshold is the number of redeemed items at which the sale is over.
    AmountRedeemed,
}

/// The point at which a sale stops, whatever its supply.
#[derive(Clone, Copy, Debug, PartialEq, Eq)]
pub struct EndCondition {
    pub kind: EndConditionKind,
    pub threshold: u64,
}

/// The state of a sale as last read from the ledger. Only the ledger program
/// changes it, so nothing here is taken for granted: in particular
/// `items_redeemed <= items_available` is checked, never assumed.
#[derive(Clone, Copy, Debug, PartialEq, Eq)]
pub struct SaleConfig {
    pub authority: Address,
    /// The account that receives the proceeds.
    pub wallet: Address,
    pub items_available: u64,
    pub items_redeemed: u64,
    /// The timestamp from which the public may mint; `None` while unset.
    pub go_live: Option<i64>,
    pub whitelist: Option<WhitelistSettings>,
    pub end_condition: Option<EndCondition>,
    /// Whether minters must pass a gatekeeper challenge.
    pub gatekeeper: bool,
    /// The token the sale is paid in, where it is not paid in lamports.
    pub payment_token_mint: Option<Address>,
}

/// The record that ties a sale to the collection its items join.
#[derive(Clone, Copy, Debug, PartialEq, Eq)]
pub struct CollectionLink {
    /// The address of the record itself.
    pub address: Address,
    /// The mint of the collection.
    pub mint: Address,
}

/// One request to mint: which sale, and who receives the item.
#[derive(Clone, Copy, Debug, PartialEq, Eq)]
pub struct MintRequest {
    pub sale_id: Address,
    pub receiver: Address,
}

} // verus!
