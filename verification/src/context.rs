//! What one mint is given, and what the ledger answers when it is read.

use vstd::prelude::*;
use crate::address::{Address, Cluster, CANDY_MACHINE_PROGRAM, TOKEN_METADATA_PROGRAM};
use crate::sale::{CollectionLink, MintRequest, SaleConfig};

verus! {

/// The programs a mint speaks to and the cluster they run on.
#[derive(Clone, Copy, Debug, PartialEq, Eq)]
pub struct MintConfig {
    /// The program that owns the sale.
    pub candy_machine_program: Address,
    /// The program that owns the items' metadata.
    pub token_metadata_program: Address,
    pub cluster: Cluster,
}

impl MintConfig {
    /// The configuration for the programs at their published addresses.
    pub fn published(cluster: Cluster) -> (config: MintConfig)
        ensures
            config.candy_machine_program@ == CANDY_MACHINE_PROGRAM@,
            config.token_metadata_program@ == TOKEN_METADATA_PROGRAM@,
            config.cluster == cluster,
    {
        MintConfig {
            candy_machine_program: Address::new(CANDY_MACHINE_PROGRAM),
            token_metadata_program: Address::new(TOKEN_METADATA_PROGRAM),
            cluster,
        }
    }
}

/// Everything one mint is given: the configuration, the request, the sale
/// as last read, its collection if it has one, who pays, and the address of
/// the fresh mint account, whose key the caller made for this one request.
#[derive(Clone, Copy, Debug, PartialEq, Eq)]
pub struct MintContext {
    pub config: MintConfig,
    pub request: MintRequest,
    pub sale: SaleConfig,
    pub collection: Option<CollectionLink>,
    pub payer: Address,
    pub mint: Address,
}

/// What reading an account from the ledger gave.
#[derive(Clone, Debug, PartialEq, Eq)]
pub enum AccountRead {
    Found(Vec<u8>),
    NotFound,
    /// The read failed; the text is the remote error's.
    Failed(String),
}

/// The outcome of a read with its data as bytes and its text as characters.
pub enum AccountReadView {
    Found(Seq<u8>),
    NotFound,
    Failed(Seq<char>),
}

impl View for AccountRead {
    type V = AccountReadView;

    open spec fn view(&self) -> AccountReadView {
        match *self {
            AccountRead::Found(data) => AccountReadView::Found(data@),
            AccountRead::NotFound => AccountReadView::NotFound,
            AccountRead::Failed(text) => AccountReadView::Failed(text@),
        }
    }
}

/// The view of an optional read.
pub open spec fn read_view(read: Option<&AccountRead>) -> Option<AccountReadView> {
    match read {
        Some(r) => Some(r@),
        None => None,
    }
}

} // verus!
