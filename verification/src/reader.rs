//! What reading the sale and its collection record from the ledger means.

use vstd::prelude::*;
use crate::address::Address;
use crate::error::{MintError, MintErrorView};
use crate::pda::{collection_pda, find_collection_pda};
use crate::sale::{CollectionLink, SaleConfig};
use crate::text::{base58, to_base58};

verus! {

/// What fetching a record from the ledger and decoding it gave.
#[derive(Clone, Debug, PartialEq, Eq)]
pub enum AccountFetch<T> {
    Found(T),
    /// No account exists at the address.
    NotFound,
    /// The account could not be read or decoded; the text says why.
    Failed(String),
}

/// The record stored at a sale's collection address.
#[derive(Clone, Copy, Debug, PartialEq, Eq)]
pub struct CollectionRecord {
    /// The mint of the collection.
    pub mint: Address,
    /// The sale the record belongs to.
    pub candy_machine: Address,
}

/// What is reported when a sale's account cannot be decoded.
pub open spec fn sale_unreadable(candy_machine_id: Seq<u8>, reason: Seq<char>) -> Seq<char> {
    "Failed to deserialize Candy Machine account "@ + base58(candy_machine_id) + ": "@ + reason
}

/// What is reported when a collection record cannot be decoded.
pub open spec fn collection_unreadable(record: Seq<u8>) -> Seq<char> {
    "Failed to deserialize collection PDA account: "@ + base58(record)
}

/// The state of the sale `candy_machine_id`, given what fetching its account
/// gave: the state where it was found, and a read error that names the sale
/// where it was not.
pub fn get_candy_machine_state(
    candy_machine_id: &Address,
    fetched: AccountFetch<SaleConfig>,
) -> (state: Result<SaleConfig, MintError>)
    ensures
        match fetched {
            AccountFetch::Found(sale) => state == Ok::<SaleConfig, MintError>(sale),
            AccountFetch::NotFound => state matches Err(error) && error@
                == (MintErrorView::RemoteReadError { detail: "Candy Machine does not exist!"@ }),
            AccountFetch::Failed(reason) => state matches Err(error) && error@
                == (MintErrorView::RemoteReadError {
                detail: sale_unreadable(candy_machine_id@, reason@),
            }),
        },
{
    match fetched {
        AccountFetch::Found(sale) => Ok(sale),
        AccountFetch::NotFound => Err(
            MintError::RemoteReadError { detail: "Candy Machine does not exist!".to_owned() },
        ),
        AccountFetch::Failed(reason) => {
            let mut detail = "Failed to deserialize Candy Machine account ".to_owned();
            let name = to_base58(&candy_machine_id.to_vec());
            detail.push_str(name.as_str());
            detail.push_str(": ");
            detail.push_str(reason.as_str());
            Err(MintError::RemoteReadError { detail })
        },
    }
}

/// The collection of the sale `candy_machine`, given what fetching the
/// record at its collection address gave: the record's address paired with
/// the collection's mint where it was found, and a read error where it was
/// not. Where the collection address cannot be derived at all, that is the
/// failure.
pub fn get_collection_pda(
    candy_machine: &Address,
    program: &Address,
    fetched: AccountFetch<CollectionRecord>,
) -> (link: Result<CollectionLink, MintError>)
    ensures
        match collection_pda(candy_machine@, program@) {
            None => link matches Err(error) && error@ == MintErrorView::NoProgramAddress,
            Some(derived) => match fetched {
                AccountFetch::Found(record) => link matches Ok(found) && found.address@
                    == derived.0 && found.mint == record.mint,
                AccountFetch::NotFound => link matches Err(error) && error@
                    == (MintErrorView::RemoteReadError {
                    detail: "Candy Machine collection is not set!"@,
                }),
                AccountFetch::Failed(_) => link matches Err(error) && error@
                    == (MintErrorView::RemoteReadError {
                    detail: collection_unreadable(derived.0),
                }),
            },
        },
{
    let address = match find_collection_pda(candy_machine, program) {
        Some((address, _)) => address,
        None => {
            return Err(MintError::NoProgramAddress);
        },
    };
    match fetched {
        AccountFetch::Found(record) => Ok(CollectionLink { address, mint: record.mint }),
        AccountFetch::NotFound => Err(
            MintError::RemoteReadError {
                detail: "Candy Machine collection is not set!".to_owned(),
            },
        ),
        AccountFetch::Failed(_) => {
            let mut detail = "Failed to deserialize collection PDA account: ".to_owned();
            let name = to_base58(&address.to_vec());
            detail.push_str(name.as_str());
            Err(MintError::RemoteReadError { detail })
        },
    }
}

} // verus!
