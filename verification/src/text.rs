//! Text that names addresses and transactions to a human reader.

use vstd::prelude::*;
use rust_base58::ToBase58;
use crate::address::{Cluster, Signature};

verus! {

/// The base-58 text of a byte string, in the Bitcoin alphabet.
pub uninterp spec fn base58(bytes: Seq<u8>) -> Seq<char>;

/// Calls `ToBase58::to_base58` of `rust_base58`, which encodes any byte
/// string and depends on nothing else.
#[verifier::external_body]
pub(crate) fn to_base58(bytes: &Vec<u8>) -> (text: String)
    ensures
        text@ == base58(bytes@),
{
    bytes.as_slice().to_base58()
}

/// `String::push_str` appends the given text and changes nothing else.
pub assume_specification[ String::push_str ](s: &mut String, string: &str)
    ensures
        final(s)@ == old(s)@ + string@,
;

/// What follows a transaction's reference to name its cluster: `?devnet` on
/// devnet, nothing elsewhere.
pub open spec fn cluster_suffix(cluster: Cluster) -> Seq<char> {
    match cluster {
        Cluster::Devnet => "?devnet"@,
        _ => Seq::empty(),
    }
}

/// Where a transaction can be looked up: the explorer's address, the
/// signature in base 58, and the cluster's suffix.
pub open spec fn explorer_reference(signature: Seq<u8>, cluster: Cluster) -> Seq<char> {
    "https://explorer.solana.com/tx/"@ + base58(signature) + cluster_suffix(cluster)
}

/// Builds the explorer reference of a transaction on `cluster`.
pub fn explorer_link(signature: &Signature, cluster: Cluster) -> (link: String)
    ensures
        link@ == explorer_reference(signature@, cluster),
{
    let mut link = "https://explorer.solana.com/tx/".to_owned();
    let encoded = to_base58(&signature.to_vec());
    link.push_str(encoded.as_str());
    match cluster {
        Cluster::Devnet => {
            link.push_str("?devnet");
        },
        _ => {
            assert(link@ + Seq::<char>::empty() =~= link@);
        },
    }
    link
}

} // verus!
