//! Why a mint did not produce an item.

use vstd::prelude::*;
use crate::address::{Address, Signature};
use crate::eligibility::DenyReason;
use crate::text::{base58, to_base58};

verus! {

/// Every way a mint can fail. Nothing is swallowed and nothing is retried:
/// whether to try again is the caller's decision.
#[derive(Clone, Debug, PartialEq, Eq)]
pub enum MintError {
    /// The sale asks for a gatekeeper challenge, which is never answered here.
    GatekeeperRequired,
    /// Every item of the sale has been redeemed.
    SoldOut,
    /// The sale has not opened yet, or its end date has passed.
    NotLive,
    /// The sale's end condition on the amount redeemed has been reached.
    EndReached,
    /// The sale burns a whitelist token per mint and the payer holds none.
    NoWhitelistToken,
    /// The payer's whitelist token account is missing, empty or unreadable.
    UninitializedWhitelistToken { account: Address },
    /// The transaction was accepted but no item exists: most likely the
    /// program kept the fee as a bot tax. `reference` says where to look the
    /// transaction up.
    LikelyBotTaxFailure { signature: Signature, reference: String },
    /// The ledger could not be read; `detail` is the remote error's text.
    RemoteReadError { detail: String },
    /// The transaction was not accepted; `detail` is the remote error's text.
    RemoteSubmitError { detail: String },
    /// An address that the instructions need cannot be derived.
    NoProgramAddress,
}

/// How a mint ends: with the signature of the transaction that made the
/// item, or with the reason why there is none.
pub type MintOutcome = Result<Signature, MintError>;

/// A failure with its addresses as bytes and its texts as characters.
pub enum MintErrorView {
    GatekeeperRequired,
    SoldOut,
    NotLive,
    EndReached,
    NoWhitelistToken,
    UninitializedWhitelistToken { account: Seq<u8> },
    LikelyBotTaxFailure { signature: Seq<u8>, reference: Seq<char> },
    RemoteReadError { detail: Seq<char> },
    RemoteSubmitError { detail: Seq<char> },
    NoProgramAddress,
}

impl View for MintError {
    type V = MintErrorView;

    open spec fn view(&self) -> MintErrorView {
        match *self {
            MintError::GatekeeperRequired => MintErrorView::GatekeeperRequired,
            MintError::SoldOut => MintErrorView::SoldOut,
            MintError::NotLive => MintErrorView::NotLive,
            MintError::EndReached => MintErrorView::EndReached,
            MintError::NoWhitelistToken => MintErrorView::NoWhitelistToken,
            MintError::UninitializedWhitelistToken { account } => {
                MintErrorView::UninitializedWhitelistToken { account: account@ }
            },
            MintError::LikelyBotTaxFailure { signature, reference } => {
                MintErrorView::LikelyBotTaxFailure { signature: signature@, reference: reference@ }
            },
            MintError::RemoteReadError { detail } => MintErrorView::RemoteReadError {
                detail: detail@,
            },
            MintError::RemoteSubmitError { detail } => MintErrorView::RemoteSubmitError {
                detail: detail@,
            },
            MintError::NoProgramAddress => MintErrorView::NoProgramAddress,
        }
    }
}

/// The failure that reports a refusal.
pub open spec fn denial(reason: DenyReason) -> MintErrorView {
    match reason {
        DenyReason::GatekeeperRequired => MintErrorView::GatekeeperRequired,
        DenyReason::SoldOut => MintErrorView::SoldOut,
        DenyReason::NotLive => MintErrorView::NotLive,
        DenyReason::EndReached => MintErrorView::EndReached,
    }
}

/// The text that tells a person of a failure. Remote errors are told in
/// the remote's own words.
pub open spec fn message_of(error: MintErrorView) -> Seq<char> {
    match error {
        MintErrorView::GatekeeperRequired => {
            "Command-line mint disabled (gatekeeper settings in use)"@
        },
        MintErrorView::SoldOut => "Candy machine is empty!"@,
        MintErrorView::NotLive => "Candy machine is not live!"@,
        MintErrorView::EndReached => {
            "Candy machine is not live (end settings amount reached)"@
        },
        MintErrorView::NoWhitelistToken => "No whitelist token present"@,
        MintErrorView::UninitializedWhitelistToken { account } => {
            "Uninitialized whitelist token account: "@ + base58(account)
                + ".\n                         Check that you provided a valid SPL token mint for the whitelist."@
        },
        MintErrorView::LikelyBotTaxFailure { reference, .. } => {
            "Minting most likely failed with a bot tax. Check the transaction link for more details: "@
                + reference
        },
        MintErrorView::RemoteReadError { detail } => detail,
        MintErrorView::RemoteSubmitError { detail } => detail,
        MintErrorView::NoProgramAddress => "Unable to find a viable program address bump seed"@,
    }
}

impl MintError {
    /// The text that tells a person of this failure.
    pub fn message(&self) -> (text: String)
        ensures
            text@ == message_of(self@),
    {
        match self {
            MintError::GatekeeperRequired => {
                "Command-line mint disabled (gatekeeper settings in use)".to_owned()
            },
            MintError::SoldOut => "Candy machine is empty!".to_owned(),
            MintError::NotLive => "Candy machine is not live!".to_owned(),
            MintError::EndReached => {
                "Candy machine is not live (end settings amount reached)".to_owned()
            },
            MintError::NoWhitelistToken => "No whitelist token present".to_owned(),
            MintError::UninitializedWhitelistToken { account } => {
                let mut text = "Uninitialized whitelist token account: ".to_owned();
                let name = to_base58(&account.to_vec());
                text.push_str(name.as_str());
                text.push_str(
                    ".\n                         Check that you provided a valid SPL token mint for the whitelist.",
                );
                text
            },
            MintError::LikelyBotTaxFailure { reference, .. } => {
                let mut text =
                    "Minting most likely failed with a bot tax. Check the transaction link for more details: ".to_owned();
                text.push_str(reference.as_str());
                text
            },
            MintError::RemoteReadError { detail } => detail.clone(),
            MintError::RemoteSubmitError { detail } => detail.clone(),
            MintError::NoProgramAddress => {
                "Unable to find a viable program address bump seed".to_owned()
            },
        }
    }

    /// The failure that reports a refusal.
    pub fn from_denial(reason: DenyReason) -> (error: MintError)
        ensures
            error@ == denial(reason),
    {
        match reason {
            DenyReason::GatekeeperRequired => MintError::GatekeeperRequired,
            DenyReason::SoldOut => MintError::SoldOut,
            DenyReason::NotLive => MintError::NotLive,
            DenyReason::EndReached => MintError::EndReached,
        }
    }
}

} // verus!
