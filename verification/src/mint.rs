//! One mint from beginning to end, as a machine that is told what the
//! ledger answered and says what to ask it next.

use vstd::prelude::*;
use crate::address::{Address, Signature};
use crate::assemble::{
    assemble, assembled, InstructionBatch, InstructionBatchView, MINT_ACCOUNT_SPACE,
};
use crate::context::{read_view, AccountRead, AccountReadView, MintContext};
use crate::whitelist::{
    additional_accounts, burns_whitelist_token, collect_additional_accounts,
    whitelist_token_account,
};
use crate::eligibility::{check_eligibility, eligibility, DenyReason, Eligibility};
use crate::error::{denial, MintError, MintErrorView, MintOutcome};
use crate::pda::get_associated_token_address;
use crate::sale::WhitelistMode;
use crate::text::{explorer_link, explorer_reference};

verus! {

/// Where a mint stands: what it has asked the ledger and is waiting for.
#[derive(Clone, Copy, Debug, PartialEq, Eq)]
pub enum MintState {
    /// Nothing has happened yet.
    Start,
    /// The caller is eligible; the rent-exempt balance has been asked for.
    AwaitingRent,
    /// The payer's whitelist token account is being read.
    AwaitingWhitelistToken { min_rent: u64 },
    /// The batch has been handed over for submission.
    AwaitingSubmission { metadata: Address },
    /// The transaction was accepted; the item's metadata is being read back.
    AwaitingVerification { signature: Signature },
    /// The mint has finished, one way or the other.
    Done,
}

/// A state with its addresses as bytes.
pub enum MintStateView {
    Start,
    AwaitingRent,
    AwaitingWhitelistToken { min_rent: u64 },
    AwaitingSubmission { metadata: Seq<u8> },
    AwaitingVerification { signature: Seq<u8> },
    Done,
}

impl View for MintState {
    type V = MintStateView;

    open spec fn view(&self) -> MintStateView {
        match *self {
            MintState::Start => MintStateView::Start,
            MintState::AwaitingRent => MintStateView::AwaitingRent,
            MintState::AwaitingWhitelistToken { min_rent } => {
                MintStateView::AwaitingWhitelistToken { min_rent }
            },
            MintState::AwaitingSubmission { metadata } => MintStateView::AwaitingSubmission {
                metadata: metadata@,
            },
            MintState::AwaitingVerification { signature } => {
                MintStateView::AwaitingVerification { signature: signature@ }
            },
            MintState::Done => MintStateView::Done,
        }
    }
}

/// What the caller reports back: the beginning of the mint, or the answer
/// to the action it was last given.
#[derive(Debug, PartialEq, Eq)]
pub enum MintEvent {
    /// The mint begins, at the time `now`.
    Started { now: i64 },
    /// The balance that exempts the new mint account from rent, or the
    /// remote error's text.
    MinimumRent(Result<u64, String>),
    /// What reading the requested account gave.
    AccountRead(AccountRead),
    /// The signature of the confirmed transaction, or the remote error's
    /// text.
    Submitted(Result<Signature, String>),
}

/// An event with its data as bytes and its texts as characters.
pub enum MintEventView {
    Started { now: i64 },
    MinimumRent(Result<u64, Seq<char>>),
    AccountRead(AccountReadView),
    Submitted(Result<Seq<u8>, Seq<char>>),
}

impl View for MintEvent {
    type V = MintEventView;

    open spec fn view(&self) -> MintEventView {
        match *self {
            MintEvent::Started { now } => MintEventView::Started { now },
            MintEvent::MinimumRent(Ok(lamports)) => MintEventView::MinimumRent(Ok(lamports)),
            MintEvent::MinimumRent(Err(text)) => MintEventView::MinimumRent(Err(text@)),
            MintEvent::AccountRead(read) => MintEventView::AccountRead(read@),
            MintEvent::Submitted(Ok(signature)) => MintEventView::Submitted(Ok(signature@)),
            MintEvent::Submitted(Err(text)) => MintEventView::Submitted(Err(text@)),
        }
    }
}

/// What the caller is to do next.
#[derive(Debug, PartialEq, Eq)]
pub enum MintAction {
    /// Ask the ledger for the balance that exempts an account of `space`
    /// bytes from rent, and report `MinimumRent`.
    FetchMinimumRent { space: u64 },
    /// Read the payer's whitelist token account and report `AccountRead`.
    ReadWhitelistToken { account: Address },
    /// Sign the batch with the keys of its signers, submit it as one
    /// transaction, wait for confirmation, and report `Submitted`.
    Submit { batch: InstructionBatch },
    /// Read the new item's metadata account as of the latest processed
    /// state and report `AccountRead`.
    ReadMetadata { account: Address },
    /// The mint is over; this is its outcome.
    Finish { outcome: MintOutcome },
    /// The event does not answer what the state waits for. Nothing changed.
    Unexpected,
}

/// An action with its addresses as bytes and its texts as characters.
pub enum MintActionView {
    FetchMinimumRent { space: u64 },
    ReadWhitelistToken { account: Seq<u8> },
    Submit { batch: InstructionBatchView },
    ReadMetadata { account: Seq<u8> },
    Finish { outcome: Result<Seq<u8>, MintErrorView> },
    Unexpected,
}

impl View for MintAction {
    type V = MintActionView;

    open spec fn view(&self) -> MintActionView {
        match *self {
            MintAction::FetchMinimumRent { space } => MintActionView::FetchMinimumRent { space },
            MintAction::ReadWhitelistToken { account } => MintActionView::ReadWhitelistToken {
                account: account@,
            },
            MintAction::Submit { batch } => MintActionView::Submit { batch: batch@ },
            MintAction::ReadMetadata { account } => MintActionView::ReadMetadata {
                account: account@,
            },
            MintAction::Finish { outcome: Ok(signature) } => MintActionView::Finish {
                outcome: Ok(signature@),
            },
            MintAction::Finish { outcome: Err(error) } => MintActionView::Finish {
                outcome: Err(error@),
            },
            MintAction::Unexpected => MintActionView::Unexpected,
        }
    }
}

/// The end of a mint with the given outcome.
pub open spec fn finished(outcome: Result<Seq<u8>, MintErrorView>) -> (
    MintStateView,
    MintActionView,
) {
    (MintStateView::Done, MintActionView::Finish { outcome })
}

/// What follows once everything the batch depends on is known: the batch is
/// handed over for submission, or the mint ends with the failure of the
/// whitelist check or of a derivation. Nothing has been sent before this
/// point.
pub open spec fn submission(ctx: MintContext, min_rent: u64, read: Option<AccountReadView>) -> (
    MintStateView,
    MintActionView,
) {
    match additional_accounts(ctx, read) {
        Err(error) => finished(Err(error)),
        Ok(extra) => match assembled(ctx, min_rent, extra) {
            Some(done) => (
                MintStateView::AwaitingSubmission { metadata: done.metadata },
                MintActionView::Submit { batch: done.batch },
            ),
            None => finished(Err(MintErrorView::NoProgramAddress)),
        },
    }
}

/// What follows the rent answer: where the sale burns a whitelist token per
/// mint, the payer's whitelist token account is read first; elsewhere the
/// batch is assembled at once.
pub open spec fn after_rent(ctx: MintContext, min_rent: u64) -> (MintStateView, MintActionView) {
    if burns_whitelist_token(ctx.sale) {
        match whitelist_token_account(ctx) {
            Some(account) => (
                MintStateView::AwaitingWhitelistToken { min_rent },
                MintActionView::ReadWhitelistToken { account },
            ),
            None => finished(Err(MintErrorView::NoProgramAddress)),
        }
    } else {
        submission(ctx, min_rent, None)
    }
}

/// What follows reading the metadata back: a transaction whose item exists
/// succeeded; one whose item cannot be read was accepted and then rejected
/// from within, which is reported with its signature and where to look it
/// up.
pub open spec fn verification(ctx: MintContext, signature: Seq<u8>, read: AccountReadView) -> (
    MintStateView,
    MintActionView,
) {
    match read {
        AccountReadView::Found(_) => finished(Ok(signature)),
        _ => finished(
            Err(
                MintErrorView::LikelyBotTaxFailure {
                    signature,
                    reference: explorer_reference(signature, ctx.config.cluster),
                },
            ),
        ),
    }
}

/// One step of a mint: from the state and the event to the next state and
/// the action to perform. The caller is the sale's authority exactly when
/// the payer's address is the authority's. A refusal ends the mint before
/// anything is asked of the ledger; a failed read or a failed submission
/// ends it with the remote error's text; nothing is ever retried.
pub open spec fn mint_step(ctx: MintContext, state: MintStateView, event: MintEventView) -> (
    MintStateView,
    MintActionView,
) {
    match (state, event) {
        (MintStateView::Start, MintEventView::Started { now }) => {
            match eligibility(ctx.sale, now, ctx.sale.authority@ == ctx.payer@) {
                Eligibility::Allowed => (
                    MintStateView::AwaitingRent,
                    MintActionView::FetchMinimumRent { space: MINT_ACCOUNT_SPACE },
                ),
                Eligibility::Denied(reason) => finished(Err(denial(reason))),
            }
        },
        (MintStateView::AwaitingRent, MintEventView::MinimumRent(Ok(min_rent))) => after_rent(
            ctx,
            min_rent,
        ),
        (MintStateView::AwaitingRent, MintEventView::MinimumRent(Err(text))) => finished(
            Err(MintErrorView::RemoteReadError { detail: text }),
        ),
        (
            MintStateView::AwaitingWhitelistToken { min_rent },
            MintEventView::AccountRead(read),
        ) => submission(ctx, min_rent, Some(read)),
        (
            MintStateView::AwaitingSubmission { metadata },
            MintEventView::Submitted(Ok(signature)),
        ) => (
            MintStateView::AwaitingVerification { signature },
            MintActionView::ReadMetadata { account: metadata },
        ),
        (MintStateView::AwaitingSubmission { .. }, MintEventView::Submitted(Err(text))) => {
            finished(Err(MintErrorView::RemoteSubmitError { detail: text }))
        },
        (MintStateView::AwaitingVerification { signature }, MintEventView::AccountRead(read)) => {
            verification(ctx, signature, read)
        },
        _ => (state, MintActionView::Unexpected),
    }
}

/// Ends a mint with a failure.
fn fail(error: MintError) -> (next: (MintState, MintAction))
    ensures
        (next.0@, next.1@) == finished(Err(error@)),
{
    (MintState::Done, MintAction::Finish { outcome: Err(error) })
}

/// Assembles the batch and hands it over, or ends the mint.
fn submit(ctx: &MintContext, min_rent: u64, read: Option<&AccountRead>) -> (next: (
    MintState,
    MintAction,
))
    ensures
        (next.0@, next.1@) == submission(*ctx, min_rent, read_view(read)),
{
    let extra = match collect_additional_accounts(ctx, read) {
        Ok(extra) => extra,
        Err(error) => {
            return fail(error);
        },
    };
    match assemble(ctx, min_rent, extra) {
        Ok(done) => (
            MintState::AwaitingSubmission { metadata: done.metadata },
            MintAction::Submit { batch: done.batch },
        ),
        Err(error) => fail(error),
    }
}

/// Advances a mint by one step. The caller begins with `MintState::Start`
/// and `MintEvent::Started`, performs each action it is given, reports what
/// came of it, and stops at `MintAction::Finish`.
pub fn mint(ctx: &MintContext, state: MintState, event: MintEvent) -> (next: (
    MintState,
    MintAction,
))
    ensures
        (next.0@, next.1@) == mint_step(*ctx, state@, event@),
{
    match (state, event) {
        (MintState::Start, MintEvent::Started { now }) => {
            let caller_is_authority = ctx.sale.authority.same(&ctx.payer);
            match check_eligibility(&ctx.sale, now, caller_is_authority) {
                Eligibility::Allowed => (
                    MintState::AwaitingRent,
                    MintAction::FetchMinimumRent { space: MINT_ACCOUNT_SPACE },
                ),
                Eligibility::Denied(reason) => fail(MintError::from_denial(reason)),
            }
        },
        (MintState::AwaitingRent, MintEvent::MinimumRent(Ok(min_rent))) => {
            let burned = match &ctx.sale.whitelist {
                Some(settings) => match settings.mode {
                    WhitelistMode::BurnEveryTime => Some(settings.mint),
                    WhitelistMode::NeverBurn => None,
                },
                None => None,
            };
            match burned {
                Some(whitelist_mint) => {
                    match get_associated_token_address(&ctx.payer, &whitelist_mint) {
                        Some(account) => (
                            MintState::AwaitingWhitelistToken { min_rent },
                            MintAction::ReadWhitelistToken { account },
                        ),
                        None => fail(MintError::NoProgramAddress),
                    }
                },
                None => submit(ctx, min_rent, None),
            }
        },
        (MintState::AwaitingRent, MintEvent::MinimumRent(Err(text))) => fail(
            MintError::RemoteReadError { detail: text },
        ),
        (MintState::AwaitingWhitelistToken { min_rent }, MintEvent::AccountRead(read)) => submit(
            ctx,
            min_rent,
            Some(&read),
        ),
        (MintState::AwaitingSubmission { metadata }, MintEvent::Submitted(Ok(signature))) => (
            MintState::AwaitingVerification { signature },
            MintAction::ReadMetadata { account: metadata },
        ),
        (MintState::AwaitingSubmission { .. }, MintEvent::Submitted(Err(text))) => fail(
            MintError::RemoteSubmitError { detail: text },
        ),
        (MintState::AwaitingVerification { signature }, MintEvent::AccountRead(read)) => {
            match read {
                AccountRead::Found(_) => (
                    MintState::Done,
                    MintAction::Finish { outcome: Ok(signature) },
                ),
                _ => {
                    let reference = explorer_link(&signature, ctx.config.cluster);
                    fail(MintError::LikelyBotTaxFailure { signature, reference })
                },
            }
        },
        (state, _) => (state, MintAction::Unexpected),
    }
}

/// A refusal ends the mint at once: the first step of a caller who is not
/// eligible asks nothing of the ledger and finishes with the failure that
/// names the reason.
pub proof fn refusal_ends_the_mint(ctx: MintContext, now: i64, reason: DenyReason)
    requires
        eligibility(ctx.sale, now, ctx.sale.authority@ == ctx.payer@) == Eligibility::Denied(
            reason,
        ),
    ensures
        mint_step(ctx, MintStateView::Start, MintEventView::Started { now }) == finished(
            Err(denial(reason)),
        ),
{
}

/// After an accepted transaction, metadata that can be read means success:
/// the mint finishes with the transaction's signature.
pub proof fn readable_metadata_is_success(ctx: MintContext, signature: Seq<u8>, data: Seq<u8>)
    ensures
        mint_step(
            ctx,
            MintStateView::AwaitingVerification { signature },
            MintEventView::AccountRead(AccountReadView::Found(data)),
        ) == finished(Ok(signature)),
{
}

/// After an accepted transaction, metadata that is missing or cannot be
/// read is never taken for success: the mint finishes with
/// `LikelyBotTaxFailure`, which carries the transaction's signature.
pub proof fn unreadable_metadata_is_a_failure(
    ctx: MintContext,
    signature: Seq<u8>,
    read: AccountReadView,
)
    requires
        !(read is Found),
    ensures
        mint_step(
            ctx,
            MintStateView::AwaitingVerification { signature },
            MintEventView::AccountRead(read),
        ).1 matches MintActionView::Finish {
            outcome: Err(MintErrorView::LikelyBotTaxFailure { signature: carried, .. }),
        } && carried == signature,
{
}

} // verus!
