//! The accounts that a whitelist and a payment token add to a mint, and
//! whether the payer's whitelist token allows it.

use vstd::prelude::*;
use vstd::bytes::spec_u64_from_le_bytes;
use solana_program::program_pack::Pack;
use crate::address::Address;
use crate::context::{read_view, AccountRead, AccountReadView, MintContext};
use crate::error::{MintError, MintErrorView};
use crate::instruction::{metas_view, signer, writable, AccountMeta, AccountMetaView};
use crate::pda::{associated_token_address, get_associated_token_address};
use crate::sale::{SaleConfig, WhitelistMode};

verus! {

/// The size in bytes of a token account.
pub const TOKEN_ACCOUNT_SPACE: usize = 165;

/// Whether the four bytes at `at` are the tag of an optional field: 0 for
/// an absent value or 1 for a present one, little-endian.
pub open spec fn is_option_tag(data: Seq<u8>, at: int) -> bool {
    &&& (data[at] == 0 || data[at] == 1)
    &&& data[at + 1] == 0
    &&& data[at + 2] == 0
    &&& data[at + 3] == 0
}

/// Whether `data` is a token account as the token program lays it out: the
/// mint and the owner, 32 bytes each; the amount, 8 bytes; the optional
/// delegate, a tag and 32 bytes; the state, one byte from 0 to 2; the
/// optional native reserve, a tag and 8 bytes; the delegated amount,
/// 8 bytes; the optional close authority, a tag and 32 bytes.
pub open spec fn is_token_account(data: Seq<u8>) -> bool {
    &&& data.len() == TOKEN_ACCOUNT_SPACE
    &&& is_option_tag(data, 72)
    &&& data[108] <= 2
    &&& is_option_tag(data, 109)
    &&& is_option_tag(data, 129)
}

/// The balance that a token account's data holds: the eight bytes behind
/// the mint and the owner, little-endian. `None` where the data is no token
/// account.
pub open spec fn token_account_amount(data: Seq<u8>) -> Option<u64> {
    if is_token_account(data) {
        Some(spec_u64_from_le_bytes(data.subrange(64, 72)))
    } else {
        None
    }
}

/// Calls `Account::unpack_unchecked` of `spl_token` and takes the amount of
/// what it unpacked. The call fails on data of another length than a token
/// account's, on an option tag other than 0 or 1, and on an unknown state;
/// it does not ask whether the account is initialized.
#[verifier::external_body]
pub(crate) fn unpack_token_amount(data: &Vec<u8>) -> (amount: Option<u64>)
    ensures
        amount == token_account_amount(data@),
{
    spl_token::state::Account::unpack_unchecked(data.as_slice()).ok().map(|account| account.amount)
}

/// What the payer's whitelist token account allows, in a sale that burns a
/// token per mint: a positive balance lets the mint go on; a balance of zero
/// is `NoWhitelistToken`; an account that was not read, could not be read,
/// is missing, is empty or holds no token account is
/// `UninitializedWhitelistToken`.
pub open spec fn whitelist_token_verdict(account: Seq<u8>, read: Option<AccountReadView>) -> Result<
    (),
    MintErrorView,
> {
    match read {
        Some(AccountReadView::Found(data)) => if data.len() == 0 {
            Err(MintErrorView::UninitializedWhitelistToken { account })
        } else {
            match token_account_amount(data) {
                Some(amount) => if amount > 0 {
                    Ok(())
                } else {
                    Err(MintErrorView::NoWhitelistToken)
                },
                None => Err(MintErrorView::UninitializedWhitelistToken { account }),
            }
        },
        _ => Err(MintErrorView::UninitializedWhitelistToken { account }),
    }
}

/// The account references that the whitelist adds to the mint instruction:
/// none without a whitelist; else the payer's whitelist token account,
/// writable, followed, where the token is burned, by the whitelist mint,
/// writable, and the payer as signer.
pub open spec fn whitelist_accounts(ctx: MintContext, read: Option<AccountReadView>) -> Result<
    Seq<AccountMetaView>,
    MintErrorView,
> {
    match ctx.sale.whitelist {
        None => Ok(Seq::empty()),
        Some(settings) => match associated_token_address(ctx.payer@, settings.mint@) {
            None => Err(MintErrorView::NoProgramAddress),
            Some(account) => match settings.mode {
                WhitelistMode::NeverBurn => Ok(seq![writable(account)]),
                WhitelistMode::BurnEveryTime => match whitelist_token_verdict(account, read) {
                    Ok(()) => Ok(
                        seq![writable(account), writable(settings.mint@), signer(ctx.payer@)],
                    ),
                    Err(error) => Err(error),
                },
            },
        },
    }
}

/// The account references that payment in a token adds: none where the sale
/// is paid in lamports; else the payer's account for that token, writable,
/// and the payer as signer.
pub open spec fn payment_accounts(ctx: MintContext) -> Result<Seq<AccountMetaView>, MintErrorView> {
    match ctx.sale.payment_token_mint {
        None => Ok(Seq::empty()),
        Some(token) => match associated_token_address(ctx.payer@, token@) {
            None => Err(MintErrorView::NoProgramAddress),
            Some(account) => Ok(seq![writable(account), signer(ctx.payer@)]),
        },
    }
}

/// The account references that follow the mint instruction's own: those of
/// the whitelist, then those of the payment token. A failure of the
/// whitelist comes first.
pub open spec fn additional_accounts(ctx: MintContext, read: Option<AccountReadView>) -> Result<
    Seq<AccountMetaView>,
    MintErrorView,
> {
    match whitelist_accounts(ctx, read) {
        Err(error) => Err(error),
        Ok(first) => match payment_accounts(ctx) {
            Err(error) => Err(error),
            Ok(second) => Ok(first + second),
        },
    }
}

/// Whether the sale burns a whitelist token per mint, so that the payer's
/// whitelist token account has to be read before the batch is assembled.
pub open spec fn burns_whitelist_token(sale: SaleConfig) -> bool {
    sale.whitelist matches Some(settings) && settings.mode == WhitelistMode::BurnEveryTime
}

/// The payer's whitelist token account in a sale that burns one per mint.
pub open spec fn whitelist_token_account(ctx: MintContext) -> Option<Seq<u8>> {
    match ctx.sale.whitelist {
        Some(settings) => associated_token_address(ctx.payer@, settings.mint@),
        None => None,
    }
}

/// Decides what the payer's whitelist token account allows.
pub fn check_whitelist_token(account: &Address, read: Option<&AccountRead>) -> (verdict: Result<
    (),
    MintError,
>)
    ensures
        match verdict {
            Ok(()) => whitelist_token_verdict(account@, read_view(read)) == Ok::<
                (),
                MintErrorView,
            >(()),
            Err(error) => whitelist_token_verdict(account@, read_view(read)) == Err::<
                (),
                MintErrorView,
            >(error@),
        },
{
    match read {
        Some(AccountRead::Found(data)) => {
            if data.len() == 0 {
                return Err(MintError::UninitializedWhitelistToken { account: *account });
            }
            match unpack_token_amount(data) {
                Some(amount) => {
                    if amount > 0 {
                        Ok(())
                    } else {
                        Err(MintError::NoWhitelistToken)
                    }
                },
                None => Err(MintError::UninitializedWhitelistToken { account: *account }),
            }
        },
        _ => Err(MintError::UninitializedWhitelistToken { account: *account }),
    }
}

/// The view of a list of account references or of the failure in its place.
pub open spec fn metas_result_view(result: Result<Vec<AccountMeta>, MintError>) -> Result<
    Seq<AccountMetaView>,
    MintErrorView,
> {
    match result {
        Ok(metas) => Ok(metas_view(metas@)),
        Err(error) => Err(error@),
    }
}

/// Collects the account references that the whitelist and the payment token
/// add to the mint instruction. `whitelist_token` is what reading the
/// payer's whitelist token account gave; it matters only where the sale
/// burns a token per mint.
pub fn collect_additional_accounts(ctx: &MintContext, whitelist_token: Option<&AccountRead>) -> (
    collected: Result<Vec<AccountMeta>, MintError>)
    ensures
        metas_result_view(collected) == additional_accounts(*ctx, read_view(whitelist_token)),
{
    let mut metas: Vec<AccountMeta> = Vec::new();
    if let Some(settings) = &ctx.sale.whitelist {
        let account = match get_associated_token_address(&ctx.payer, &settings.mint) {
            Some(account) => account,
            None => {
                return Err(MintError::NoProgramAddress);
            },
        };
        metas.push(AccountMeta::writable(account));
        match settings.mode {
            WhitelistMode::BurnEveryTime => {
                match check_whitelist_token(&account, whitelist_token) {
                    Ok(()) => {
                        metas.push(AccountMeta::writable(settings.mint));
                        metas.push(AccountMeta::signer(ctx.payer));
                    },
                    Err(error) => {
                        return Err(error);
                    },
                }
            },
            WhitelistMode::NeverBurn => {},
        }
    }
    proof {
        assert(whitelist_accounts(*ctx, read_view(whitelist_token)) matches Ok(first)
            && first =~= metas_view(metas@));
    }
    let ghost first = metas_view(metas@);
    if let Some(token) = &ctx.sale.payment_token_mint {
        let account = match get_associated_token_address(&ctx.payer, token) {
            Some(account) => account,
            None => {
                return Err(MintError::NoProgramAddress);
            },
        };
        metas.push(AccountMeta::writable(account));
        metas.push(AccountMeta::signer(ctx.payer));
    }
    proof {
        assert(payment_accounts(*ctx) matches Ok(second) && first + second =~= metas_view(
            metas@,
        ));
    }
    Ok(metas)
}

/// In a sale that burns a whitelist token per mint, a payer whose whitelist
/// token account holds a balance of zero never gets a batch: collecting the
/// additional accounts fails, and with `NoWhitelistToken` wherever the
/// account's address can be derived at all.
pub proof fn empty_whitelist_account_is_refused(ctx: MintContext, data: Seq<u8>)
    requires
        burns_whitelist_token(ctx.sale),
        token_account_amount(data) == Some(0u64),
    ensures
        additional_accounts(ctx, Some(AccountReadView::Found(data))) is Err,
        whitelist_token_account(ctx) is Some ==> additional_accounts(
            ctx,
            Some(AccountReadView::Found(data)),
        ) == Err::<Seq<AccountMetaView>, MintErrorView>(MintErrorView::NoWhitelistToken),
{
}

} // verus!
