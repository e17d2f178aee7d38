//! The instructions of one mint, in the order the ledger needs them.

use vstd::prelude::*;
use vstd::pervasive::unreached;
use crate::address::{
    Address, CLOCK_SYSVAR, INSTRUCTIONS_SYSVAR, RECENT_BLOCKHASHES_SYSVAR, RENT_SYSVAR,
    SYSTEM_PROGRAM, TOKEN_PROGRAM,
};
use crate::context::MintContext;
use crate::error::{MintError, MintErrorView};
use crate::instruction::{
    account_creation, addresses_view, associated_account_creation,
    create_account_instruction, create_associated_account_instruction,
    initialize_mint_instruction, instructions_view, metas_view, mint_initialization, mint_nft_account_metas,
    mint_nft_accounts, mint_nft_data, mint_nft_instruction_data, mint_to_instruction, minting,
    set_collection_account_metas, set_collection_accounts, set_collection_data,
    set_collection_instruction_data, writable, AccountMeta, AccountMetaView, Instruction,
    InstructionView,
};
use crate::pda::{
    associated_token_address, collection_authority_pda, creator_pda,
    find_candy_machine_creator_pda, find_collection_authority_account, find_master_edition_pda,
    find_metadata_pda, get_associated_token_address, master_edition_pda, metadata_pda,
};
use crate::sale::CollectionLink;

verus! {

/// The size in bytes of a token mint's account.
pub const MINT_ACCOUNT_SPACE: u64 = 82;

/// An ordered list of instructions and the accounts whose keys must sign
/// the transaction that carries them.
#[derive(Clone, Debug, PartialEq, Eq)]
pub struct InstructionBatch {
    pub instructions: Vec<Instruction>,
    pub signers: Vec<Address>,
}

/// A batch with its addresses as bytes.
pub struct InstructionBatchView {
    pub instructions: Seq<InstructionView>,
    pub signers: Seq<Seq<u8>>,
}

impl View for InstructionBatch {
    type V = InstructionBatchView;

    open spec fn view(&self) -> InstructionBatchView {
        InstructionBatchView {
            instructions: instructions_view(self.instructions@),
            signers: addresses_view(self.signers@),
        }
    }
}

/// An assembled batch together with the address of the new item's metadata
/// account, which is read back after submission.
#[derive(Clone, Debug, PartialEq, Eq)]
pub struct Assembled {
    pub batch: InstructionBatch,
    pub metadata: Address,
}

/// An assembled batch with its addresses as bytes.
pub struct AssembledView {
    pub batch: InstructionBatchView,
    pub metadata: Seq<u8>,
}

impl View for Assembled {
    type V = AssembledView;

    open spec fn view(&self) -> AssembledView {
        AssembledView { batch: self.batch@, metadata: self.metadata@ }
    }
}

/// The four instructions that set the new token up, in order: create the
/// mint account with room for a mint and enough lamports to be exempt from
/// rent; initialize it as a mint without decimals whose mint and freeze
/// authority is the payer; create the receiver's token account for it; mint
/// exactly one unit into that account.
pub open spec fn token_setup(ctx: MintContext, min_rent: u64, receiver_account: Seq<u8>) -> Seq<
    InstructionView,
> {
    seq![
        account_creation(ctx.payer@, ctx.mint@, min_rent, MINT_ACCOUNT_SPACE, TOKEN_PROGRAM@),
        mint_initialization(TOKEN_PROGRAM@, ctx.mint@, ctx.payer@, Some(ctx.payer@), 0),
        associated_account_creation(ctx.payer@, receiver_account, ctx.request.receiver@, ctx.mint@),
        minting(TOKEN_PROGRAM@, ctx.mint@, receiver_account, ctx.payer@, 1),
    ]
}

/// The addresses of the mint instruction's own accounts, in the order of
/// its account list. The payer is also the mint authority and the update
/// authority.
pub open spec fn mint_nft_keys(
    ctx: MintContext,
    creator: Seq<u8>,
    metadata: Seq<u8>,
    master_edition: Seq<u8>,
) -> Seq<Seq<u8>> {
    seq![
        ctx.request.sale_id@,
        creator,
        ctx.payer@,
        ctx.sale.wallet@,
        metadata,
        ctx.mint@,
        ctx.payer@,
        ctx.payer@,
        master_edition,
        ctx.config.token_metadata_program@,
        TOKEN_PROGRAM@,
        SYSTEM_PROGRAM@,
        RENT_SYSVAR@,
        CLOCK_SYSVAR@,
        RECENT_BLOCKHASHES_SYSVAR@,
        INSTRUCTIONS_SYSVAR@,
    ]
}

/// The candy-machine program's mint instruction: its own accounts, then the
/// additional ones attached to the same instruction, and the creator's bump
/// seed as its argument.
pub open spec fn mint_instruction(
    ctx: MintContext,
    creator: (Seq<u8>, u8),
    metadata: Seq<u8>,
    master_edition: Seq<u8>,
    extra: Seq<AccountMetaView>,
) -> InstructionView {
    InstructionView {
        program_id: ctx.config.candy_machine_program@,
        accounts: mint_nft_accounts(mint_nft_keys(ctx, creator.0, metadata, master_edition))
            + extra,
        data: mint_nft_data(creator.1),
    }
}

/// The position of the collection's metadata in the accounts of the
/// set-collection instruction.
pub const COLLECTION_METADATA_INDEX: usize = 7;

/// The addresses of the set-collection instruction's accounts, in the order
/// of its account list.
pub open spec fn set_collection_keys(
    ctx: MintContext,
    link: CollectionLink,
    metadata: Seq<u8>,
    collection_metadata: Seq<u8>,
    collection_edition: Seq<u8>,
    authority_record: Seq<u8>,
) -> Seq<Seq<u8>> {
    seq![
        ctx.request.sale_id@,
        metadata,
        ctx.payer@,
        link.address@,
        ctx.config.token_metadata_program@,
        INSTRUCTIONS_SYSVAR@,
        link.mint@,
        collection_metadata,
        collection_edition,
        ctx.sale.authority@,
        authority_record,
    ]
}

/// The instruction that puts the new item into the sale's collection, or
/// `None` where one of its addresses cannot be derived. Its accounts are
/// those of the program's account list, but for the collection's metadata,
/// which is made writable so that sized collections can count the item.
pub open spec fn collection_instruction(ctx: MintContext, link: CollectionLink, metadata: Seq<u8>)
    -> Option<InstructionView> {
    let program = ctx.config.token_metadata_program@;
    match (
        collection_authority_pda(link.mint@, link.address@, program),
        metadata_pda(link.mint@, program),
        master_edition_pda(link.mint@, program),
    ) {
        (Some(record), Some(collection_metadata), Some(collection_edition)) => Some(
            InstructionView {
                program_id: ctx.config.candy_machine_program@,
                accounts: set_collection_accounts(
                    set_collection_keys(
                        ctx,
                        link,
                        metadata,
                        collection_metadata.0,
                        collection_edition.0,
                        record.0,
                    ),
                ).update(COLLECTION_METADATA_INDEX as int, writable(collection_metadata.0)),
                data: set_collection_data(),
            },
        ),
        _ => None,
    }
}

/// What follows the mint instruction: the set-collection instruction where
/// the sale has a collection, nothing where it has none.
pub open spec fn collection_part(ctx: MintContext, metadata: Seq<u8>) -> Option<
    Seq<InstructionView>,
> {
    match ctx.collection {
        None => Some(Seq::empty()),
        Some(link) => match collection_instruction(ctx, link, metadata) {
            Some(ix) => Some(seq![ix]),
            None => None,
        },
    }
}

/// The batch of one mint, or `None` where an address cannot be derived: the
/// token setup, the mint instruction with `extra` attached, then the
/// collection part; signed by the payer and by the key of the new mint.
pub open spec fn assembled(ctx: MintContext, min_rent: u64, extra: Seq<AccountMetaView>) -> Option<
    AssembledView,
> {
    match (
        associated_token_address(ctx.request.receiver@, ctx.mint@),
        metadata_pda(ctx.mint@, ctx.config.token_metadata_program@),
        master_edition_pda(ctx.mint@, ctx.config.token_metadata_program@),
        creator_pda(ctx.request.sale_id@, ctx.config.candy_machine_program@),
    ) {
        (Some(receiver_account), Some(metadata), Some(edition), Some(creator)) => {
            match collection_part(ctx, metadata.0) {
                Some(tail) => Some(
                    AssembledView {
                        batch: InstructionBatchView {
                            instructions: token_setup(ctx, min_rent, receiver_account).push(
                                mint_instruction(ctx, creator, metadata.0, edition.0, extra),
                            ) + tail,
                            signers: seq![ctx.payer@, ctx.mint@],
                        },
                        metadata: metadata.0,
                    },
                ),
                None => None,
            }
        },
        _ => None,
    }
}

/// Builds the four instructions that set the new token up.
fn build_token_setup(ctx: &MintContext, min_rent: u64, receiver_account: &Address) -> (setup: Vec<
    Instruction,
>)
    requires
        associated_token_address(ctx.request.receiver@, ctx.mint@) == Some(receiver_account@),
    ensures
        instructions_view(setup@) == token_setup(
            *ctx,
            min_rent,
            receiver_account@,
        ),
{
    let token_program = Address::new(TOKEN_PROGRAM);
    let create = create_account_instruction(
        &ctx.payer,
        &ctx.mint,
        min_rent,
        MINT_ACCOUNT_SPACE,
        &token_program,
    );
    let initialize = match initialize_mint_instruction(
        &token_program,
        &ctx.mint,
        &ctx.payer,
        Some(&ctx.payer),
        0,
    ) {
        Some(ix) => ix,
        None => unreached(),
    };
    let create_account = create_associated_account_instruction(
        &ctx.payer,
        &ctx.request.receiver,
        &ctx.mint,
    );
    let mint_to = match mint_to_instruction(
        &token_program,
        &ctx.mint,
        receiver_account,
        &ctx.payer,
        1,
    ) {
        Some(ix) => ix,
        None => unreached(),
    };
    let mut setup: Vec<Instruction> = Vec::new();
    setup.push(create);
    setup.push(initialize);
    setup.push(create_account);
    setup.push(mint_to);
    assert(instructions_view(setup@) =~= token_setup(
        *ctx,
        min_rent,
        receiver_account@,
    ));
    setup
}

/// Builds the candy-machine program's mint instruction.
fn build_mint_instruction(
    ctx: &MintContext,
    creator: &Address,
    creator_bump: u8,
    metadata: &Address,
    master_edition: &Address,
    extra: Vec<AccountMeta>,
) -> (ix: Instruction)
    ensures
        ix@ == mint_instruction(
            *ctx,
            (creator@, creator_bump),
            metadata@,
            master_edition@,
            metas_view(extra@),
        ),
{
    let keys: [Address; 16] = [
        ctx.request.sale_id,
        *creator,
        ctx.payer,
        ctx.sale.wallet,
        *metadata,
        ctx.mint,
        ctx.payer,
        ctx.payer,
        *master_edition,
        ctx.config.token_metadata_program,
        Address::new(TOKEN_PROGRAM),
        Address::new(SYSTEM_PROGRAM),
        Address::new(RENT_SYSVAR),
        Address::new(CLOCK_SYSVAR),
        Address::new(RECENT_BLOCKHASHES_SYSVAR),
        Address::new(INSTRUCTIONS_SYSVAR),
    ];
    assert(addresses_view(keys@) =~= mint_nft_keys(*ctx, creator@, metadata@, master_edition@));
    let mut accounts = mint_nft_account_metas(&keys);
    let ghost own = metas_view(accounts@);
    let ghost added = metas_view(extra@);
    let mut extra = extra;
    accounts.append(&mut extra);
    assert(metas_view(accounts@) =~= own + added);
    let data = mint_nft_instruction_data(creator_bump);
    Instruction { program_id: ctx.config.candy_machine_program, accounts, data }
}

/// Builds the instruction that puts the new item into the sale's
/// collection, or nothing where one of its addresses cannot be derived.
fn build_collection_instruction(ctx: &MintContext, link: &CollectionLink, metadata: &Address) -> (
    built: Option<Instruction>)
    ensures
        match built {
            Some(ix) => collection_instruction(*ctx, *link, metadata@) == Some(ix@),
            None => collection_instruction(*ctx, *link, metadata@) is None,
        },
{
    let program = &ctx.config.token_metadata_program;
    let record = match find_collection_authority_account(&link.mint, &link.address, program) {
        Some((record, _)) => record,
        None => {
            return None;
        },
    };
    let collection_metadata = match find_metadata_pda(&link.mint, program) {
        Some(address) => address,
        None => {
            return None;
        },
    };
    let collection_edition = match find_master_edition_pda(&link.mint, program) {
        Some(address) => address,
        None => {
            return None;
        },
    };
    let keys: [Address; 11] = [
        ctx.request.sale_id,
        *metadata,
        ctx.payer,
        link.address,
        ctx.config.token_metadata_program,
        Address::new(INSTRUCTIONS_SYSVAR),
        link.mint,
        collection_metadata,
        collection_edition,
        ctx.sale.authority,
        record,
    ];
    assert(addresses_view(keys@) =~= set_collection_keys(
        *ctx,
        *link,
        metadata@,
        collection_metadata@,
        collection_edition@,
        record@,
    ));
    let mut accounts = set_collection_account_metas(&keys);
    let ghost listed = metas_view(accounts@);
    assert(accounts@.len() == listed.len());
    accounts.set(COLLECTION_METADATA_INDEX, AccountMeta::writable(collection_metadata));
    assert(metas_view(accounts@) =~= listed.update(
        COLLECTION_METADATA_INDEX as int,
        writable(collection_metadata@),
    ));
    let data = set_collection_instruction_data();
    Some(Instruction { program_id: ctx.config.candy_machine_program, accounts, data })
}

/// Assembles the batch of one mint. `min_rent` is the balance that exempts
/// an account of `MINT_ACCOUNT_SPACE` bytes from rent; `extra` are the
/// account references that the whitelist and the payment token add, which
/// are attached to the mint instruction itself. The only failure is an
/// address that cannot be derived.
pub fn assemble(ctx: &MintContext, min_rent: u64, extra: Vec<AccountMeta>) -> (built: Result<
    Assembled,
    MintError,
>)
    ensures
        match built {
            Ok(done) => assembled(*ctx, min_rent, metas_view(extra@)) == Some(done@),
            Err(error) => assembled(*ctx, min_rent, metas_view(extra@)) is None && error@
                == MintErrorView::NoProgramAddress,
        },
{
    let receiver_account = match get_associated_token_address(&ctx.request.receiver, &ctx.mint) {
        Some(address) => address,
        None => {
            return Err(MintError::NoProgramAddress);
        },
    };
    let metadata = match find_metadata_pda(&ctx.mint, &ctx.config.token_metadata_program) {
        Some(address) => address,
        None => {
            return Err(MintError::NoProgramAddress);
        },
    };
    let edition = match find_master_edition_pda(&ctx.mint, &ctx.config.token_metadata_program) {
        Some(address) => address,
        None => {
            return Err(MintError::NoProgramAddress);
        },
    };
    let (creator, creator_bump) = match find_candy_machine_creator_pda(
        &ctx.request.sale_id,
        &ctx.config.candy_machine_program,
    ) {
        Some(found) => found,
        None => {
            return Err(MintError::NoProgramAddress);
        },
    };
    let mut instructions = build_token_setup(ctx, min_rent, &receiver_account);
    let ghost setup = token_setup(*ctx, min_rent, receiver_account@);
    let ghost extra_view = metas_view(extra@);
    let mint_ix = build_mint_instruction(ctx, &creator, creator_bump, &metadata, &edition, extra);
    instructions.push(mint_ix);
    assert(instructions_view(instructions@) =~= setup.push(
        mint_instruction(*ctx, (creator@, creator_bump), metadata@, edition@, extra_view),
    ));
    let ghost head = instructions_view(instructions@);
    if let Some(link) = &ctx.collection {
        match build_collection_instruction(ctx, link, &metadata) {
            Some(ix) => {
                instructions.push(ix);
                assert(instructions_view(instructions@) =~= head + seq![
                    ix@,
                ]);
            },
            None => {
                return Err(MintError::NoProgramAddress);
            },
        }
    } else {
        assert(head + Seq::<InstructionView>::empty() =~= head);
    }
    let mut signers: Vec<Address> = Vec::new();
    signers.push(ctx.payer);
    signers.push(ctx.mint);
    assert(addresses_view(signers@) =~= seq![ctx.payer@, ctx.mint@]);
    Ok(Assembled { batch: InstructionBatch { instructions, signers }, metadata })
}

/// Whether an instruction carries the tag of the candy-machine program's
/// mint instruction: its data is that tag and one more byte.
pub open spec fn carries_mint_tag(ix: InstructionView) -> bool {
    ix.data.len() == 9 && ix.data == mint_nft_data(ix.data[8])
}

/// The mint instruction never comes before the receiver's token account is
/// created and the token is minted into it: in every assembled batch the
/// account is created by the third instruction, the token is minted by the
/// fourth, and the fifth instruction is the only one that carries the mint
/// instruction's tag.
pub proof fn mint_follows_token_setup(ctx: MintContext, min_rent: u64, extra: Seq<AccountMetaView>)
    requires
        assembled(ctx, min_rent, extra) is Some,
    ensures
        ({
            let batch = assembled(ctx, min_rent, extra)->0.batch.instructions;
            let account = associated_token_address(ctx.request.receiver@, ctx.mint@)->0;
            &&& 5 <= batch.len() <= 6
            &&& batch[2] == associated_account_creation(
                ctx.payer@,
                account,
                ctx.request.receiver@,
                ctx.mint@,
            )
            &&& batch[3] == minting(TOKEN_PROGRAM@, ctx.mint@, account, ctx.payer@, 1)
            &&& batch[4].program_id == ctx.config.candy_machine_program@
            &&& carries_mint_tag(batch[4])
            &&& forall|i: int| 0 <= i < batch.len() && carries_mint_tag(#[trigger] batch[i]) ==> i == 4
        }),
{
    vstd::bytes::lemma_auto_spec_u32_to_from_le_bytes();
    vstd::bytes::lemma_auto_spec_u64_to_from_le_bytes();
    let batch = assembled(ctx, min_rent, extra)->0.batch.instructions;
    let account = associated_token_address(ctx.request.receiver@, ctx.mint@)->0;
    let setup = token_setup(ctx, min_rent, account);
    assert(batch[0] == setup[0]);
    assert(batch[1] == setup[1]);
    assert(batch[2] == setup[2]);
    assert(batch[3] == setup[3]);
    assert(batch[0].data.len() == 52);
    assert(batch[1].data.len() == 67);
    assert(batch[2].data.len() == 0);
    assert(batch[3].data[0] == 7u8);
    assert(mint_nft_data(batch[4].data[8]) =~= batch[4].data);
    if batch.len() == 6 {
        assert(batch[5].data.len() == 8);
    }
}

} // verus!
