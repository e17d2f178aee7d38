//! Instructions as plain data, and the instructions of the ledger's own
//! programs as their client libraries build them.

use vstd::prelude::*;
use vstd::bytes::{spec_u32_to_le_bytes, spec_u64_to_le_bytes};
use anchor_lang::{InstructionData, ToAccountMetas};
use solana_program::pubkey::Pubkey;
use crate::address::{
    Address, ASSOCIATED_TOKEN_PROGRAM, RENT_SYSVAR, SYSTEM_PROGRAM, TOKEN_PROGRAM,
};
use crate::pda::associated_token_address;

verus! {

/// One account that an instruction touches, and how.
#[derive(Clone, Copy, Debug, PartialEq, Eq)]
pub struct AccountMeta {
    pub pubkey: Address,
    /// Whether the transaction must carry this account's signature.
    pub is_signer: bool,
    /// Whether the instruction may change the account.
    pub is_writable: bool,
}

/// An account reference with the address as its bytes.
pub struct AccountMetaView {
    pub pubkey: Seq<u8>,
    pub is_signer: bool,
    pub is_writable: bool,
}

impl View for AccountMeta {
    type V = AccountMetaView;

    open spec fn view(&self) -> AccountMetaView {
        AccountMetaView {
            pubkey: self.pubkey@,
            is_signer: self.is_signer,
            is_writable: self.is_writable,
        }
    }
}

impl AccountMeta {
    /// An account reference from its parts.
    pub fn from_parts(bytes: [u8; 32], is_signer: bool, is_writable: bool) -> (meta: AccountMeta)
        ensures
            meta@ == (AccountMetaView { pubkey: bytes@, is_signer, is_writable }),
    {
        AccountMeta { pubkey: Address::new(bytes), is_signer, is_writable }
    }

    /// A reference to an account that the instruction may change.
    pub fn writable(pubkey: Address) -> (meta: AccountMeta)
        ensures
            meta@ == writable(pubkey@),
    {
        AccountMeta { pubkey, is_signer: false, is_writable: true }
    }

    /// A reference to an account that the instruction only reads.
    pub fn readonly(pubkey: Address) -> (meta: AccountMeta)
        ensures
            meta@ == readonly(pubkey@),
    {
        AccountMeta { pubkey, is_signer: false, is_writable: false }
    }

    /// A reference to an account that signs and is only read.
    pub fn signer(pubkey: Address) -> (meta: AccountMeta)
        ensures
            meta@ == signer(pubkey@),
    {
        AccountMeta { pubkey, is_signer: true, is_writable: false }
    }
}

/// A writable reference that does not sign.
pub open spec fn writable(pubkey: Seq<u8>) -> AccountMetaView {
    AccountMetaView { pubkey, is_signer: false, is_writable: true }
}

/// A read-only reference that does not sign.
pub open spec fn readonly(pubkey: Seq<u8>) -> AccountMetaView {
    AccountMetaView { pubkey, is_signer: false, is_writable: false }
}

/// A read-only reference that signs.
pub open spec fn signer(pubkey: Seq<u8>) -> AccountMetaView {
    AccountMetaView { pubkey, is_signer: true, is_writable: false }
}

/// A writable reference that signs.
pub open spec fn writable_signer(pubkey: Seq<u8>) -> AccountMetaView {
    AccountMetaView { pubkey, is_signer: true, is_writable: true }
}

/// The views of a list of account references.
pub open spec fn metas_view(metas: Seq<AccountMeta>) -> Seq<AccountMetaView> {
    Seq::new(metas.len(), |i: int| metas[i]@)
}

/// The bytes of each address of a list.
pub open spec fn addresses_view(addresses: Seq<Address>) -> Seq<Seq<u8>> {
    Seq::new(addresses.len(), |i: int| addresses[i]@)
}

/// One call of a program: which program, on which accounts, with what data.
#[derive(Clone, Debug, PartialEq, Eq)]
pub struct Instruction {
    pub program_id: Address,
    pub accounts: Vec<AccountMeta>,
    pub data: Vec<u8>,
}

/// An instruction with its addresses as bytes.
pub struct InstructionView {
    pub program_id: Seq<u8>,
    pub accounts: Seq<AccountMetaView>,
    pub data: Seq<u8>,
}

impl View for Instruction {
    type V = InstructionView;

    open spec fn view(&self) -> InstructionView {
        InstructionView {
            program_id: self.program_id@,
            accounts: metas_view(self.accounts@),
            data: self.data@,
        }
    }
}

/// The views of a list of instructions.
pub open spec fn instructions_view(list: Seq<Instruction>) -> Seq<InstructionView> {
    Seq::new(list.len(), |i: int| list[i]@)
}

impl Instruction {
    /// An instruction from its parts.
    pub fn from_parts(program_id: [u8; 32], accounts: Vec<AccountMeta>, data: Vec<u8>) -> (ix:
        Instruction)
        ensures
            ix@ == (InstructionView {
                program_id: program_id@,
                accounts: metas_view(accounts@),
                data: data@,
            }),
    {
        Instruction { program_id: Address::new(program_id), accounts, data }
    }
}

/// The system program's instruction that creates the account `to`, paid by
/// `from`, holding `lamports`, with `space` bytes, owned by `owner`. Both
/// accounts sign and are written. The data is the instruction's number, 0,
/// in four bytes, then the lamports, the space and the owner, integers
/// little-endian.
pub open spec fn account_creation(
    from: Seq<u8>,
    to: Seq<u8>,
    lamports: u64,
    space: u64,
    owner: Seq<u8>,
) -> InstructionView {
    InstructionView {
        program_id: SYSTEM_PROGRAM@,
        accounts: seq![writable_signer(from), writable_signer(to)],
        data: spec_u32_to_le_bytes(0) + spec_u64_to_le_bytes(lamports) + spec_u64_to_le_bytes(
            space,
        ) + owner,
    }
}

/// The token program's instruction that initializes `mint` with the given
/// authorities and decimals. It writes the mint and reads the rent sysvar.
/// The data is the instruction's number, 0, the decimals, the mint
/// authority, and the freeze authority behind a byte that says whether
/// there is one.
pub open spec fn mint_initialization(
    token_program: Seq<u8>,
    mint: Seq<u8>,
    mint_authority: Seq<u8>,
    freeze_authority: Option<Seq<u8>>,
    decimals: u8,
) -> InstructionView {
    InstructionView {
        program_id: token_program,
        accounts: seq![writable(mint), readonly(RENT_SYSVAR@)],
        data: seq![0u8, decimals] + mint_authority + match freeze_authority {
            Some(authority) => seq![1u8] + authority,
            None => seq![0u8],
        },
    }
}

/// The associated-token-account program's instruction that creates the
/// token account of `wallet` for `mint`, paid by `funder`, where that
/// account's address is `account`. It carries no data.
pub open spec fn associated_account_creation(
    funder: Seq<u8>,
    account: Seq<u8>,
    wallet: Seq<u8>,
    mint: Seq<u8>,
) -> InstructionView {
    InstructionView {
        program_id: ASSOCIATED_TOKEN_PROGRAM@,
        accounts: seq![
            writable_signer(funder),
            writable(account),
            readonly(wallet),
            readonly(mint),
            readonly(SYSTEM_PROGRAM@),
            readonly(TOKEN_PROGRAM@),
            readonly(RENT_SYSVAR@),
        ],
        data: Seq::empty(),
    }
}

/// The token program's instruction that mints `amount` units of `mint` to
/// `account`, signed by the mint authority `owner` alone. The data is the
/// instruction's number, 7, and the amount, little-endian.
pub open spec fn minting(
    token_program: Seq<u8>,
    mint: Seq<u8>,
    account: Seq<u8>,
    owner: Seq<u8>,
    amount: u64,
) -> InstructionView {
    InstructionView {
        program_id: token_program,
        accounts: seq![writable(mint), writable(account), signer(owner)],
        data: seq![7u8] + spec_u64_to_le_bytes(amount),
    }
}

/// The accounts of the candy-machine program's mint instruction, in the
/// order of its account list: the sale, its creator address, the payer, the
/// sale's wallet, the item's metadata, the mint, the mint authority, the
/// update authority, the master edition, then the token-metadata, token and
/// system programs and the rent, clock, recent-blockhashes and instructions
/// sysvars. The sale, the wallet, the metadata, the mint and the master
/// edition are written; the payer and the two authorities sign.
pub open spec fn mint_nft_accounts(keys: Seq<Seq<u8>>) -> Seq<AccountMetaView> {
    seq![
        writable(keys[0]),
        readonly(keys[1]),
        signer(keys[2]),
        writable(keys[3]),
        writable(keys[4]),
        writable(keys[5]),
        signer(keys[6]),
        signer(keys[7]),
        writable(keys[8]),
        readonly(keys[9]),
        readonly(keys[10]),
        readonly(keys[11]),
        readonly(keys[12]),
        readonly(keys[13]),
        readonly(keys[14]),
        readonly(keys[15]),
    ]
}

/// The data of the candy-machine program's mint instruction: its eight-byte
/// tag, the head of the SHA-256 hash of `global:mint_nft`, and the bump seed
/// of the sale's creator address.
pub open spec fn mint_nft_data(creator_bump: u8) -> Seq<u8> {
    seq![211u8, 57u8, 6u8, 167u8, 15u8, 219u8, 35u8, 251u8, creator_bump]
}

/// The accounts of the candy-machine program's instruction that puts a
/// freshly minted item into the sale's collection, in the order of its
/// account list: the sale, the item's metadata, the payer, the collection
/// record, the token-metadata program, the instructions sysvar, the
/// collection's mint, metadata and master edition, the sale's authority, and
/// the collection authority record. The payer signs; only the collection
/// record is written.
pub open spec fn set_collection_accounts(keys: Seq<Seq<u8>>) -> Seq<AccountMetaView> {
    seq![
        readonly(keys[0]),
        readonly(keys[1]),
        signer(keys[2]),
        writable(keys[3]),
        readonly(keys[4]),
        readonly(keys[5]),
        readonly(keys[6]),
        readonly(keys[7]),
        readonly(keys[8]),
        readonly(keys[9]),
        readonly(keys[10]),
    ]
}

/// The data of the set-collection instruction: its eight-byte tag, the head
/// of the SHA-256 hash of `global:set_collection_during_mint`, and nothing
/// else.
pub open spec fn set_collection_data() -> Seq<u8> {
    seq![103u8, 17u8, 200u8, 25u8, 118u8, 95u8, 125u8, 61u8]
}

/// Calls `system_instruction::create_account` of `solana_program`, which
/// lists the two accounts as writable signers and serializes the
/// `CreateAccount` variant with `bincode`.
#[verifier::external_body]
pub(crate) fn create_account_instruction(
    from: &Address,
    to: &Address,
    lamports: u64,
    space: u64,
    owner: &Address,
) -> (ix: Instruction)
    ensures
        ix@ == account_creation(from@, to@, lamports, space, owner@),
{
    let from = Pubkey::new_from_array(from.bytes);
    let to = Pubkey::new_from_array(to.bytes);
    let owner = Pubkey::new_from_array(owner.bytes);
    let ix = solana_program::system_instruction::create_account(&from, &to, lamports, space, &owner);
    let accounts = ix.accounts.iter()
        .map(|m| AccountMeta::from_parts(m.pubkey.to_bytes(), m.is_signer, m.is_writable));
    Instruction::from_parts(ix.program_id.to_bytes(), accounts.collect(), ix.data)
}

/// Calls `instruction::initialize_mint` of `spl_token`, which fails exactly
/// when `token_program` is not the token program's address and otherwise
/// packs the instruction as `mint_initialization` says.
#[verifier::external_body]
pub(crate) fn initialize_mint_instruction(
    token_program: &Address,
    mint: &Address,
    mint_authority: &Address,
    freeze_authority: Option<&Address>,
    decimals: u8,
) -> (built: Option<Instruction>)
    ensures
        built is Some <==> token_program@ == TOKEN_PROGRAM@,
        built matches Some(ix) ==> ix@ == mint_initialization(
            token_program@,
            mint@,
            mint_authority@,
            match freeze_authority {
                Some(authority) => Some(authority@),
                None => None,
            },
            decimals,
        ),
{
    let program = Pubkey::new_from_array(token_program.bytes);
    let mint = Pubkey::new_from_array(mint.bytes);
    let authority = Pubkey::new_from_array(mint_authority.bytes);
    let freeze = freeze_authority.map(|a| Pubkey::new_from_array(a.bytes));
    let ix = spl_token::instruction::initialize_mint(&program, &mint, &authority, freeze.as_ref(), decimals).ok()?;
    let accounts = ix.accounts.iter()
        .map(|m| AccountMeta::from_parts(m.pubkey.to_bytes(), m.is_signer, m.is_writable));
    Some(Instruction::from_parts(ix.program_id.to_bytes(), accounts.collect(), ix.data))
}

/// Calls `create_associated_token_account` of
/// `spl_associated_token_account`, which derives the account's address
/// itself and panics where none can be derived; that case is excluded.
#[verifier::external_body]
pub(crate) fn create_associated_account_instruction(
    funder: &Address,
    wallet: &Address,
    mint: &Address,
) -> (ix: Instruction)
    requires
        associated_token_address(wallet@, mint@) is Some,
    ensures
        ix@ == associated_account_creation(
            funder@,
            associated_token_address(wallet@, mint@)->0,
            wallet@,
            mint@,
        ),
{
    let funder = Pubkey::new_from_array(funder.bytes);
    let wallet = Pubkey::new_from_array(wallet.bytes);
    let mint = Pubkey::new_from_array(mint.bytes);
    #[allow(deprecated)]
    let ix = spl_associated_token_account::create_associated_token_account(&funder, &wallet, &mint);
    let accounts = ix.accounts.iter()
        .map(|m| AccountMeta::from_parts(m.pubkey.to_bytes(), m.is_signer, m.is_writable));
    Instruction::from_parts(ix.program_id.to_bytes(), accounts.collect(), ix.data)
}

/// Calls `instruction::mint_to` of `spl_token` with no further signers, so
/// that the owner signs. It fails exactly when `token_program` is not the
/// token program's address.
#[verifier::external_body]
pub(crate) fn mint_to_instruction(
    token_program: &Address,
    mint: &Address,
    account: &Address,
    owner: &Address,
    amount: u64,
) -> (built: Option<Instruction>)
    ensures
        built is Some <==> token_program@ == TOKEN_PROGRAM@,
        built matches Some(ix) ==> ix@ == minting(
            token_program@,
            mint@,
            account@,
            owner@,
            amount,
        ),
{
    let program = Pubkey::new_from_array(token_program.bytes);
    let mint = Pubkey::new_from_array(mint.bytes);
    let account = Pubkey::new_from_array(account.bytes);
    let owner = Pubkey::new_from_array(owner.bytes);
    let ix = spl_token::instruction::mint_to(&program, &mint, &account, &owner, &[], amount).ok()?;
    let accounts = ix.accounts.iter()
        .map(|m| AccountMeta::from_parts(m.pubkey.to_bytes(), m.is_signer, m.is_writable));
    Some(Instruction::from_parts(ix.program_id.to_bytes(), accounts.collect(), ix.data))
}

/// Calls `to_account_metas` on `accounts::MintNFT` of `mpl_candy_machine`,
/// whose flags follow the program's account list: an account marked `mut`
/// is writable, a `Signer` signs.
#[verifier::external_body]
pub(crate) fn mint_nft_account_metas(keys: &[Address; 16]) -> (metas: Vec<AccountMeta>)
    ensures
        metas_view(metas@) == mint_nft_accounts(addresses_view(keys@)),
{
    let key = |i: usize| Pubkey::new_from_array(keys[i].bytes);
    let accounts = mpl_candy_machine::accounts::MintNFT {
        candy_machine: key(0), candy_machine_creator: key(1), payer: key(2), wallet: key(3),
        metadata: key(4), mint: key(5), mint_authority: key(6), update_authority: key(7),
        master_edition: key(8), token_metadata_program: key(9), token_program: key(10),
        system_program: key(11), rent: key(12), clock: key(13), recent_blockhashes: key(14),
        instruction_sysvar_account: key(15),
    };
    accounts.to_account_metas(None).iter()
        .map(|m| AccountMeta::from_parts(m.pubkey.to_bytes(), m.is_signer, m.is_writable))
        .collect()
}

/// Calls `data` on `instruction::MintNft` of `mpl_candy_machine`: the
/// instruction's tag followed by its one argument.
#[verifier::external_body]
pub(crate) fn mint_nft_instruction_data(creator_bump: u8) -> (data: Vec<u8>)
    ensures
        data@ == mint_nft_data(creator_bump),
{
    mpl_candy_machine::instruction::MintNft { creator_bump }.data()
}

/// Calls `to_account_metas` on `accounts::SetCollectionDuringMint` of
/// `mpl_candy_machine`, whose flags follow the program's account list.
#[verifier::external_body]
pub(crate) fn set_collection_account_metas(keys: &[Address; 11]) -> (metas: Vec<AccountMeta>)
    ensures
        metas_view(metas@) == set_collection_accounts(addresses_view(keys@)),
{
    let key = |i: usize| Pubkey::new_from_array(keys[i].bytes);
    let accounts = mpl_candy_machine::accounts::SetCollectionDuringMint {
        candy_machine: key(0), metadata: key(1), payer: key(2), collection_pda: key(3),
        token_metadata_program: key(4), instructions: key(5), collection_mint: key(6),
        collection_metadata: key(7), collection_master_edition: key(8), authority: key(9),
        collection_authority_record: key(10),
    };
    accounts.to_account_metas(None).iter()
        .map(|m| AccountMeta::from_parts(m.pubkey.to_bytes(), m.is_signer, m.is_writable))
        .collect()
}

/// Calls `data` on `instruction::SetCollectionDuringMint` of
/// `mpl_candy_machine`: the instruction's tag alone, as it has no argument.
#[verifier::external_body]
pub(crate) fn set_collection_instruction_data() -> (data: Vec<u8>)
    ensures
        data@ == set_collection_data(),
{
    mpl_candy_machine::instruction::SetCollectionDuringMint {}.data()
}

} // verus!
