use solana_program::program_option::COption;
use solana_program::program_pack::Pack;
use solana_program::pubkey::Pubkey;
use sol::address::{Address, Cluster, Signature};
use sol::assemble::InstructionBatch;
use sol::context::{AccountRead, MintConfig, MintContext};
use sol::error::MintError;
use sol::mint::{mint, MintAction, MintEvent, MintState};
use sol::pda::{find_metadata_pda, get_associated_token_address};
use sol::sale::{
    CollectionLink, EndCondition, EndConditionKind, MintRequest, SaleConfig, WhitelistMode,
    WhitelistSettings,
};

fn sample(seed: u8) -> Address {
    let mut bytes = [0u8; 32];
    for (i, b) in bytes.iter_mut().enumerate() {
        *b = seed.wrapping_mul(29).wrapping_add(i as u8);
    }
    Address::new(bytes)
}

fn sale() -> SaleConfig {
    SaleConfig {
        authority: sample(2),
        wallet: sample(3),
        items_available: 10,
        items_redeemed: 4,
        go_live: Some(100),
        whitelist: None,
        end_condition: None,
        gatekeeper: false,
        payment_token_mint: None,
    }
}

fn context(sale: SaleConfig) -> MintContext {
    MintContext {
        config: MintConfig::published(Cluster::Devnet),
        request: MintRequest { sale_id: sample(1), receiver: sample(5) },
        sale,
        collection: None,
        payer: sample(4),
        mint: sample(6),
    }
}

fn token_account(amount: u64) -> Vec<u8> {
    let account = spl_token::state::Account {
        mint: Pubkey::new_from_array([8u8; 32]),
        owner: Pubkey::new_from_array([9u8; 32]),
        amount,
        delegate: COption::None,
        state: spl_token::state::AccountState::Initialized,
        is_native: COption::None,
        delegated_amount: 0,
        close_authority: COption::None,
    };
    let mut data = vec![0u8; 165];
    spl_token::state::Account::pack(account, &mut data).unwrap();
    data
}

fn signature() -> Signature {
    let mut bytes = [0u8; 64];
    for (i, b) in bytes.iter_mut().enumerate() {
        *b = (i as u8).wrapping_mul(3).wrapping_add(1);
    }
    Signature::new(bytes)
}

/// A ledger that answers from a script and remembers what it was asked.
struct Ledger {
    rent: Result<u64, String>,
    whitelist_token: AccountRead,
    submission: Result<Signature, String>,
    metadata: AccountRead,
    asked: Vec<String>,
    submitted: Vec<InstructionBatch>,
}

impl Ledger {
    fn healthy() -> Ledger {
        Ledger {
            rent: Ok(1_461_600),
            whitelist_token: AccountRead::NotFound,
            submission: Ok(signature()),
            metadata: AccountRead::Found(vec![4u8; 679]),
            asked: Vec::new(),
            submitted: Vec::new(),
        }
    }
}

fn run(ctx: &MintContext, now: i64, ledger: &mut Ledger) -> Result<Signature, MintError> {
    let mut state = MintState::Start;
    let mut event = MintEvent::Started { now };
    loop {
        let (next, action) = mint(ctx, state, event);
        state = next;
        event = match action {
            MintAction::FetchMinimumRent { space } => {
                ledger.asked.push(format!("rent {}", space));
                MintEvent::MinimumRent(ledger.rent.clone())
            }
            MintAction::ReadWhitelistToken { account } => {
                assert_eq!(
                    Some(account),
                    get_associated_token_address(&ctx.payer, &ctx.sale.whitelist.unwrap().mint)
                );
                ledger.asked.push("whitelist".to_string());
                MintEvent::AccountRead(ledger.whitelist_token.clone())
            }
            MintAction::Submit { batch } => {
                ledger.asked.push("submit".to_string());
                ledger.submitted.push(batch);
                MintEvent::Submitted(ledger.submission.clone())
            }
            MintAction::ReadMetadata { account } => {
                assert_eq!(
                    Some(account),
                    find_metadata_pda(&ctx.mint, &ctx.config.token_metadata_program)
                );
                ledger.asked.push("metadata".to_string());
                MintEvent::AccountRead(ledger.metadata.clone())
            }
            MintAction::Finish { outcome } => {
                assert_eq!(state, MintState::Done);
                return outcome;
            }
            MintAction::Unexpected => panic!("the machine did not expect its own answer"),
        };
    }
}

#[test]
fn sold_out_sale_returns_sold_out() {
    let mut sold_out = sale();
    sold_out.items_available = 10;
    sold_out.items_redeemed = 10;
    let mut ledger = Ledger::healthy();
    assert_eq!(run(&context(sold_out), 1_000, &mut ledger), Err(MintError::SoldOut));
    assert!(ledger.asked.is_empty());
}

#[test]
fn sale_without_go_live_date_is_not_live() {
    let mut unset = sale();
    unset.go_live = None;
    unset.whitelist = None;
    let ctx = context(unset);
    assert_ne!(ctx.payer, ctx.sale.authority);
    let mut ledger = Ledger::healthy();
    assert_eq!(run(&ctx, 1_000, &mut ledger), Err(MintError::NotLive));
    assert!(ledger.asked.is_empty());
}

#[test]
fn readable_metadata_returns_the_signature() {
    let mut ledger = Ledger::healthy();
    assert_eq!(run(&context(sale()), 1_000, &mut ledger), Ok(signature()));
    assert_eq!(ledger.asked, vec!["rent 82", "submit", "metadata"]);
    assert_eq!(ledger.submitted.len(), 1);
    assert_eq!(ledger.submitted[0].instructions.len(), 5);
}

#[test]
fn unreadable_metadata_is_a_likely_bot_tax() {
    let link = "https://explorer.solana.com/tx/2BKHWNa2cmd26FUy2VkeAcgbJ7bMvqUokwz9DVKDTAt6vG7u1oacDWM6BnTmnyMFiG4UNNU5xr2jKDUH79vZ4RK?devnet"
        .to_string();
    for metadata in [AccountRead::NotFound, AccountRead::Failed("timed out".to_string())] {
        let mut ledger = Ledger::healthy();
        ledger.metadata = metadata;
        assert_eq!(
            run(&context(sale()), 1_000, &mut ledger),
            Err(MintError::LikelyBotTaxFailure { signature: signature(), reference: link.clone() })
        );
        assert_eq!(ledger.asked, vec!["rent 82", "submit", "metadata"]);
    }
}

#[test]
fn bot_tax_reference_names_no_cluster_off_devnet() {
    let mut ctx = context(sale());
    ctx.config.cluster = Cluster::Mainnet;
    let mut ledger = Ledger::healthy();
    ledger.metadata = AccountRead::NotFound;
    let link = "https://explorer.solana.com/tx/2BKHWNa2cmd26FUy2VkeAcgbJ7bMvqUokwz9DVKDTAt6vG7u1oacDWM6BnTmnyMFiG4UNNU5xr2jKDUH79vZ4RK"
        .to_string();
    assert_eq!(
        run(&ctx, 1_000, &mut ledger),
        Err(MintError::LikelyBotTaxFailure { signature: signature(), reference: link })
    );
}

#[test]
fn gatekeeper_ends_the_mint_before_any_request() {
    let mut gated = sale();
    gated.gatekeeper = true;
    let mut ledger = Ledger::healthy();
    assert_eq!(run(&context(gated), 1_000, &mut ledger), Err(MintError::GatekeeperRequired));
    assert!(ledger.asked.is_empty());
}

#[test]
fn reached_end_condition_ends_the_mint() {
    let mut ended = sale();
    ended.end_condition = Some(EndCondition { kind: EndConditionKind::AmountRedeemed, threshold: 4 });
    let mut ledger = Ledger::healthy();
    assert_eq!(run(&context(ended), 1_000, &mut ledger), Err(MintError::EndReached));
    assert!(ledger.asked.is_empty());
}

#[test]
fn payer_who_is_authority_mints_before_go_live() {
    let mut ctx = context(sale());
    ctx.payer = ctx.sale.authority;
    let mut ledger = Ledger::healthy();
    assert_eq!(run(&ctx, 5, &mut ledger), Ok(signature()));
}

#[test]
fn failed_rent_request_is_a_read_error() {
    let mut ledger = Ledger::healthy();
    ledger.rent = Err("node is behind".to_string());
    assert_eq!(
        run(&context(sale()), 1_000, &mut ledger),
        Err(MintError::RemoteReadError { detail: "node is behind".to_string() })
    );
    assert_eq!(ledger.asked, vec!["rent 82"]);
}

#[test]
fn failed_submission_carries_the_remote_text() {
    let mut ledger = Ledger::healthy();
    ledger.submission = Err("blockhash not found".to_string());
    assert_eq!(
        run(&context(sale()), 1_000, &mut ledger),
        Err(MintError::RemoteSubmitError { detail: "blockhash not found".to_string() })
    );
    assert_eq!(ledger.asked, vec!["rent 82", "submit"]);
}

#[test]
fn burn_mode_reads_the_whitelist_token_before_submitting() {
    let mut gated = sale();
    gated.whitelist = Some(WhitelistSettings {
        mode: WhitelistMode::BurnEveryTime,
        mint: sample(7),
        presale: false,
    });
    let mut ledger = Ledger::healthy();
    ledger.whitelist_token = AccountRead::Found(token_account(2));
    assert_eq!(run(&context(gated), 1_000, &mut ledger), Ok(signature()));
    assert_eq!(ledger.asked, vec!["rent 82", "whitelist", "submit", "metadata"]);
    assert_eq!(ledger.submitted[0].instructions[4].accounts.len(), 19);
}

#[test]
fn burn_mode_without_token_submits_nothing() {
    let mut gated = sale();
    gated.whitelist = Some(WhitelistSettings {
        mode: WhitelistMode::BurnEveryTime,
        mint: sample(7),
        presale: true,
    });
    let mut ledger = Ledger::healthy();
    ledger.whitelist_token = AccountRead::Found(token_account(0));
    assert_eq!(run(&context(gated), 5, &mut ledger), Err(MintError::NoWhitelistToken));
    assert_eq!(ledger.asked, vec!["rent 82", "whitelist"]);
    assert!(ledger.submitted.is_empty());
}

#[test]
fn burn_mode_with_unreadable_account_submits_nothing() {
    let mut gated = sale();
    let whitelist_mint = sample(7);
    gated.whitelist = Some(WhitelistSettings {
        mode: WhitelistMode::BurnEveryTime,
        mint: whitelist_mint,
        presale: false,
    });
    let ctx = context(gated);
    let account = get_associated_token_address(&ctx.payer, &whitelist_mint).unwrap();
    let mut ledger = Ledger::healthy();
    ledger.whitelist_token = AccountRead::Failed("no such account".to_string());
    assert_eq!(
        run(&ctx, 1_000, &mut ledger),
        Err(MintError::UninitializedWhitelistToken { account })
    );
    assert!(ledger.submitted.is_empty());
}

#[test]
fn collection_adds_a_sixth_instruction() {
    let mut ctx = context(sale());
    ctx.collection = Some(CollectionLink { address: sample(20), mint: sample(21) });
    let mut ledger = Ledger::healthy();
    assert_eq!(run(&ctx, 1_000, &mut ledger), Ok(signature()));
    assert_eq!(ledger.submitted[0].instructions.len(), 6);
    assert!(ledger.submitted[0].instructions[5].accounts[7].is_writable);
}

#[test]
fn event_out_of_turn_changes_nothing() {
    let ctx = context(sale());
    let (state, action) = mint(&ctx, MintState::Start, MintEvent::MinimumRent(Ok(5)));
    assert_eq!((state, action), (MintState::Start, MintAction::Unexpected));
    let (state, action) = mint(&ctx, MintState::AwaitingRent, MintEvent::Started { now: 1_000 });
    assert_eq!((state, action), (MintState::AwaitingRent, MintAction::Unexpected));
    let (state, action) = mint(&ctx, MintState::Done, MintEvent::Started { now: 1_000 });
    assert_eq!((state, action), (MintState::Done, MintAction::Unexpected));
    let waiting = MintState::AwaitingSubmission { metadata: sample(9) };
    let (state, action) = mint(&ctx, waiting, MintEvent::AccountRead(AccountRead::NotFound));
    assert_eq!((state, action), (waiting, MintAction::Unexpected));
}

#[test]
fn each_step_names_the_next_request() {
    let ctx = context(sale());
    let (state, action) = mint(&ctx, MintState::Start, MintEvent::Started { now: 1_000 });
    assert_eq!(state, MintState::AwaitingRent);
    assert_eq!(action, MintAction::FetchMinimumRent { space: 82 });
    let (state, action) = mint(&ctx, state, MintEvent::MinimumRent(Ok(7)));
    let metadata = find_metadata_pda(&ctx.mint, &ctx.config.token_metadata_program).unwrap();
    assert_eq!(state, MintState::AwaitingSubmission { metadata });
    assert!(matches!(action, MintAction::Submit { .. }));
    let (state, action) = mint(&ctx, state, MintEvent::Submitted(Ok(signature())));
    assert_eq!(state, MintState::AwaitingVerification { signature: signature() });
    assert_eq!(action, MintAction::ReadMetadata { account: metadata });
    let (state, action) =
        mint(&ctx, state, MintEvent::AccountRead(AccountRead::Found(Vec::new())));
    assert_eq!(state, MintState::Done);
    assert_eq!(action, MintAction::Finish { outcome: Ok(signature()) });
}
