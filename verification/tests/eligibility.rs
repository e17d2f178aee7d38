use sol::address::Address;
use sol::eligibility::{check_eligibility, threshold_timestamp, DenyReason, Eligibility};
use sol::sale::{EndCondition, EndConditionKind, SaleConfig, WhitelistMode, WhitelistSettings};

fn open_sale() -> SaleConfig {
    SaleConfig {
        authority: Address::new([1u8; 32]),
        wallet: Address::new([2u8; 32]),
        items_available: 10,
        items_redeemed: 3,
        go_live: Some(1_000),
        whitelist: None,
        end_condition: None,
        gatekeeper: false,
        payment_token_mint: None,
    }
}

fn whitelist(presale: bool) -> WhitelistSettings {
    WhitelistSettings { mode: WhitelistMode::NeverBurn, mint: Address::new([9u8; 32]), presale }
}

#[test]
fn open_sale_allows_the_public() {
    assert_eq!(check_eligibility(&open_sale(), 2_000, false), Eligibility::Allowed);
}

#[test]
fn go_live_date_itself_is_live() {
    assert_eq!(check_eligibility(&open_sale(), 1_000, false), Eligibility::Allowed);
    assert_eq!(
        check_eligibility(&open_sale(), 999, false),
        Eligibility::Denied(DenyReason::NotLive)
    );
}

#[test]
fn sold_out_refuses_whatever_time_or_caller() {
    let mut sale = open_sale();
    sale.items_redeemed = 10;
    for now in [i64::MIN, 0, 999, 1_000, i64::MAX] {
        for caller_is_authority in [false, true] {
            assert_eq!(
                check_eligibility(&sale, now, caller_is_authority),
                Eligibility::Denied(DenyReason::SoldOut)
            );
        }
    }
    sale.items_redeemed = 11;
    assert_eq!(check_eligibility(&sale, 2_000, true), Eligibility::Denied(DenyReason::SoldOut));
}

#[test]
fn gatekeeper_refuses_even_the_eligible() {
    let mut sale = open_sale();
    sale.gatekeeper = true;
    assert_eq!(
        check_eligibility(&sale, 2_000, false),
        Eligibility::Denied(DenyReason::GatekeeperRequired)
    );
    assert_eq!(
        check_eligibility(&sale, 2_000, true),
        Eligibility::Denied(DenyReason::GatekeeperRequired)
    );
}

#[test]
fn gatekeeper_comes_before_sold_out() {
    let mut sale = open_sale();
    sale.gatekeeper = true;
    sale.items_redeemed = 10;
    assert_eq!(
        check_eligibility(&sale, 2_000, false),
        Eligibility::Denied(DenyReason::GatekeeperRequired)
    );
}

#[test]
fn authority_mints_before_go_live() {
    assert_eq!(check_eligibility(&open_sale(), 5, true), Eligibility::Allowed);
    let mut sale = open_sale();
    sale.go_live = None;
    assert_eq!(check_eligibility(&sale, 5, true), Eligibility::Allowed);
}

#[test]
fn authority_mints_past_the_end_condition() {
    let mut sale = open_sale();
    sale.end_condition = Some(EndCondition { kind: EndConditionKind::AmountRedeemed, threshold: 1 });
    assert_eq!(check_eligibility(&sale, 2_000, true), Eligibility::Allowed);
    sale.end_condition = Some(EndCondition { kind: EndConditionKind::Date, threshold: 1 });
    assert_eq!(check_eligibility(&sale, 2_000, true), Eligibility::Allowed);
}

#[test]
fn no_go_live_date_is_not_live() {
    let mut sale = open_sale();
    sale.go_live = None;
    assert_eq!(check_eligibility(&sale, 2_000, false), Eligibility::Denied(DenyReason::NotLive));
}

#[test]
fn presale_opens_before_go_live() {
    let mut sale = open_sale();
    sale.whitelist = Some(whitelist(true));
    assert_eq!(check_eligibility(&sale, 5, false), Eligibility::Allowed);
    sale.go_live = None;
    assert_eq!(check_eligibility(&sale, 5, false), Eligibility::Allowed);
}

#[test]
fn whitelist_without_presale_waits_for_go_live() {
    let mut sale = open_sale();
    sale.whitelist = Some(whitelist(false));
    assert_eq!(check_eligibility(&sale, 5, false), Eligibility::Denied(DenyReason::NotLive));
    assert_eq!(check_eligibility(&sale, 1_000, false), Eligibility::Allowed);
}

#[test]
fn amount_end_condition_is_sharp() {
    let mut sale = open_sale();
    sale.end_condition = Some(EndCondition { kind: EndConditionKind::AmountRedeemed, threshold: 4 });
    sale.items_redeemed = 3;
    assert_eq!(check_eligibility(&sale, 2_000, false), Eligibility::Allowed);
    sale.items_redeemed = 4;
    assert_eq!(
        check_eligibility(&sale, 2_000, false),
        Eligibility::Denied(DenyReason::EndReached)
    );
    sale.items_redeemed = 5;
    assert_eq!(
        check_eligibility(&sale, 2_000, false),
        Eligibility::Denied(DenyReason::EndReached)
    );
}

#[test]
fn date_end_condition_closes_after_the_date() {
    let mut sale = open_sale();
    sale.end_condition = Some(EndCondition { kind: EndConditionKind::Date, threshold: 3_000 });
    assert_eq!(check_eligibility(&sale, 2_999, false), Eligibility::Allowed);
    assert_eq!(check_eligibility(&sale, 3_000, false), Eligibility::Allowed);
    assert_eq!(check_eligibility(&sale, 3_001, false), Eligibility::Denied(DenyReason::NotLive));
}

#[test]
fn presale_does_not_outlive_the_end_condition() {
    let mut sale = open_sale();
    sale.whitelist = Some(whitelist(true));
    sale.end_condition = Some(EndCondition { kind: EndConditionKind::Date, threshold: 10 });
    assert_eq!(check_eligibility(&sale, 11, false), Eligibility::Denied(DenyReason::NotLive));
}

#[test]
fn threshold_is_read_in_twos_complement() {
    assert_eq!(threshold_timestamp(0), 0);
    assert_eq!(threshold_timestamp(3_000), 3_000);
    assert_eq!(threshold_timestamp(0x7fff_ffff_ffff_ffff), i64::MAX);
    assert_eq!(threshold_timestamp(0x8000_0000_0000_0000), i64::MIN);
    assert_eq!(threshold_timestamp(u64::MAX), -1);
    let mut sale = open_sale();
    sale.end_condition = Some(EndCondition { kind: EndConditionKind::Date, threshold: u64::MAX });
    assert_eq!(check_eligibility(&sale, 1_000, false), Eligibility::Denied(DenyReason::NotLive));
}
