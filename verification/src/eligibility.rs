//! Whether a caller may mint from a sale right now.

use vstd::prelude::*;
use crate::sale::{EndConditionKind, SaleConfig};

verus! {

/// Why a mint is refused before anything is sent.
#[derive(Clone, Copy, Debug, PartialEq, Eq)]
pub enum DenyReason {
    GatekeeperRequired,
    SoldOut,
    NotLive,
    EndReached,
}

/// The verdict on one caller at one moment.
#[derive(Clone, Copy, Debug, PartialEq, Eq)]
pub enum Eligibility {
    Allowed,
    Denied(DenyReason),
}

/// An end-condition threshold read as a signed 64-bit timestamp: the same
/// 64 bits in two's complement.
pub open spec fn as_timestamp(threshold: u64) -> int {
    if threshold <= 0x7fff_ffff_ffff_ffff {
        threshold as int
    } else {
        threshold as int - 0x1_0000_0000_0000_0000
    }
}

/// Whether minting is open to the public or to presale holders: the go-live
/// date has come, or the sale has a whitelist with presale.
pub open spec fn mint_enabled(sale: SaleConfig, now: i64) -> bool {
    ||| sale.whitelist matches Some(w) && w.presale
    ||| sale.go_live matches Some(date) && date <= now
}

/// Whether the sale's end condition, if any, has been passed.
pub open spec fn end_verdict(sale: SaleConfig, now: i64) -> Eligibility {
    match sale.end_condition {
        Some(end) => match end.kind {
            EndConditionKind::Date => if as_timestamp(end.threshold) < now {
                Eligibility::Denied(DenyReason::NotLive)
            } else {
                Eligibility::Allowed
            },
            EndConditionKind::AmountRedeemed => if sale.items_redeemed >= end.threshold {
                Eligibility::Denied(DenyReason::EndReached)
            } else {
                Eligibility::Allowed
            },
        },
        None => Eligibility::Allowed,
    }
}

/// The rules, first failing rule wins: a gatekeeper always refuses; then a
/// sold-out sale; then the sale's authority passes unconditionally; everyone
/// else needs minting to be enabled and the end condition not to be passed.
pub open spec fn eligibility(sale: SaleConfig, now: i64, caller_is_authority: bool) -> Eligibility {
    if sale.gatekeeper {
        Eligibility::Denied(DenyReason::GatekeeperRequired)
    } else if sale.items_redeemed >= sale.items_available {
        Eligibility::Denied(DenyReason::SoldOut)
    } else if caller_is_authority {
        Eligibility::Allowed
    } else if !mint_enabled(sale, now) {
        Eligibility::Denied(DenyReason::NotLive)
    } else {
        end_verdict(sale, now)
    }
}

/// Reads an end-condition threshold as a timestamp.
pub fn threshold_timestamp(threshold: u64) -> (t: i64)
    ensures
        t == as_timestamp(threshold),
{
    if threshold <= 0x7fff_ffff_ffff_ffff {
        threshold as i64
    } else {
        let low: u64 = threshold - 0x8000_0000_0000_0000;
        (low as i64) + i64::MIN
    }
}

/// Decides whether the caller may mint from `sale` at time `now`. The decision
/// reads nothing but its arguments.
pub fn check_eligibility(
    sale: &SaleConfig,
    now: i64,
    caller_is_authority: bool,
) -> (verdict: Eligibility)
    ensures
        verdict == eligibility(*sale, now, caller_is_authority),
{
    if sale.gatekeeper {
        return Eligibility::Denied(DenyReason::GatekeeperRequired);
    }
    if sale.items_redeemed >= sale.items_available {
        return Eligibility::Denied(DenyReason::SoldOut);
    }
    if caller_is_authority {
        return Eligibility::Allowed;
    }
    let mut enabled = match sale.go_live {
        Some(date) => date <= now,
        None => false,
    };
    if let Some(whitelist) = &sale.whitelist {
        if whitelist.presale {
            enabled = true;
        }
    }
    if !enabled {
        return Eligibility::Denied(DenyReason::NotLive);
    }
    match &sale.end_condition {
        Some(end) => match end.kind {
            EndConditionKind::Date => {
                if threshold_timestamp(end.threshold) < now {
                    Eligibility::Denied(DenyReason::NotLive)
                } else {
                    Eligibility::Allowed
                }
            },
            EndConditionKind::AmountRedeemed => {
                if sale.items_redeemed >= end.threshold {
                    Eligibility::Denied(DenyReason::EndReached)
                } else {
                    Eligibility::Allowed
                }
            },
        },
        None => Eligibility::Allowed,
    }
}

/// A sale that has given out all its items refuses everyone with `SoldOut`,
/// whatever the time and whoever calls, unless a gatekeeper refuses first.
pub proof fn sold_out_refuses_everyone(sale: SaleConfig, now: i64, caller_is_authority: bool)
    requires
        sale.items_redeemed >= sale.items_available,
        !sale.gatekeeper,
    ensures
        eligibility(sale, now, caller_is_authority) == Eligibility::Denied(DenyReason::SoldOut),
{
}

/// A sale with a gatekeeper refuses everyone with `GatekeeperRequired`, even
/// a caller who would otherwise be eligible.
pub proof fn gatekeeper_refuses_everyone(sale: SaleConfig, now: i64, caller_is_authority: bool)
    requires
        sale.gatekeeper,
    ensures
        eligibility(sale, now, caller_is_authority) == Eligibility::Denied(
            DenyReason::GatekeeperRequired,
        ),
{
}

/// The sale's authority may mint at any time, also before the go-live date
/// and past the end condition, as long as no gatekeeper is set and items are
/// left.
pub proof fn authority_is_allowed(sale: SaleConfig, now: i64)
    requires
        !sale.gatekeeper,
        sale.items_redeemed < sale.items_available,
    ensures
        eligibility(sale, now, true) == Eligibility::Allowed,
{
}

/// With a presale whitelist the go-live date does not matter: where no
/// gatekeeper is set, items are left and the end condition is not passed,
/// the caller is allowed at every time, also before go-live or with no
/// go-live date at all.
pub proof fn presale_opens_before_go_live(sale: SaleConfig, now: i64, caller_is_authority: bool)
    requires
        sale.whitelist matches Some(w) && w.presale,
        !sale.gatekeeper,
        sale.items_redeemed < sale.items_available,
        end_verdict(sale, now) == Eligibility::Allowed,
    ensures
        eligibility(sale, now, caller_is_authority) == Eligibility::Allowed,
{
}

/// An end condition on the amount redeemed, with threshold `T`, refuses an
/// otherwise eligible caller with `EndReached` exactly once `T` items are
/// redeemed: at `T - 1` the caller is still allowed.
pub proof fn amount_end_condition_is_sharp(sale: SaleConfig, now: i64)
    requires
        sale.end_condition matches Some(end) && end.kind == EndConditionKind::AmountRedeemed,
        !sale.gatekeeper,
        sale.items_redeemed < sale.items_available,
        mint_enabled(sale, now),
    ensures
        sale.items_redeemed >= sale.end_condition->0.threshold ==> eligibility(sale, now, false)
            == Eligibility::Denied(DenyReason::EndReached),
        sale.items_redeemed < sale.end_condition->0.threshold ==> eligibility(sale, now, false)
            == Eligibility::Allowed,
        sale.items_redeemed + 1 == sale.end_condition->0.threshold ==> eligibility(
            sale,
            now,
            false,
        ) == Eligibility::Allowed,
{
}

} // verus!
