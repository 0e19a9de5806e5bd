//! Group revenue: payout restrictions and recurring payouts.
//!
//! The recurring-payouts response carries a floating-point percentage per
//! partner, so its record type lives with the driver that decodes it; the
//! request construction is here.

use vstd::prelude::*;

use crate::util::jar::{Call, Verb};
use crate::util::text::{cat3, dec_nat, u64_to_string};

verus! {

/// Which payout mechanisms a group may use.
#[derive(Debug, Clone, PartialEq)]
pub struct PayoutRestrictions {
    pub can_use_recurring_payout: bool,
    pub can_use_one_time_payout: bool,
}

/// Retrieves the payout restrictions for a group.
///
/// # Error codes
/// - 1: Group is invalid or does not exist.
/// - 9: You don't have permission to view this group's payouts.
pub fn get_payout_restrictions(group_id: usize) -> (r: Call<()>)
    ensures
        r.verb == Verb::Get,
        r.body is None,
        r.url@ == "https://groups.roblox.com/v1/groups/"@ + dec_nat(group_id as nat)
            + "/payout-restrictions"@,
{
    Call {
        verb: Verb::Get,
        url: cat3(
            "https://groups.roblox.com/v1/groups/",
            u64_to_string(group_id as u64).as_str(),
            "/payout-restrictions",
        ),
        body: None,
    }
}

/// Retrieves the list of recurring payouts for a group.
///
/// # Error codes
/// - 1: Group is invalid or does not exist.
/// - 9: You don't have permission to view this group's payouts.
pub fn get_recurring_payouts(group_id: usize) -> (r: Call<()>)
    ensures
        r.verb == Verb::Get,
        r.body is None,
        r.url@ == "https://groups.roblox.com/v1/groups/"@ + dec_nat(group_id as nat) + "/payouts"@,
{
    Call {
        verb: Verb::Get,
        url: cat3(
            "https://groups.roblox.com/v1/groups/",
            u64_to_string(group_id as u64).as_str(),
            "/payouts",
        ),
        body: None,
    }
}

} // verus!
