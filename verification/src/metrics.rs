//! User metrics rules: age tiers and capped additive scores.

use vstd::prelude::*;

verus! {

/// The lowest adult age.
pub const TIER_ADULT_MIN: u32 = 18;

/// The highest age still counted as adult.
pub const TIER_SENIOR_MIN: u32 = 64;

/// The largest discount the rules grant, in percent.
pub const DISCOUNT_CAP: u32 = 50;

/// The age tier of a user.
pub fn tier(age: u32) -> (r: &'static str)
    ensures
        age < TIER_ADULT_MIN ==> r@ == "minor"@,
        TIER_ADULT_MIN <= age <= TIER_SENIOR_MIN ==> r@ == "adult"@,
        age > TIER_SENIOR_MIN ==> r@ == "senior"@,
{
    if age < TIER_ADULT_MIN {
        "minor"
    } else if age <= TIER_SENIOR_MIN {
        "adult"
    } else {
        "senior"
    }
}

/// Whether the account needs a manual age check: a minor, or a name
/// too long to trust.
pub fn must_verify_age(age: u32, name_len: usize) -> (r: bool)
    ensures
        r == (age < 18 || name_len > 20),
{
    if age < 18 || name_len > 20 {
        true
    } else {
        false
    }
}

/// The discount in percent: age plus name length, capped at 50.
pub fn discount_percent(age: u32, name_len: usize) -> (r: u8)
    ensures
        (age + (name_len as u32) as int) >= DISCOUNT_CAP ==> r == DISCOUNT_CAP,
        (age + (name_len as u32) as int) < DISCOUNT_CAP ==> r as int == age + (name_len as u32) as int,
{
    let discount: u32 = age.saturating_add(name_len as u32);
    let capped: u32 = if discount < DISCOUNT_CAP {
        discount
    } else {
        DISCOUNT_CAP
    };
    capped as u8
}

/// The risk score: age plus name length, capped at 255.
pub fn risk_score(age: u32, name_len: usize) -> (r: u8)
    ensures
        (age + (name_len as u32) as int) >= 255 ==> r == 255,
        (age + (name_len as u32) as int) < 255 ==> r as int == age + (name_len as u32) as int,
{
    let risk: u32 = age.saturating_add(name_len as u32);
    let capped: u32 = if risk < 255 {
        risk
    } else {
        255
    };
    capped as u8
}

} // verus!
