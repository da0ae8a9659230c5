//! Account policy rules over a user's age and name length, and the
//! report that gathers them.

use vstd::prelude::*;

use crate::digits::{decimal_digits, u32_to_string, usize_to_string};
use crate::profile::User;
use crate::strings::byte_len;
use vstd::string::StringExecFns;

verus! {

/// The age tier of a user.
pub fn tier(age: u32) -> (r: &'static str)
    ensures
        age < 18 ==> r@ == "minor"@,
        18 <= age <= 25 ==> r@ == "yong_adult"@,
        25 < age <= 64 ==> r@ == "adult"@,
        age > 64 ==> r@ == "senior"@,
{
    if age < 18 {
        "minor"
    } else if age <= 25 {
        "yong_adult"
    } else if age <= 64 {
        "adult"
    } else {
        "senior"
    }
}

/// Whether the account needs a manual age check: young, or a name too
/// short to trust.
pub fn must_verify_age(age: u32, name_len: usize) -> (r: bool)
    ensures
        r == (age < 21 || name_len < 4),
{
    if age < 21 || name_len < 4 {
        true
    } else {
        false
    }
}

/// The discount in percent: 20 up to age 65, plus 5 for a long name,
/// capped at 50.
pub fn discount_percent(age: u32, name_len: usize) -> (r: u8)
    ensures
        r as int == (if age <= 65 {
            20int
        } else {
            0int
        }) + (if name_len > 10 {
            5int
        } else {
            0int
        }),
{
    let max_discount: i32 = 50;
    let base: i32 = if age <= 65 {
        20
    } else {
        0
    };
    let bonus: i32 = if name_len > 10 {
        5
    } else {
        0
    };
    let sum: i32 = base + bonus;
    let capped: i32 = if sum < max_discount {
        sum
    } else {
        max_discount
    };
    capped as u8
}

/// The risk score: age times name length, reduced modulo 256.
pub fn risk_score(age: u32, name_len: usize) -> (r: u8)
    requires
        name_len <= u32::MAX,
        age * name_len <= u32::MAX,
    ensures
        r as int == (age as int * name_len as int) % 256,
{
    let base: u32 = age * (name_len as u32);
    (base % 256) as u8
}

/// Every policy answer for one user, with a one-line text summary.
pub struct PolicyReport {
    pub tier: &'static str,
    pub discount_percent: u8,
    pub must_verify_age: bool,
    pub risk_score: u8,
    pub summary: String,
}

/// The text form of a truth value.
pub open spec fn bool_text(b: bool) -> Seq<char> {
    if b {
        "true"@
    } else {
        "false"@
    }
}

/// Gathers every policy answer for the user and writes the summary
/// line.
pub fn build_report(u: &User) -> (r: PolicyReport)
    requires
        byte_len(u.name@) <= u32::MAX,
        u.age * byte_len(u.name@) <= u32::MAX,
    ensures
        r.tier@ == tier_text(u.age),
        r.discount_percent as int == (if u.age <= 65 {
            20int
        } else {
            0int
        }) + (if byte_len(u.name@) > 10 {
            5int
        } else {
            0int
        }),
        r.must_verify_age == (u.age < 21 || byte_len(u.name@) < 4),
        r.risk_score as int == (u.age as int * byte_len(u.name@) as int) % 256,
        r.summary@ == "tire: "@ + tier_text(u.age) + ", discount_percent: "@ + decimal_digits(
            r.discount_percent as nat,
        ) + ", must_verify_age : "@ + bool_text(r.must_verify_age) + ", risk_score: "@
            + decimal_digits(r.risk_score as nat),
{
    let name_len = u.name.as_str().len();
    let tier = tier(u.age);
    let discount_percent = discount_percent(u.age, name_len);
    let must_verify_age = must_verify_age(u.age, name_len);
    let risk_score = risk_score(u.age, name_len);
    let mut summary = String::from_str("tire: ");
    summary.append(tier);
    summary.append(", discount_percent: ");
    summary.append(u32_to_string(discount_percent as u32).as_str());
    summary.append(", must_verify_age : ");
    summary.append(if must_verify_age {
        "true"
    } else {
        "false"
    });
    summary.append(", risk_score: ");
    summary.append(u32_to_string(risk_score as u32).as_str());
    PolicyReport { tier, discount_percent, must_verify_age, risk_score, summary }
}

/// The text of the age tier.
pub open spec fn tier_text(age: u32) -> Seq<char> {
    if age < 18 {
        "minor"@
    } else if age <= 25 {
        "yong_adult"@
    } else if age <= 64 {
        "adult"@
    } else {
        "senior"@
    }
}

} // verus!
