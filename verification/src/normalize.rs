//! Normalisation of user-entered names.

use vstd::prelude::*;

use crate::strings::{
    lower_of, trim, trim_spec, unicode_lowercase, unicode_uppercase_char, upper_of_char,
};
use vstd::string::{StrSliceExecFns, StringExecFns};

verus! {

/// The normal form of a trimmed name: its Unicode lowercase form with
/// the first character's Unicode uppercase mapping put back in front.
pub open spec fn normalized_name(t: Seq<char>) -> Seq<char> {
    if lower_of(t).len() == 0 {
        lower_of(t)
    } else {
        upper_of_char(lower_of(t)[0]) + lower_of(t).subrange(1, lower_of(t).len() as int)
    }
}

/// Trims the raw name, lowercases it, and uppercases its first
/// character, with Unicode case mapping throughout. An all-whitespace
/// name comes back empty.
pub fn normalize_name(raw: &str) -> (r: String)
    ensures
        r@ == normalized_name(trim_spec(raw@)),
{
    let t = trim(raw);
    let low = unicode_lowercase(t);
    let n = low.as_str().unicode_len();
    if n == 0 {
        let r = String::new();
        proof {
            assert(r@ =~= lower_of(trim_spec(raw@)));
        }
        return r;
    }
    let mut out = unicode_uppercase_char(low.as_str().get_char(0));
    out.append(low.as_str().substring_char(1, n));
    out
}

} // verus!
