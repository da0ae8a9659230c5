//! Shared verified text helpers: trimming, ASCII case mapping and the
//! few trusted bridges to `String` operations that vstd leaves
//! unspecified.

use vstd::prelude::*;
use vstd::string::StrSliceExecFns;

verus! {

/// Relies on `String::push`: appends exactly the given character.
#[verifier::external_body]
pub(crate) fn push_char(s: &mut String, c: char)
    ensures
        final(s)@ == old(s)@.push(c),
{
    s.push(c)
}

/// What `str::to_lowercase` produces: the Unicode lowercase form of
/// the text, a function of its characters alone.
pub uninterp spec fn lower_of(s: Seq<char>) -> Seq<char>;

/// Relies on `str::to_lowercase`: the Unicode lowercase form of the
/// text, named by `lower_of`; an empty text stays empty.
#[verifier::external_body]
pub(crate) fn unicode_lowercase(s: &str) -> (r: String)
    ensures
        r@ == lower_of(s@),
        s@.len() == 0 ==> r@.len() == 0,
{
    s.to_lowercase()
}

/// What `char::to_uppercase` produces: the Unicode uppercase mapping
/// of one character, one or more characters, a function of the
/// character alone.
pub uninterp spec fn upper_of_char(c: char) -> Seq<char>;

/// Relies on `char::to_uppercase`: the Unicode uppercase mapping of
/// one character, named by `upper_of_char`; it yields one or more
/// characters, so the result is never empty.
#[verifier::external_body]
pub(crate) fn unicode_uppercase_char(c: char) -> (r: String)
    ensures
        r@ == upper_of_char(c),
        r@.len() > 0,
{
    c.to_uppercase().collect::<String>()
}

/// The characters the text helpers treat as whitespace: the Unicode
/// White_Space set, the same set `char::is_whitespace` and `str::trim`
/// go by.
pub open spec fn is_space(c: char) -> bool {
    ||| 0x09 <= c as u32 <= 0x0D
    ||| c as u32 == 0x20
    ||| c as u32 == 0x85
    ||| c as u32 == 0xA0
    ||| c as u32 == 0x1680
    ||| 0x2000 <= c as u32 <= 0x200A
    ||| c as u32 == 0x2028
    ||| c as u32 == 0x2029
    ||| c as u32 == 0x202F
    ||| c as u32 == 0x205F
    ||| c as u32 == 0x3000
}

/// Whether `c` is one of the whitespace characters.
pub fn is_space_char(c: char) -> (r: bool)
    ensures
        r == is_space(c),
{
    let u: u32 = c as u32;
    (0x09 <= u && u <= 0x0D) || u == 0x20 || u == 0x85 || u == 0xA0 || u == 0x1680 || (0x2000 <= u
        && u <= 0x200A) || u == 0x2028 || u == 0x2029 || u == 0x202F || u == 0x205F || u == 0x3000
}

/// `s` without its leading whitespace.
pub open spec fn trim_front_spec(s: Seq<char>) -> Seq<char>
    decreases s.len(),
{
    if s.len() > 0 && is_space(s[0]) {
        trim_front_spec(s.subrange(1, s.len() as int))
    } else {
        s
    }
}

/// `s` without its trailing whitespace.
pub open spec fn trim_back_spec(s: Seq<char>) -> Seq<char>
    decreases s.len(),
{
    if s.len() > 0 && is_space(s[s.len() - 1]) {
        trim_back_spec(s.subrange(0, s.len() - 1))
    } else {
        s
    }
}

/// `s` without leading and trailing whitespace.
pub open spec fn trim_spec(s: Seq<char>) -> Seq<char> {
    trim_back_spec(trim_front_spec(s))
}

proof fn lemma_trim_front_at(s: Seq<char>, lo: int)
    requires
        0 <= lo <= s.len(),
        forall|m: int| 0 <= m < lo ==> is_space(s[m]),
        lo < s.len() ==> !is_space(s[lo]),
    ensures
        trim_front_spec(s) == s.subrange(lo, s.len() as int),
    decreases lo,
{
    if lo == 0 {
        assert(s.subrange(0, s.len() as int) =~= s);
    } else {
        let t = s.subrange(1, s.len() as int);
        lemma_trim_front_at(t, lo - 1);
        assert(t.subrange(lo - 1, t.len() as int) =~= s.subrange(lo, s.len() as int));
    }
}

proof fn lemma_trim_back_at(s: Seq<char>, hi: int)
    requires
        0 <= hi <= s.len(),
        forall|m: int| hi <= m < s.len() ==> is_space(s[m]),
        hi > 0 ==> !is_space(s[hi - 1]),
    ensures
        trim_back_spec(s) == s.subrange(0, hi),
    decreases s.len() - hi,
{
    if hi == s.len() {
        assert(s.subrange(0, s.len() as int) =~= s);
    } else {
        let t = s.subrange(0, s.len() - 1);
        lemma_trim_back_at(t, hi);
        assert(t.subrange(0, hi) =~= s.subrange(0, hi));
    }
}

/// `s` with the whitespace stripped from both ends.
pub fn trim(s: &str) -> (r: &str)
    ensures
        r@ == trim_spec(s@),
{
    let len = s.unicode_len();
    let mut lo: usize = 0;
    while lo < len && is_space_char(s.get_char(lo))
        invariant
            0 <= lo <= len,
            len == s@.len(),
            forall|m: int| 0 <= m < lo ==> is_space(s@[m]),
        decreases len - lo,
    {
        lo += 1;
    }
    let mut hi: usize = len;
    while hi > lo && is_space_char(s.get_char(hi - 1))
        invariant
            lo <= hi <= len,
            len == s@.len(),
            forall|m: int| 0 <= m < lo ==> is_space(s@[m]),
            lo < s@.len() ==> !is_space(s@[lo as int]),
            forall|m: int| hi <= m < len ==> is_space(s@[m]),
        decreases hi,
    {
        hi -= 1;
    }
    let r = s.substring_char(lo, hi);
    proof {
        lemma_trim_front_at(s@, lo as int);
        let t = s@.subrange(lo as int, s@.len() as int);
        if lo == len {
            lemma_trim_back_at(t, 0);
        } else {
            lemma_trim_back_at(t, hi - lo);
        }
        assert(t.subrange(0, hi - lo) =~= s@.subrange(lo as int, hi as int));
    }
    r
}

/// A lower-case ASCII letter becomes its upper-case form; every other
/// character stays.
pub open spec fn ascii_upper(c: char) -> char {
    if 'a' <= c && c <= 'z' {
        (((c as u8) - 32) as char)
    } else {
        c
    }
}

/// An upper-case ASCII letter becomes its lower-case form; every other
/// character stays.
pub open spec fn ascii_lower(c: char) -> char {
    if 'A' <= c && c <= 'Z' {
        (((c as u8) + 32) as char)
    } else {
        c
    }
}

/// The upper-case form of one character.
pub fn ascii_upper_char(c: char) -> (r: char)
    ensures
        r == ascii_upper(c),
{
    if 'a' <= c && c <= 'z' {
        ((c as u8) - 32) as char
    } else {
        c
    }
}

/// The lower-case form of one character.
pub fn ascii_lower_char(c: char) -> (r: char)
    ensures
        r == ascii_lower(c),
{
    if 'A' <= c && c <= 'Z' {
        ((c as u8) + 32) as char
    } else {
        c
    }
}

/// `s` with every ASCII letter in lower case.
pub open spec fn lower_seq(s: Seq<char>) -> Seq<char> {
    s.map_values(|c: char| ascii_lower(c))
}

/// `s` with every ASCII letter in upper case.
pub open spec fn upper_seq(s: Seq<char>) -> Seq<char> {
    s.map_values(|c: char| ascii_upper(c))
}

/// A fresh string with every ASCII letter of `s` in lower case.
pub fn to_ascii_lower(s: &str) -> (r: String)
    ensures
        r@ == lower_seq(s@),
{
    let len = s.unicode_len();
    let mut out = String::new();
    let mut k: usize = 0;
    while k < len
        invariant
            0 <= k <= len,
            len == s@.len(),
            out@ == lower_seq(s@.subrange(0, k as int)),
        decreases len - k,
    {
        push_char(&mut out, ascii_lower_char(s.get_char(k)));
        proof {
            assert(s@.subrange(0, k + 1) =~= s@.subrange(0, k as int).push(s@[k as int]));
            assert(lower_seq(s@.subrange(0, k + 1)) =~= lower_seq(s@.subrange(0, k as int)).push(
                ascii_lower(s@[k as int]),
            ));
        }
        k += 1;
    }
    proof {
        assert(s@.subrange(0, len as int) =~= s@);
    }
    out
}

/// A fresh string with every ASCII letter of `s` in upper case.
pub fn to_ascii_upper(s: &str) -> (r: String)
    ensures
        r@ == upper_seq(s@),
{
    let len = s.unicode_len();
    let mut out = String::new();
    let mut k: usize = 0;
    while k < len
        invariant
            0 <= k <= len,
            len == s@.len(),
            out@ == upper_seq(s@.subrange(0, k as int)),
        decreases len - k,
    {
        push_char(&mut out, ascii_upper_char(s.get_char(k)));
        proof {
            assert(s@.subrange(0, k + 1) =~= s@.subrange(0, k as int).push(s@[k as int]));
            assert(upper_seq(s@.subrange(0, k + 1)) =~= upper_seq(s@.subrange(0, k as int)).push(
                ascii_upper(s@[k as int]),
            ));
        }
        k += 1;
    }
    proof {
        assert(s@.subrange(0, len as int) =~= s@);
    }
    out
}

/// The length of `s` in UTF-8 bytes, as `str::len` reports it.
pub open spec fn byte_len(s: Seq<char>) -> usize {
    vstd::utf8::encode_utf8(s).len() as usize
}

/// `s` with its first character in upper case and the rest in lower
/// case (ASCII case mapping).
pub open spec fn name_cased(s: Seq<char>) -> Seq<char> {
    if s.len() == 0 {
        s
    } else {
        seq![ascii_upper(s[0])] + lower_seq(s.subrange(1, s.len() as int))
    }
}

/// A fresh string: the first character of `s` upper-cased, the rest
/// lower-cased.
pub fn capitalize_ascii(s: &str) -> (r: String)
    ensures
        r@ == name_cased(s@),
{
    let len = s.unicode_len();
    if len == 0 {
        let r = String::new();
        proof {
            assert(r@ =~= name_cased(s@));
        }
        return r;
    }
    let mut out = String::new();
    push_char(&mut out, ascii_upper_char(s.get_char(0)));
    let rest = to_ascii_lower(s.substring_char(1, len));
    out.append(rest.as_str());
    proof {
        assert(out@ =~= name_cased(s@));
    }
    out
}

/// Relies on `String::capacity`: the allocated size in bytes, never
/// below the byte length of the contents.
#[verifier::external_body]
pub(crate) fn string_capacity(s: &String) -> (r: usize)
    ensures
        r >= byte_len(s@),
{
    s.capacity()
}

} // verus!
