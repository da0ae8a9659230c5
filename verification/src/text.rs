//! Text utilities: whitespace normalisation, word counting, summaries
//! and bounded previews.

use vstd::prelude::*;

use crate::strings::{is_space, is_space_char, push_char, trim, trim_spec};
use vstd::string::{StrSliceExecFns, StringExecFns};

verus! {

/// `s` with every whitespace run replaced by one space, given whether
/// the character just before `s` was part of a run.
pub open spec fn collapse_ws(s: Seq<char>, prev: bool) -> Seq<char>
    decreases s.len(),
{
    if s.len() == 0 {
        Seq::empty()
    } else if is_space(s[0]) {
        if prev {
            collapse_ws(s.subrange(1, s.len() as int), true)
        } else {
            seq![' '] + collapse_ws(s.subrange(1, s.len() as int), true)
        }
    } else {
        seq![s[0]] + collapse_ws(s.subrange(1, s.len() as int), false)
    }
}

/// The normal form of a text: trimmed, with inner whitespace runs
/// collapsed to single spaces.
pub open spec fn normal_form(s: Seq<char>) -> Seq<char> {
    collapse_ws(trim_spec(s), false)
}

/// How many spaces a text holds.
pub open spec fn count_spaces(s: Seq<char>) -> int
    decreases s.len(),
{
    if s.len() == 0 {
        0
    } else {
        (if s[0] == ' ' {
            1int
        } else {
            0int
        }) + count_spaces(s.subrange(1, s.len() as int))
    }
}

/// The number of words of a text in normal form: none when it is
/// empty, one more than its spaces otherwise.
pub open spec fn word_count(s: Seq<char>) -> int {
    if normal_form(s).len() == 0 {
        0
    } else {
        count_spaces(normal_form(s)) + 1
    }
}

proof fn lemma_count_spaces_le_len(s: Seq<char>)
    ensures
        0 <= count_spaces(s) <= s.len(),
    decreases s.len(),
{
    if s.len() > 0 {
        lemma_count_spaces_le_len(s.subrange(1, s.len() as int));
    }
}

/// The front-trimmed text starts with a non-space when it is not empty.
proof fn lemma_trim_front_head(s: Seq<char>)
    ensures
        crate::strings::trim_front_spec(s).len() > 0 ==> !is_space(
            crate::strings::trim_front_spec(s)[0],
        ),
    decreases s.len(),
{
    if s.len() > 0 && is_space(s[0]) {
        lemma_trim_front_head(s.subrange(1, s.len() as int));
    }
}

proof fn lemma_trim_back_head(s: Seq<char>)
    ensures
        crate::strings::trim_back_spec(s).len() > 0 ==> crate::strings::trim_back_spec(s)[0]
            == s[0],
    decreases s.len(),
{
    if s.len() > 0 && is_space(s[s.len() - 1]) {
        lemma_trim_back_head(s.subrange(0, s.len() - 1));
    }
}

/// A trimmed, non-empty text starts with a non-space.
proof fn lemma_trim_head(s: Seq<char>)
    ensures
        trim_spec(s).len() > 0 ==> !is_space(trim_spec(s)[0]),
{
    lemma_trim_front_head(s);
    lemma_trim_back_head(crate::strings::trim_front_spec(s));
}

/// Trims the text and collapses every inner whitespace run to one
/// space.
pub fn normalize_whitespace(input: &str) -> (r: String)
    ensures
        r@ == normal_form(input@),
{
    let t = trim(input);
    let len = t.unicode_len();
    let mut out = String::new();
    let mut prev = false;
    let mut k: usize = 0;
    proof {
        assert(t@.subrange(0, len as int) =~= t@);
        assert(out@ + collapse_ws(t@, false) =~= collapse_ws(t@, false));
    }
    while k < len
        invariant
            0 <= k <= len,
            len == t@.len(),
            t@ == trim_spec(input@),
            out@ + collapse_ws(t@.subrange(k as int, len as int), prev) == collapse_ws(t@, false),
        decreases len - k,
    {
        let c = t.get_char(k);
        proof {
            assert(t@.subrange(k as int, len as int).subrange(1, (len - k) as int) =~= t@.subrange(
                k + 1,
                len as int,
            ));
        }
        if is_space_char(c) {
            if !prev {
                push_char(&mut out, ' ');
                prev = true;
            }
        } else {
            push_char(&mut out, c);
            prev = false;
        }
        k += 1;
    }
    proof {
        assert(t@.subrange(len as int, len as int) =~= Seq::<char>::empty());
        assert(out@ =~= collapse_ws(t@, false));
    }
    out
}

/// How many space characters the text holds.
fn count_spaces_str(s: &str) -> (r: usize)
    ensures
        r == count_spaces(s@),
{
    let len = s.unicode_len();
    let mut cnt: usize = 0;
    let mut k: usize = 0;
    proof {
        assert(s@.subrange(0, len as int) =~= s@);
    }
    while k < len
        invariant
            0 <= k <= len,
            len == s@.len(),
            cnt <= k,
            cnt + count_spaces(s@.subrange(k as int, len as int)) == count_spaces(s@),
        decreases len - k,
    {
        proof {
            assert(s@.subrange(k as int, len as int).subrange(1, (len - k) as int) =~= s@.subrange(
                k + 1,
                len as int,
            ));
            lemma_count_spaces_le_len(s@.subrange(k + 1, len as int));
        }
        if s.get_char(k) == ' ' {
            cnt += 1;
        }
        k += 1;
    }
    proof {
        assert(s@.subrange(len as int, len as int) =~= Seq::<char>::empty());
    }
    cnt
}

/// The number of words of the text: maximal non-whitespace runs.
pub fn count_words(input: &str) -> (r: usize)
    ensures
        r == word_count(input@),
{
    let norm = normalize_whitespace(input);
    if norm.as_str().unicode_len() == 0 {
        return 0;
    }
    let spaces = count_spaces_str(norm.as_str());
    proof {
        lemma_trim_head(input@);
        lemma_count_spaces_le_len(norm@.subrange(1, norm@.len() as int));
        assert(norm@[0] == trim_spec(input@)[0]);
        assert(count_spaces(norm@) < norm@.len());
    }
    spaces + 1
}

/// The character count, word count and emptiness of the text's normal
/// form.
pub fn summarize(input: &str) -> (r: (usize, usize, bool))
    ensures
        r.0 == normal_form(input@).len(),
        r.1 == word_count(input@),
        r.2 == (normal_form(input@).len() == 0),
{
    let norm = normalize_whitespace(input);
    let chars = norm.as_str().unicode_len();
    let words = count_words(input);
    (chars, words, chars == 0)
}

/// A preview of the text's normal form: at most `max_len` characters,
/// with an ellipsis where something was cut.
pub fn make_preview(input: &str, max_len: usize) -> (r: String)
    ensures
        normal_form(input@).len() == 0 ==> r@ == normal_form(input@),
        normal_form(input@).len() > 0 && max_len == 0 ==> r@ == "..."@,
        normal_form(input@).len() > max_len && max_len > 0 ==> r@ == normal_form(input@).subrange(
            0,
            max_len as int,
        ) + "..."@,
        0 < normal_form(input@).len() <= max_len ==> r@ == normal_form(input@),
{
    let norm = normalize_whitespace(input);
    let count = norm.as_str().unicode_len();
    if count == 0 {
        return norm;
    }
    if max_len == 0 {
        return String::from_str("...");
    }
    if count > max_len {
        let mut preview = String::from_str(norm.as_str().substring_char(0, max_len));
        preview.append("...");
        preview
    } else {
        norm
    }
}

} // verus!
