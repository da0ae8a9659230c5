//! A validated user record: normalised name, bounded age, checked
//! email, with its own error taxonomy.

use vstd::prelude::*;

use crate::digits::{decimal_digits, u32_to_string};
use crate::strings::{byte_len, capitalize_ascii, name_cased, trim, trim_spec};
use vstd::string::{StrSliceExecFns, StringExecFns};

verus! {

/// Why a user record could not be built or changed.
#[derive(Clone, Copy, Debug, PartialEq, Eq, Structural)]
pub enum UserError {
    /// The name is empty once trimmed.
    EmptyName,
    /// The name is longer than the given byte bound.
    NameTooLong { max: usize },
    /// The age lies outside the accepted range.
    AgeOutOfRange { max: u32 },
    /// The email does not look like an address.
    InvalidEmail,
    /// The age cannot grow past its bound.
    AgeOverflow,
}

/// Trims the name and puts it in name case; a name that trims to
/// nothing is rejected.
pub fn name_ascii(name: &str) -> (r: Result<String, UserError>)
    ensures
        trim_spec(name@).len() == 0 ==> r == Err::<String, UserError>(UserError::EmptyName),
        trim_spec(name@).len() > 0 ==> (r matches Ok(s) && s@ == name_cased(trim_spec(name@))),
{
    let t = trim(name);
    if t.unicode_len() == 0 {
        return Err(UserError::EmptyName);
    }
    Ok(capitalize_ascii(t))
}

/// Some character of `s` is `c`.
pub open spec fn contains_char_spec(s: Seq<char>, c: char) -> bool {
    exists|k: int| 0 <= k < s.len() && s[k] == c
}

/// Whether `s` holds the character `c`.
fn contains_char(s: &str, c: char) -> (r: bool)
    ensures
        r == contains_char_spec(s@, c),
{
    let len = s.unicode_len();
    let mut k: usize = 0;
    while k < len
        invariant
            0 <= k <= len,
            len == s@.len(),
            forall|m: int| 0 <= m < k ==> s@[m] != c,
        decreases len - k,
    {
        if s.get_char(k) == c {
            return true;
        }
        k += 1;
    }
    false
}

/// A loose address shape: the text holds an `@` and a dot.
pub open spec fn valid_email(s: Seq<char>) -> bool {
    contains_char_spec(s, '@') && contains_char_spec(s, '.')
}

/// The first failing check when building a user, in order: empty
/// name, name too long, age out of range, bad email.
pub open spec fn user_check(name: Seq<char>, age: u32, email: Seq<char>) -> Option<UserError> {
    if trim_spec(name).len() == 0 {
        Some(UserError::EmptyName)
    } else if byte_len(name_cased(trim_spec(name))) > 64 {
        Some(UserError::NameTooLong { max: 64 })
    } else if age > 150 {
        Some(UserError::AgeOverflow)
    } else if !valid_email(email) {
        Some(UserError::InvalidEmail)
    } else {
        None
    }
}

/// A user: a cased name, an age within bounds and an email address.
#[derive(Debug)]
pub struct User {
    pub name: String,
    pub age: u32,
    pub email: String,
}

impl User {
    /// The longest accepted name, in bytes.
    pub const MAX_NAME: usize = 64;

    /// The highest accepted age.
    pub const MAX_AGE: u32 = 150;

    /// Builds a user after every check of `user_check`, in that
    /// order; the stored name is the trimmed, cased form.
    pub fn try_new(name: &str, age: u32, email: &str) -> (r: Result<Self, UserError>)
        ensures
            user_check(name@, age, email@) matches Some(e) ==> r == Err::<User, UserError>(e),
            user_check(name@, age, email@) is None ==> (r matches Ok(u) && u.name@ == name_cased(
                trim_spec(name@),
            ) && u.age == age && u.email@ == email@),
    {
        let name = match name_ascii(name) {
            Ok(s) => s,
            Err(e) => {
                return Err(e);
            },
        };
        if name.as_str().len() > Self::MAX_NAME {
            return Err(UserError::NameTooLong { max: Self::MAX_NAME });
        }
        if age > Self::MAX_AGE {
            return Err(UserError::AgeOverflow);
        }
        if !(contains_char(email, '@') && contains_char(email, '.')) {
            return Err(UserError::InvalidEmail);
        }
        Ok(User { name, age, email: email.to_owned() })
    }

    /// The greeting line: name, age and email in the fixed template.
    pub fn greet(&self) -> (r: String)
        ensures
            r@ == "Hi "@ + self.name@ + ", age: "@ + decimal_digits(self.age as nat) + ", email: "@
                + self.email@,
    {
        let mut s = String::from_str("Hi ");
        s.append(self.name.as_str());
        s.append(", age: ");
        s.append(u32_to_string(self.age).as_str());
        s.append(", email: ");
        s.append(self.email.as_str());
        s
    }

    /// The length of the name in bytes.
    pub fn name_len(&self) -> (r: usize)
        ensures
            r == byte_len(self.name@),
    {
        self.name.as_str().len()
    }

    /// Replaces the name as given, provided it is short enough; the
    /// record is untouched otherwise.
    pub fn rename(&mut self, new_name: &str) -> (r: Result<(), UserError>)
        ensures
            byte_len(new_name@) > 64 ==> r == Err::<(), UserError>(
                UserError::NameTooLong { max: 64 },
            ) && *final(self) == *old(self),
            byte_len(new_name@) <= 64 ==> {
                &&& r == Ok::<(), UserError>(())
                &&& final(self).name@ == new_name@
                &&& final(self).age == old(self).age
                &&& final(self).email@ == old(self).email@
            },
    {
        if new_name.len() > Self::MAX_NAME {
            return Err(UserError::NameTooLong { max: Self::MAX_NAME });
        } else {
            self.name = new_name.to_owned();
            Ok(())
        }
    }

    /// Moves the age one year on, unless it already stands at the
    /// bound; the record is untouched on failure.
    pub fn have_birthday(&mut self) -> (r: Result<(), UserError>)
        ensures
            old(self).age >= 150 ==> r == Err::<(), UserError>(UserError::AgeOverflow)
                && *final(self) == *old(self),
            old(self).age < 150 ==> {
                &&& r == Ok::<(), UserError>(())
                &&& final(self).age == old(self).age + 1
                &&& final(self).name@ == old(self).name@
                &&& final(self).email@ == old(self).email@
            },
    {
        if self.age >= Self::MAX_AGE {
            return Err(UserError::AgeOverflow);
        } else {
            self.age = self.age + 1;
            Ok(())
        }
    }

    /// The part of the email after the first `@`, if there is one.
    pub fn email_domain(&self) -> (r: Option<&str>)
        ensures
            r is Some <==> contains_char_spec(self.email@, '@'),
            r matches Some(d) ==> exists|k: int|
                {
                    &&& 0 <= k < self.email@.len()
                    &&& self.email@[k] == '@'
                    &&& forall|m: int| 0 <= m < k ==> self.email@[m] != '@'
                    &&& d@ == self.email@.subrange(k + 1, self.email@.len() as int)
                },
    {
        let s = self.email.as_str();
        let len = s.unicode_len();
        let mut k: usize = 0;
        while k < len
            invariant
                0 <= k <= len,
                len == s@.len(),
                s@ == self.email@,
                forall|m: int| 0 <= m < k ==> s@[m] != '@',
            decreases len - k,
        {
            if s.get_char(k) == '@' {
                let d = s.substring_char(k + 1, len);
                proof {
                    let ghost ki = k as int;
                    assert(0 <= ki < self.email@.len());
                    assert(self.email@[ki] == '@');
                    assert(forall|m: int| 0 <= m < ki ==> self.email@[m] != '@');
                    assert(d@ == self.email@.subrange(ki + 1, self.email@.len() as int));
                }
                return Some(d);
            }
            k += 1;
        }
        None
    }

    /// A user built from the raw parts, with no check run.
    pub fn new_unchecked(name: String, age: u32, email: String) -> (r: Self)
        ensures
            r.name@ == name@,
            r.age == age,
            r.email@ == email@,
    {
        Self { name, age, email }
    }
}

} // verus!
