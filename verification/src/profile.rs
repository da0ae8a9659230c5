//! A user record with open fields and a greeting that cases the name.

use vstd::prelude::*;

use crate::digits::{decimal_digits, u32_to_string};
use crate::strings::{byte_len, capitalize_ascii, name_cased, string_capacity};
use vstd::string::StringExecFns;

verus! {

/// A user: a display name and an age in years.
#[derive(Debug)]
pub struct User {
    pub name: String,
    pub age: u32,
}

impl User {
    /// Builds the user and the greeting line in one step: the name is
    /// put in name case inside the greeting, while the record keeps it
    /// as given. An empty name is rejected with a fixed message.
    pub fn greet(name: &str, age: u32) -> (r: Result<(String, User), String>)
        ensures
            name@.len() == 0 ==> (r matches Err(m) && m@ == "Input name is empty"@),
            name@.len() > 0 ==> (r matches Ok(p) && p.0@ == "Hello "@ + name_cased(name@) + " ("@
                + decimal_digits(age as nat) + ")"@ && p.1.name@ == name@ && p.1.age == age),
    {
        let user = User { name: name.to_owned(), age };
        if user.name.as_str().unicode_len() == 0 {
            return Err(String::from_str("Input name is empty"));
        }
        let mut s = String::from_str("Hello ");
        s.append(capitalize_ascii(name).as_str());
        s.append(" (");
        s.append(u32_to_string(age).as_str());
        s.append(")");
        Ok((s, user))
    }

    /// The length of the user's name in bytes.
    pub fn name_len(user: &User) -> (r: usize)
        ensures
            r == byte_len(user.name@),
    {
        user.name.as_str().len()
    }

    /// The capacity of the name's buffer in bytes, never below its
    /// length.
    pub fn name_cap(user: &User) -> (r: usize)
        ensures
            r >= byte_len(user.name@),
    {
        string_capacity(&user.name)
    }
}

/// Builds the user and the greeting line in one step; the free form of
/// `User::greet`.
pub fn greet(name: &str, age: u32) -> (r: Result<(String, User), String>)
    ensures
        name@.len() == 0 ==> (r matches Err(m) && m@ == "Input name is empty"@),
        name@.len() > 0 ==> (r matches Ok(p) && p.0@ == "Hello "@ + name_cased(name@) + " ("@
            + decimal_digits(age as nat) + ")"@ && p.1.name@ == name@ && p.1.age == age),
{
    User::greet(name, age)
}

} // verus!
