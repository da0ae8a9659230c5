//! A minimal user record with a normalised display name.

use vstd::prelude::*;

use crate::digits::{decimal_digits, u32_to_string};
use crate::normalize::{normalize_name, normalized_name};
use crate::strings::{byte_len, string_capacity, trim_spec};
use vstd::string::StringExecFns;

verus! {

/// A user: a display name and an age in years.
#[derive(Debug)]
pub struct User {
    pub name: String,
    pub age: u32,
}

/// The greeting line for a user: name and age written into the fixed
/// template.
pub fn greet(user: &User) -> (r: String)
    ensures
        r@ == "Hello, "@ + user.name@ + " ("@ + decimal_digits(user.age as nat) + ")!"@,
{
    let mut s = String::from_str("Hello, ");
    s.append(user.name.as_str());
    s.append(" (");
    s.append(u32_to_string(user.age).as_str());
    s.append(")!");
    s
}

/// The length of the user's name in bytes.
pub fn name_len(user: &User) -> (r: usize)
    ensures
        r == byte_len(user.name@),
{
    user.name.as_str().len()
}

/// Whether the user is of age.
pub fn user_is_adult(user: &User) -> (r: bool)
    ensures
        r == (user.age >= 18),
{
    user.age >= 18
}

/// The byte length of the user's name and the capacity of its buffer;
/// the capacity is never below the length.
pub fn report_name_layout(user: &User) -> (r: (usize, usize))
    ensures
        r.0 == byte_len(user.name@),
        r.1 >= r.0,
{
    (user.name.as_str().len(), string_capacity(&user.name))
}

/// Builds a user from a raw name and an age; the name is trimmed and
/// put in name case.
pub fn new_user(raw_name: &str, age: u32) -> (r: User)
    ensures
        r.name@ == normalized_name(trim_spec(raw_name@)),
        r.age == age,
{
    let name = normalize_name(raw_name);
    User { name, age }
}

} // verus!
