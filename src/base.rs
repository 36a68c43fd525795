//! Shared response record and catalog enumerations.
use crate::text::{contains_text, occurs_at, uppercase, uppercase_of};
use vstd::prelude::*;
use vstd::string::*;

verus! {

/// The marker of a duplicate-key failure in a store error's text.
pub open spec fn duplicate_marker() -> Seq<char> {
    "code: 11000"@
}

/// The message for a failed write: a duplicate of the unique key `key` is
/// reported as `Key already exists.` with the key's first character in upper
/// case; anything else is an internal error.
pub open spec fn error_text(error: Seq<char>, key: Seq<char>) -> Seq<char> {
    if (exists|i: int| occurs_at(error, duplicate_marker(), i)) && (exists|i: int|
        occurs_at(error, key, i)) {
        uppercase_of(key.subrange(0, 1)) + key.subrange(1, key.len() as int) + " already exists."@
    } else {
        "Internal server error."@
    }
}

/// The message to report for a store error, given the error's text and the
/// name of the unique key whose duplicate it may be.
pub fn error_message(error: &str, unique_key: &str) -> (r: String)
    requires
        unique_key@.len() > 0,
    ensures
        r@ == error_text(error@, unique_key@),
{
    let duplicate = contains_text(error, "code: 11000");
    assert("code: 11000"@ == duplicate_marker());
    if duplicate && contains_text(error, unique_key) {
        let n = unique_key.unicode_len();
        let head = unique_key.substring_char(0, 1);
        let first = uppercase(head);
        let message = first.concat(unique_key.substring_char(1, n));
        let r = message.concat(" already exists.");
        assert(r@ == uppercase_of(unique_key@.subrange(0, 1)) + unique_key@.subrange(1, n as int) + " already exists."@);
        r
    } else {
        String::from_str("Internal server error.")
    }
}

/// Outcome of an operation: a message and whether it succeeded.
#[derive(Clone, Debug)]
pub struct BaseResponse {
    pub response: String,
    pub result: bool,
}

impl BaseResponse {
    /// An unsuccessful response with no message.
    pub fn empty() -> (r: BaseResponse)
        ensures
            r.response@.len() == 0,
            !r.result,
    {
        BaseResponse { response: String::new(), result: false }
    }
}

#[derive(Clone, Copy, Debug, PartialEq, Eq, Structural)]
pub enum Country {
    Indonesia,
    UnitedStates,
}

impl Default for Country {
    fn default() -> (r: Country)
        ensures
            r == Country::Indonesia,
    {
        Country::Indonesia
    }
}

#[derive(Clone, Copy, Debug, PartialEq, Eq, Structural)]
pub enum Language {
    English,
    Indonesia,
}

impl Default for Language {
    fn default() -> (r: Language)
        ensures
            r == Language::English,
    {
        Language::English
    }
}

#[derive(Clone, Copy, Debug, PartialEq, Eq, Structural)]
pub enum Sidebar {
    Collapsed,
    Expanded,
}

impl Default for Sidebar {
    fn default() -> (r: Sidebar)
        ensures
            r == Sidebar::Expanded,
    {
        Sidebar::Expanded
    }
}

/// Whether a catalog record is in use.
#[derive(Clone, Copy, Debug, PartialEq, Eq, Structural)]
pub enum Status {
    Active,
    Inactive,
}

impl Default for Status {
    fn default() -> (r: Status)
        ensures
            r == Status::Inactive,
    {
        Status::Inactive
    }
}

#[derive(Clone, Copy, Debug, PartialEq, Eq, Structural)]
pub enum Version {
    Dark,
    Light,
}

impl Default for Version {
    fn default() -> (r: Version)
        ensures
            r == Version::Light,
    {
        Version::Light
    }
}

} // verus!
