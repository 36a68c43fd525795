//! Enumerations of user records and of their session log.
use vstd::prelude::*;

verus! {

#[derive(Clone, Copy, Debug, PartialEq, Eq, Structural)]
pub enum Gender {
    Female,
    Male,
}

impl Default for Gender {
    fn default() -> (r: Gender)
        ensures
            r == Gender::Male,
    {
        Gender::Male
    }
}

#[derive(Clone, Copy, Debug, PartialEq, Eq, Structural)]
pub enum UserType {
    Administrator,
    Member,
    Owner,
}

impl Default for UserType {
    fn default() -> (r: UserType)
        ensures
            r == UserType::Member,
    {
        UserType::Member
    }
}

#[derive(Clone, Copy, Debug, PartialEq, Eq, Structural)]
pub enum Platform {
    Desktop,
    Mobile,
}

impl Default for Platform {
    fn default() -> (r: Platform)
        ensures
            r == Platform::Desktop,
    {
        Platform::Desktop
    }
}

/// The kind of a session log entry.
#[derive(Clone, Copy, Debug, PartialEq, Eq, Structural)]
pub enum Type {
    Login,
    Logout,
}

impl Default for Type {
    fn default() -> (r: Type)
        ensures
            r == Type::Logout,
    {
        Type::Logout
    }
}

} // verus!
