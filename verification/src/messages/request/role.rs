//! Who wrote a message.

use crate::common::text::str_eq;
use vstd::prelude::*;

verus! {

/// The author of a message.
#[derive(Debug, Clone, Copy, PartialEq, Eq, Structural)]
pub enum Role {
    User,
    Assistant,
}

impl Role {
    /// The name of the role on the wire.
    pub open spec fn name(self) -> Seq<char> {
        match self {
            Role::User => "user"@,
            Role::Assistant => "assistant"@,
        }
    }

    /// The role with the wire name `name`, if there is one.
    pub open spec fn named(name: Seq<char>) -> Option<Role> {
        if name == "user"@ {
            Some(Role::User)
        } else if name == "assistant"@ {
            Some(Role::Assistant)
        } else {
            None
        }
    }

    /// The wire name of a role names that role.
    pub proof fn lemma_name_round_trip(self)
        ensures
            Self::named(self.name()) == Some(self),
    {
        reveal_strlit("user");
        reveal_strlit("assistant");
        assert("user"@.len() == 4);
        assert("assistant"@.len() == 9);
    }

    /// The name of the role on the wire.
    pub fn as_str(&self) -> (name: &'static str)
        ensures
            name@ == self.name(),
    {
        match self {
            Role::User => "user",
            Role::Assistant => "assistant",
        }
    }

    /// The role with the wire name `name`.
    pub fn from_name(name: &str) -> (role: Option<Role>)
        ensures
            role == Self::named(name@),
    {
        if str_eq(name, "user") {
            Some(Role::User)
        } else if str_eq(name, "assistant") {
            Some(Role::Assistant)
        } else {
            None
        }
    }
}

} // verus!
