//! Names of the per-tenant setting values as the store keeps them.
use vstd::prelude::*;
use crate::text::same_text;

verus! {

/// What earns a level role: messages written or time spent in voice.
#[derive(Clone, Copy, Debug, PartialEq, Eq, Structural)]
pub enum RoleKind {
    Message,
    Voice,
}

impl RoleKind {
    pub open spec fn name(self) -> Seq<char> {
        match self {
            RoleKind::Message => "message"@,
            RoleKind::Voice => "voice"@,
        }
    }

    pub fn as_str(&self) -> (r: &'static str)
        ensures
            r@ == self.name(),
    {
        match self {
            RoleKind::Message => "message",
            RoleKind::Voice => "voice",
        }
    }

    /// Reads a stored name; any name but "message" is taken for voice.
    pub fn from_name(name: &str) -> (r: RoleKind)
        ensures
            r == if name@ == "message"@ { RoleKind::Message } else { RoleKind::Voice },
    {
        if same_text(name, "message") { RoleKind::Message } else { RoleKind::Voice }
    }
}

/// A feature area that a tenant can switch on.
#[derive(Clone, Copy, Debug, PartialEq, Eq, Structural)]
pub enum Module {
    Actions,
    Levels,
    SharedRoles,
}

impl Module {
    pub open spec fn name(self) -> Seq<char> {
        match self {
            Module::Actions => "actions"@,
            Module::Levels => "levels"@,
            Module::SharedRoles => "shared_roles"@,
        }
    }

    pub fn as_str(&self) -> (r: &'static str)
        ensures
            r@ == self.name(),
    {
        match self {
            Module::Actions => "actions",
            Module::Levels => "levels",
            Module::SharedRoles => "shared_roles",
        }
    }

    /// Reads a stored name; any name but "actions" and "levels" is taken for
    /// shared roles.
    pub fn from_name(name: &str) -> (r: Module)
        ensures
            r == if name@ == "actions"@ {
                Module::Actions
            } else if name@ == "levels"@ {
                Module::Levels
            } else {
                Module::SharedRoles
            },
    {
        if same_text(name, "actions") {
            Module::Actions
        } else if same_text(name, "levels") {
            Module::Levels
        } else {
            Module::SharedRoles
        }
    }
}

} // verus!
