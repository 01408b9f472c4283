//! Role tags of catalog entries, used by the read side to filter the
//! catalog view; the engine itself treats catalog identifiers as opaque.

use vstd::prelude::*;

verus! {

/// A role a catalog entry can play. `All` is the wildcard that matches
/// every entry.
#[derive(Clone, Copy, Debug, PartialEq, Eq, Structural)]
pub enum Role {
    All,
    Top,
    Jungle,
    Middle,
    Bottom,
    Support,
}

impl Role {
    /// True exactly on the wildcard role.
    pub fn is_all(&self) -> (r: bool)
        ensures
            r == (*self == Role::All),
    {
        matches!(self, Role::All)
    }
}

impl Default for Role {
    /// The wildcard is the default selection.
    fn default() -> (r: Role)
        ensures
            r == Role::All,
    {
        Role::All
    }
}

} // verus!
