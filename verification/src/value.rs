//! The three-element truth domain: true, false, unknown.

use vstd::prelude::*;

verus! {

/// A ternary truth value. Only `Bool` carries a definite boolean; `Unknown`
/// carries none.
#[derive(Debug, Clone, Copy, PartialEq, Eq, Structural)]
pub enum V {
    Bool(bool),
    Unknown,
}

/// The boolean that `v` projects to, if any: `Bool(b)` projects to `Some(b)`,
/// `Unknown` to `None`.
pub open spec fn spec_to_bool(v: V) -> Option<bool> {
    match v {
        V::Bool(b) => Some(b),
        V::Unknown => None,
    }
}

impl V {
    /// Projects a definite value to its boolean; `Unknown` has none.
    pub fn to_bool(&self) -> (r: Option<bool>)
        ensures
            r == spec_to_bool(*self),
    {
        match self {
            V::Bool(b) => Some(*b),
            V::Unknown => None,
        }
    }
}

/// The free-function form of the projection to a boolean.
pub fn v_to_bool(v: &V) -> (r: Option<bool>)
    ensures
        r == spec_to_bool(*v),
{
    v.to_bool()
}

} // verus!
