//! Hierarchical string identifier for actors. An `ActorPath` is an immutable
//! string-backed value compared by value; it is the sole registry key. No
//! hierarchy semantics are enforced beyond string equality (slash-separated
//! paths are a convention only).

use vstd::prelude::*;

verus! {

/// Immutable string-backed actor identifier, compared and hashed by value.
#[derive(Debug, Hash)]
pub struct ActorPath {
    path: String,
}

impl View for ActorPath {
    type V = Seq<char>;

    closed spec fn view(&self) -> Seq<char> {
        self.path@
    }
}

impl ActorPath {
    /// Builds a path from a string slice.
    pub fn new(s: &str) -> (r: ActorPath)
        ensures
            r@ == s@,
    {
        ActorPath { path: s.to_owned() }
    }

    /// Read-only string view of the path.
    pub fn as_str(&self) -> (r: &str)
        ensures
            r@ == self@,
    {
        self.path.as_str()
    }
}

impl Clone for ActorPath {
    fn clone(&self) -> (r: Self)
        ensures
            r@ == self@,
    {
        ActorPath { path: self.path.clone() }
    }
}

impl PartialEq for ActorPath {
    fn eq(&self, other: &Self) -> (r: bool) {
        self.path == other.path
    }
}

impl Eq for ActorPath {

}

impl vstd::std_specs::cmp::PartialEqSpecImpl for ActorPath {
    open spec fn obeys_eq_spec() -> bool {
        true
    }

    open spec fn eq_spec(&self, other: &Self) -> bool {
        self@ == other@
    }
}

} // verus!
