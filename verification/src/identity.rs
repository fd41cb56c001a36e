//! Principals: accounts, spenders and the administrator.

use vstd::prelude::*;

verus! {

/// A principal, known by its key. Two identities are the same principal when
/// their keys are the same text.
#[derive(Debug, PartialEq, Eq)]
pub struct Identity {
    key: String,
}

impl View for Identity {
    type V = Seq<char>;

    closed spec fn view(&self) -> Seq<char> {
        self.key@
    }
}

impl Identity {
    /// The identity with the given key.
    pub fn new(key: String) -> (id: Identity)
        ensures
            id@ == key@,
    {
        Identity { key }
    }

    /// The identity whose key is the given text.
    pub fn from_key(key: &str) -> (id: Identity)
        ensures
            id@ == key@,
    {
        Identity { key: key.to_owned() }
    }

    /// The key of this identity.
    pub fn key(&self) -> (key: &str)
        ensures
            key@ == self@,
    {
        self.key.as_str()
    }

    /// Whether `self` and `other` are the same principal.
    pub fn same(&self, other: &Identity) -> (same: bool)
        ensures
            same == (self@ == other@),
    {
        self.key == other.key
    }
}

impl Clone for Identity {
    fn clone(&self) -> (copy: Identity)
        ensures
            copy == *self,
            copy@ == self@,
    {
        Identity { key: self.key.clone() }
    }
}

} // verus!
