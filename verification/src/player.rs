//! Player identifiers.

use vstd::prelude::*;

verus! {

/// An opaque player identifier. The session only stores identifiers and
/// compares them for equality; the key is the textual form under which the
/// host knows the player.
#[derive(Debug, PartialEq, Eq)]
pub struct PlayerId {
    pub key: String,
}

impl View for PlayerId {
    type V = Seq<char>;

    open spec fn view(&self) -> Seq<char> {
        self.key@
    }
}

impl PlayerId {
    /// Wraps an owned key.
    pub fn new(key: String) -> (id: PlayerId)
        ensures
            id@ == key@,
    {
        PlayerId { key }
    }

    /// Copies a borrowed key.
    pub fn from_str(key: &str) -> (id: PlayerId)
        ensures
            id@ == key@,
    {
        PlayerId { key: key.to_owned() }
    }

    /// The key as text.
    pub fn as_str(&self) -> (key: &str)
        ensures
            key@ == self@,
    {
        self.key.as_str()
    }

    /// Whether two identifiers name the same player.
    pub fn same(&self, other: &PlayerId) -> (eq: bool)
        ensures
            eq == (self@ == other@),
    {
        self.key == other.key
    }
}

impl Clone for PlayerId {
    fn clone(&self) -> (id: PlayerId)
        ensures
            id@ == self@,
    {
        PlayerId { key: self.key.clone() }
    }
}

} // verus!
