//! The table that says which notification channel of the destination stands
//! for a channel of the source.

use vstd::hash_map::StringHashMap;
use vstd::prelude::*;

verus! {

/// A finite table from source channel identifiers to destination channel
/// identifiers. A lookup matches the whole identifier, character by character.
pub struct ChannelMap {
    table: StringHashMap<String>,
}

impl View for ChannelMap {
    type V = Map<Seq<char>, Seq<char>>;

    closed spec fn view(&self) -> Map<Seq<char>, Seq<char>> {
        self.table@.map_values(|destination: String| destination@)
    }
}

impl ChannelMap {
    /// The table without entries.
    pub fn new() -> (result: ChannelMap)
        ensures
            result@ == Map::<Seq<char>, Seq<char>>::empty(),
    {
        let result = ChannelMap { table: StringHashMap::new() };
        assert(result@ =~= Map::<Seq<char>, Seq<char>>::empty());
        result
    }

    /// Lets `destination` stand for `source`, in place of whatever stood for it before.
    pub fn insert(&mut self, source: String, destination: String)
        ensures
            final(self)@ == old(self)@.insert(source@, destination@),
    {
        self.table.insert(source, destination);
        assert(self@ =~= old(self)@.insert(source@, destination@));
    }

    /// The destination channel that stands for `source`, if the table has one.
    pub fn get(&self, source: &str) -> (result: Option<&String>)
        ensures
            match result {
                Some(destination) => self@.contains_key(source@) && destination@
                    == self@[source@],
                None => !self@.contains_key(source@),
            },
    {
        self.table.get(source)
    }

    /// Whether the table has an entry for `source`.
    pub fn contains(&self, source: &str) -> (result: bool)
        ensures
            result == self@.contains_key(source@),
    {
        self.table.contains_key(source)
    }

    /// The number of entries.
    pub fn len(&self) -> (result: usize)
        ensures
            result == self@.len(),
    {
        proof {
            assert(self@.dom() =~= self.table@.dom());
        }
        self.table.len()
    }
}

} // verus!
