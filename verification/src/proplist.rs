//! The property list that a client attaches to its streams.
use crate::text::same_text;
use vstd::prelude::*;

verus! {

/// A set of named text properties.
#[derive(Debug)]
pub struct Proplist {
    entries: Vec<(String, String)>,
}

impl View for Proplist {
    type V = Map<Seq<char>, Seq<char>>;

    closed spec fn view(&self) -> Map<Seq<char>, Seq<char>> {
        properties(self.entries@)
    }
}

/// The properties that a list of entries stands for.
spec fn properties(entries: Seq<(String, String)>) -> Map<Seq<char>, Seq<char>>
    decreases entries.len(),
{
    if entries.len() == 0 {
        Map::empty()
    } else {
        properties(entries.drop_last()).insert(entries.last().0@, entries.last().1@)
    }
}

/// The properties that entries stand for are those of the last entry with each key.
proof fn properties_by_key(entries: Seq<(String, String)>, key: Seq<char>, at: int)
    requires
        -1 <= at < entries.len(),
        at >= 0 ==> entries[at].0@ == key,
        forall|i: int| at < i < entries.len() ==> (#[trigger] entries[i]).0@ != key,
    ensures
        properties(entries).contains_key(key) <==> at >= 0,
        at >= 0 ==> properties(entries)[key] == entries[at].1@,
    decreases entries.len(),
{
    if entries.len() > 0 && at < entries.len() - 1 {
        assert(entries.last() == entries[entries.len() - 1]);
        assert forall|i: int| at < i < entries.drop_last().len() implies (
        #[trigger] entries.drop_last()[i]).0@ != key by {
            assert(entries.drop_last()[i] == entries[i]);
        }
        properties_by_key(entries.drop_last(), key, at);
    }
}

/// The property under a key, if there is one.
pub open spec fn property(properties: Map<Seq<char>, Seq<char>>, key: Seq<char>) -> Option<
    Seq<char>,
> {
    if properties.contains_key(key) {
        Some(properties[key])
    } else {
        None
    }
}

impl Proplist {
    /// A list without properties.
    pub fn new() -> (list: Self)
        ensures
            list@ == Map::<Seq<char>, Seq<char>>::empty(),
    {
        Proplist { entries: Vec::new() }
    }

    /// Sets a property, in place of one that has the same key.
    pub fn set_str(&mut self, key: String, value: String)
        ensures
            final(self)@ == old(self)@.insert(key@, value@),
    {
        let ghost before = self.entries@;
        self.entries.push((key, value));
        assert(self.entries@.drop_last() =~= before);
    }

    /// The property under `key`, if there is one.
    pub fn get_str(&self, key: &str) -> (value: Option<String>)
        ensures
            crate::streams::optional_text(value) == property(self@, key@),
            value is Some <==> self@.contains_key(key@),
            value matches Some(text) ==> text@ == self@[key@],
    {
        let mut at: usize = self.entries.len();
        while at > 0
            invariant
                at <= self.entries@.len(),
                forall|i: int|
                    at <= i < self.entries@.len() ==> (#[trigger] self.entries@[i]).0@ != key@,
            decreases at,
        {
            at = at - 1;
            if same_text(&self.entries[at].0, key) {
                proof {
                    properties_by_key(self.entries@, key@, at as int);
                }
                return Some(self.entries[at].1.clone());
            }
        }
        proof {
            properties_by_key(self.entries@, key@, -1);
        }
        None
    }
}

/// A property that was set is found again as it was set, whatever its text, and no other property
/// is changed by it.
pub proof fn set_property_is_found(
    properties: Map<Seq<char>, Seq<char>>,
    key: Seq<char>,
    value: Seq<char>,
    other: Seq<char>,
)
    ensures
        property(properties.insert(key, value), key) == Some(value),
        other != key ==> property(properties.insert(key, value), other) == property(
            properties,
            other,
        ),
        property(Map::<Seq<char>, Seq<char>>::empty(), key) is None,
{
}

} // verus!
