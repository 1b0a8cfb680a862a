//! Maps from names to values.
use vstd::prelude::*;

use crate::text::same_text;

verus! {

/// A map from names to values. Of two entries with one name, the later counts.
#[derive(Debug, PartialEq, Eq)]
pub struct NameMap<V> {
    pub entries: Vec<(String, V)>,
}

/// The map that a sequence of entries stands for: later entries replace earlier ones.
pub open spec fn entries_map<V>(entries: Seq<(Seq<char>, V)>) -> Map<Seq<char>, V>
    decreases entries.len(),
{
    if entries.len() == 0 {
        Map::empty()
    } else {
        entries_map(entries.drop_last()).insert(entries.last().0, entries.last().1)
    }
}

impl<V: DeepView> DeepView for NameMap<V> {
    type V = Map<Seq<char>, V::V>;

    open spec fn deep_view(&self) -> Map<Seq<char>, V::V> {
        entries_map(self.entries.deep_view())
    }
}

impl<V: DeepView> NameMap<V> {
    /// The value of a name, if it has one.
    pub fn get(&self, name: &str) -> (value: Option<&V>)
        ensures
            match value {
                Some(v) => self.deep_view().contains_key(name@) && self.deep_view()[name@]
                    == v.deep_view(),
                None => !self.deep_view().contains_key(name@),
            },
    {
        let ghost all = self.entries.deep_view();
        let mut i: usize = self.entries.len();
        assert(all.take(i as int) =~= all);
        while i > 0
            invariant
                i <= self.entries@.len(),
                all == self.entries.deep_view(),
                self.deep_view() == entries_map(all),
                entries_map(all).contains_key(name@) == entries_map(
                    all.take(i as int),
                ).contains_key(name@),
                entries_map(all)[name@] == entries_map(all.take(i as int))[name@],
            decreases i,
        {
            i = i - 1;
            let ghost part = all.take(i + 1);
            assert(part.drop_last() =~= all.take(i as int));
            let ghost entry = self.entries@[i as int];
            assert(part.last() == (entry.0@, entry.1.deep_view()));
            if same_text(self.entries[i].0.as_str(), name) {
                return Some(&self.entries[i].1);
            }
        }
        None
    }
}

} // verus!
