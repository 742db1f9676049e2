//! A register of connection keys, in which a key may be entered more than once.

use crate::key::{CodexAppsConnectionKey, ConnectionKeyView};
use vstd::multiset::Multiset;
use vstd::prelude::*;

verus! {

/// A register of connection keys. What matters of it is how often each key is entered.
#[derive(Debug)]
pub struct KeyRegister {
    keys: Vec<CodexAppsConnectionKey>,
}

impl View for KeyRegister {
    type V = Multiset<ConnectionKeyView>;

    closed spec fn view(&self) -> Multiset<ConnectionKeyView> {
        self.entries().to_multiset()
    }
}

/// Taking an entry out by moving the last one into its place takes out exactly that entry.
proof fn lemma_swap_removed<T>(entries: Seq<T>, index: int)
    requires
        0 <= index < entries.len(),
    ensures
        entries.update(index, entries.last()).drop_last().to_multiset()
            == entries.to_multiset().remove(entries[index]),
{
    broadcast use vstd::seq_lib::group_to_multiset_ensures;

    let rest = entries.drop_last();
    let last = entries.last();
    assert(entries =~= rest.push(last));
    vstd::seq_lib::to_multiset_build(rest, last);
    let removed = entries.update(index, last).drop_last();
    if index == rest.len() {
        assert(removed =~= rest);
        assert(rest.to_multiset() =~= rest.to_multiset().insert(last).remove(last));
    } else {
        assert(removed =~= rest.remove(index).insert(index, last));
        vstd::seq_lib::to_multiset_remove(rest, index);
        vstd::seq_lib::to_multiset_insert(rest.remove(index), index, last);
        assert(rest.contains(rest[index]));
        assert(removed.to_multiset() =~= entries.to_multiset().remove(entries[index]));
    }
}

impl KeyRegister {
    spec fn entries(&self) -> Seq<ConnectionKeyView> {
        self.keys@.map_values(|key: CodexAppsConnectionKey| key@)
    }

    /// A register with no entry.
    pub fn new() -> (register: Self)
        ensures
            register@ == Multiset::<ConnectionKeyView>::empty(),
    {
        let register = KeyRegister { keys: Vec::new() };
        proof {
            broadcast use vstd::seq_lib::group_to_multiset_ensures;

            assert(register.entries() =~= Seq::empty());
            assert(register@ =~= Multiset::empty());
        }
        register
    }

    /// The place of the first entry of `key`.
    fn position(&self, key: &CodexAppsConnectionKey) -> (place: Option<usize>)
        ensures
            place matches Some(index) ==> index < self.keys@.len() && self.keys@[index as int]@
                == key@,
            place is None ==> !self.entries().contains(key@),
    {
        let mut index: usize = 0;
        while index < self.keys.len()
            invariant
                index <= self.keys@.len(),
                forall|i: int| 0 <= i < index ==> (#[trigger] self.keys@[i])@ != key@,
            decreases self.keys@.len() - index,
        {
            if self.keys[index] == *key {
                return Some(index);
            }
            index = index + 1;
        }
        assert forall|i: int| 0 <= i < self.entries().len() implies self.entries()[i] != key@ by {
            assert(self.entries()[i] == self.keys@[i]@);
        }
        None
    }

    /// Whether `key` is entered at least once.
    pub fn contains(&self, key: &CodexAppsConnectionKey) -> (entered: bool)
        ensures
            entered == self@.contains(key@),
    {
        let place = self.position(key);
        proof {
            broadcast use vstd::seq_lib::group_to_multiset_ensures;

            if let Some(index) = place {
                assert(self.entries()[index as int] == key@);
                assert(self.entries().contains(key@));
            }
        }
        place.is_some()
    }

    /// Whether nothing is entered.
    pub fn is_empty(&self) -> (empty: bool)
        ensures
            empty == (self@ == Multiset::<ConnectionKeyView>::empty()),
    {
        proof {
            broadcast use vstd::seq_lib::group_to_multiset_ensures;

            assert(self.entries().len() == self.keys@.len());
            if self.keys@.len() == 0 {
                assert(self@ =~= Multiset::empty());
            } else {
                assert(self.entries().contains(self.entries()[0]));
                assert(self@.count(self.entries()[0]) > 0);
            }
        }
        self.keys.len() == 0
    }

    /// Enters `key` once more.
    pub fn enter(&mut self, key: CodexAppsConnectionKey)
        ensures
            final(self)@ == old(self)@.insert(key@),
    {
        self.keys.push(key);
        proof {
            assert(self.entries() =~= old(self).entries().push(key@));
            vstd::seq_lib::to_multiset_build(old(self).entries(), key@);
        }
    }

    /// Takes out one entry of `key`, if there is one.
    pub fn strike(&mut self, key: &CodexAppsConnectionKey)
        ensures
            final(self)@ == old(self)@.remove(key@),
    {
        match self.position(key) {
            Some(index) => {
                self.keys.swap_remove(index);
                proof {
                    let before = old(self).entries();
                    assert(before[index as int] == key@);
                    assert(self.entries() =~= before.update(
                        index as int,
                        before.last(),
                    ).drop_last());
                    lemma_swap_removed(before, index as int);
                }
            },
            None => {
                proof {
                    broadcast use vstd::seq_lib::group_to_multiset_ensures;

                    assert(self@ =~= old(self)@.remove(key@));
                }
            },
        }
    }
}

} // verus!
