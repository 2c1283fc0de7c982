//! The host-managed record store: one slot per address, each holding a
//! favorites record or a pending change request.
//!
//! The store is modelled as a finite map from address bytes to record
//! values; the operations below are the only ways a slot is ever created,
//! read, overwritten or reclaimed.

use vstd::prelude::*;

use crate::addr::{derive_favorites_address, favorites_address_of, Address};
use crate::state::{
    apply_target, favorites_view_of, ChangeRequestTarget, Favorites, Record, RecordView,
};
use vstd::pervasive::unreached;

verus! {

/// The map held by a sequence of slots, later slots taking precedence.
pub open spec fn record_map(entries: Seq<(Address, Record)>) -> Map<Seq<u8>, RecordView>
    decreases entries.len(),
{
    if entries.len() == 0 {
        Map::empty()
    } else {
        record_map(entries.drop_last()).insert(entries.last().0@, entries.last().1@)
    }
}

/// No two slots share an address.
pub open spec fn distinct_keys(entries: Seq<(Address, Record)>) -> bool {
    forall|i: int, j: int| 0 <= i < j < entries.len() ==> entries[i].0@ != entries[j].0@
}

proof fn lemma_record_map_contains(entries: Seq<(Address, Record)>, key: Seq<u8>)
    ensures
        record_map(entries).contains_key(key) <==> exists|i: int|
            0 <= i < entries.len() && entries[i].0@ == key,
    decreases entries.len(),
{
    if entries.len() > 0 {
        let prefix = entries.drop_last();
        lemma_record_map_contains(prefix, key);
        let last: int = entries.len() - 1;
        if entries[last].0@ == key {
            assert(record_map(entries).contains_key(key));
        } else {
            if record_map(entries).contains_key(key) {
                let i = choose|i: int| 0 <= i < prefix.len() && prefix[i].0@ == key;
                assert(entries[i].0@ == key);
            }
            if exists|i: int| 0 <= i < entries.len() && entries[i].0@ == key {
                let i = choose|i: int| 0 <= i < entries.len() && entries[i].0@ == key;
                assert(i != last);
                assert(prefix[i].0@ == key);
            }
        }
    }
}

proof fn lemma_prefix_distinct(entries: Seq<(Address, Record)>)
    requires
        distinct_keys(entries),
        entries.len() > 0,
    ensures
        distinct_keys(entries.drop_last()),
{
    let prefix = entries.drop_last();
    assert forall|a: int, b: int| 0 <= a < b < prefix.len() implies prefix[a].0@ != prefix[b].0@ by {
        assert(prefix[a] == entries[a]);
        assert(prefix[b] == entries[b]);
    }
}

proof fn lemma_record_map_index(entries: Seq<(Address, Record)>, i: int)
    requires
        distinct_keys(entries),
        0 <= i < entries.len(),
    ensures
        record_map(entries).contains_key(entries[i].0@),
        record_map(entries)[entries[i].0@] == entries[i].1@,
    decreases entries.len(),
{
    let last: int = entries.len() - 1;
    if i < last {
        let prefix = entries.drop_last();
        lemma_prefix_distinct(entries);
        lemma_record_map_index(prefix, i);
        assert(prefix[i] == entries[i]);
        assert(entries[i].0@ != entries[last].0@);
    }
}

proof fn lemma_push_distinct(entries: Seq<(Address, Record)>, addr: Address, rec: Record)
    requires
        distinct_keys(entries),
        !record_map(entries).contains_key(addr@),
    ensures
        distinct_keys(entries.push((addr, rec))),
        record_map(entries.push((addr, rec))) == record_map(entries).insert(addr@, rec@),
{
    lemma_record_map_contains(entries, addr@);
    let pushed = entries.push((addr, rec));
    assert forall|a: int, b: int| 0 <= a < b < pushed.len() implies pushed[a].0@ != pushed[b].0@ by {
        if b == pushed.len() - 1 {
            assert(pushed[a] == entries[a]);
            assert(!(0 <= a < entries.len() && entries[a].0@ == addr@));
        } else {
            assert(pushed[a] == entries[a]);
            assert(pushed[b] == entries[b]);
        }
    }
    assert(pushed.drop_last() =~= entries);
}

proof fn lemma_record_map_remove(entries: Seq<(Address, Record)>, i: int)
    requires
        distinct_keys(entries),
        0 <= i < entries.len(),
    ensures
        distinct_keys(entries.remove(i)),
        record_map(entries.remove(i)) == record_map(entries).remove(entries[i].0@),
    decreases entries.len(),
{
    let removed = entries.remove(i);
    entries.remove_ensures(i);
    assert forall|a: int, b: int| 0 <= a < b < removed.len() implies removed[a].0@ != removed[b].0@ by {
        if a < i {
            assert(removed[a] == entries[a]);
        } else {
            assert(removed[a] == entries[a + 1]);
        }
        if b < i {
            assert(removed[b] == entries[b]);
        } else {
            assert(removed[b] == entries[b + 1]);
        }
    }
    let last: int = entries.len() - 1;
    let key = entries[i].0@;
    if i == last {
        let prefix = entries.drop_last();
        lemma_record_map_contains(prefix, key);
        assert(!record_map(prefix).contains_key(key)) by {
            if exists|j: int| 0 <= j < prefix.len() && prefix[j].0@ == key {
                let j = choose|j: int| 0 <= j < prefix.len() && prefix[j].0@ == key;
                assert(entries[j].0@ == entries[last].0@);
                assert(false);
            }
        }
        assert(removed =~= prefix);
        assert(record_map(entries).remove(key) =~= record_map(prefix));
    } else {
        let prefix = entries.drop_last();
        lemma_prefix_distinct(entries);
        lemma_record_map_remove(prefix, i);
        assert(prefix[i] == entries[i]);
        assert(removed.drop_last() =~= prefix.remove(i));
        assert(removed.last() == entries.last());
        assert(record_map(removed) == record_map(prefix.remove(i)).insert(
            entries[last].0@,
            entries[last].1@,
        ));
        assert(key != entries[last].0@);
        assert(record_map(prefix).remove(key).insert(entries[last].0@, entries[last].1@)
            =~= record_map(prefix).insert(entries[last].0@, entries[last].1@).remove(key));
    }
}

/// The host-managed storage that the operations read and mutate.
pub struct RecordStore {
    entries: Vec<(Address, Record)>,
}

impl View for RecordStore {
    type V = Map<Seq<u8>, RecordView>;

    closed spec fn view(&self) -> Map<Seq<u8>, RecordView> {
        record_map(self.entries@)
    }
}

impl RecordStore {
    /// Structural soundness: no two slots share an address.
    pub closed spec fn wf(&self) -> bool {
        distinct_keys(self.entries@)
    }

    /// An empty store.
    pub fn new() -> (r: RecordStore)
        ensures
            r.wf(),
            r@ == Map::<Seq<u8>, RecordView>::empty(),
    {
        let r = RecordStore { entries: Vec::new() };
        proof {
            assert(r@ =~= Map::<Seq<u8>, RecordView>::empty());
        }
        r
    }

    fn find_index(&self, addr: &Address) -> (r: Option<usize>)
        requires
            self.wf(),
        ensures
            match r {
                Some(i) => i < self.entries@.len() && self.entries@[i as int].0@ == addr@
                    && self@.contains_key(addr@) && self@[addr@] == self.entries@[i as int].1@,
                None => !self@.contains_key(addr@),
            },
    {
        let n = self.entries.len();
        let mut i: usize = 0;
        while i < n
            invariant
                i <= n,
                n == self.entries@.len(),
                self.wf(),
                forall|j: int| 0 <= j < i ==> self.entries@[j].0@ != addr@,
            decreases n - i,
        {
            if self.entries[i].0 == *addr {
                proof {
                    lemma_record_map_index(self.entries@, i as int);
                }
                return Some(i);
            }
            i = i + 1;
        }
        proof {
            lemma_record_map_contains(self.entries@, addr@);
        }
        None
    }

    /// Whether any record occupies `addr`.
    pub fn contains(&self, addr: &Address) -> (r: bool)
        requires
            self.wf(),
        ensures
            r == self@.contains_key(addr@),
    {
        match self.find_index(addr) {
            Some(_) => true,
            None => false,
        }
    }

    /// The record at `addr`, if any.
    pub fn get_record(&self, addr: &Address) -> (r: Option<&Record>)
        requires
            self.wf(),
        ensures
            match r {
                Some(rec) => self@.contains_key(addr@) && rec@ == self@[addr@],
                None => !self@.contains_key(addr@),
            },
    {
        match self.find_index(addr) {
            Some(i) => Some(&self.entries[i].1),
            None => None,
        }
    }

    /// The favorites record of `user`, looked up at its derived address.
    pub fn favorites_of(&self, user: &Address) -> (r: Option<&Favorites>)
        requires
            self.wf(),
        ensures
            match r {
                Some(f) => self@.contains_key(favorites_address_of(user@))
                    && self@[favorites_address_of(user@)] == RecordView::Favorites(f@),
                None => !(self@.contains_key(favorites_address_of(user@))
                    && self@[favorites_address_of(user@)] is Favorites),
            },
    {
        let addr = derive_favorites_address(user);
        match self.get_record(&addr) {
            Some(rec) => match rec {
                Record::Favorites(f) => Some(f),
                Record::Request(_) => None,
            },
            None => None,
        }
    }

    /// Stores `record` in the fresh slot `addr`.
    pub(crate) fn insert_new(&mut self, addr: Address, record: Record)
        requires
            old(self).wf(),
            !old(self)@.contains_key(addr@),
        ensures
            final(self).wf(),
            final(self)@ == old(self)@.insert(addr@, record@),
    {
        proof {
            lemma_push_distinct(self.entries@, addr, record);
        }
        self.entries.push((addr, record));
    }

    /// Removes and returns the record at `addr`, reclaiming the slot.
    pub(crate) fn take(&mut self, addr: &Address) -> (r: Record)
        requires
            old(self).wf(),
            old(self)@.contains_key(addr@),
        ensures
            final(self).wf(),
            final(self)@ == old(self)@.remove(addr@),
            r@ == old(self)@[addr@],
    {
        let i = match self.find_index(addr) {
            Some(i) => i,
            None => unreached(),
        };
        proof {
            lemma_record_map_remove(self.entries@, i as int);
        }
        let (_, record) = self.entries.remove(i);
        record
    }

    /// Overwrites the targeted field of the favorites record at `addr`,
    /// leaving the other field as it was.
    pub(crate) fn apply_to_favorites(&mut self, addr: &Address, target: ChangeRequestTarget)
        requires
            old(self).wf(),
            old(self)@.contains_key(addr@),
            old(self)@[addr@] is Favorites,
        ensures
            final(self).wf(),
            final(self)@ == old(self)@.insert(
                addr@,
                RecordView::Favorites(
                    apply_target(favorites_view_of(old(self)@[addr@]), target@),
                ),
            ),
    {
        let i = match self.find_index(addr) {
            Some(i) => i,
            None => unreached(),
        };
        proof {
            lemma_record_map_remove(self.entries@, i as int);
        }
        let (slot_addr, record) = self.entries.remove(i);
        let fav = match record {
            Record::Favorites(f) => f,
            Record::Request(_) => unreached(),
        };
        let updated = match target {
            ChangeRequestTarget::Number { new_number } => (Favorites {
                number: new_number,
                color: fav.color,
            }),
            ChangeRequestTarget::Color { new_color } => (Favorites {
                number: fav.number,
                color: new_color,
            }),
        };
        proof {
            lemma_push_distinct(self.entries@, slot_addr, Record::Favorites(updated));
            assert(old(self)@.remove(addr@).insert(addr@, Record::Favorites(updated)@)
                =~= old(self)@.insert(addr@, Record::Favorites(updated)@));
        }
        self.entries.push((slot_addr, Record::Favorites(updated)));
    }
}

} // verus!
