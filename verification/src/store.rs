//! The entity store: a durable map from identifiers to records of one kind.
use vstd::prelude::*;
use vstd::pervasive::unreached;
use core::marker::PhantomData;
use crate::listing::{
    ascending, is_listing, lemma_listing_exists, lemma_listing_is_ascending, lemma_listing_len,
};
use crate::record::{encode_bounded, lemma_storable_round_trip, storable, Record};
use crate::stable::{
    lists_bytes, open_partitions, open_rows, rows_contains, rows_entries, rows_get, rows_insert,
    rows_len, stored, StableRows,
};
use crate::tally::views;

verus! {

/// The record was not kept: its encoding is over the bound of the stores.
#[derive(Debug, Clone, Copy, PartialEq, Eq)]
pub struct RecordTooLarge;

/// The views of a sequence of rows.
pub open spec fn row_views<T: View>(rows: Seq<(u64, T)>) -> Seq<(u64, T::V)> {
    Seq::new(rows.len(), |i: int| (rows[i].0, rows[i].1@))
}

/// The records of a sequence of rows, without their identifiers.
pub open spec fn values<A>(rows: Seq<(u64, A)>) -> Seq<A> {
    Seq::new(rows.len(), |i: int| rows[i].1)
}

/// A durable map from identifiers to records of kind `T`.
///
/// Its view is the map itself; `rows` is the same content as the sequence of
/// its entries by ascending identifier, which is what a scan returns.
pub struct Store<T: Record> {
    rows: StableRows,
    kind: PhantomData<T>,
}

impl<T: Record> View for Store<T> {
    type V = Map<u64, T::V>;

    open spec fn view(&self) -> Map<u64, T::V> {
        Map::new(
            |id: u64| self.raw().dom().contains(id),
            |id: u64| T::decoding(self.raw()[id])->0,
        )
    }
}

impl<T: Record> Store<T> {
    /// The bytes kept under each identifier.
    pub closed spec fn raw(&self) -> Map<u64, Seq<u8>> {
        stored(self.rows)
    }

    /// The store holds finitely many rows, and each is the encoding of a
    /// record.
    pub open spec fn wf(&self) -> bool {
        &&& self.raw().dom().finite()
        &&& forall|id: u64| #[trigger]
            self.raw().dom().contains(id) ==> T::decoding(self.raw()[id]) is Some
    }

    /// The entries by ascending identifier.
    pub open spec fn rows(&self) -> Seq<(u64, T::V)> {
        ascending(self@)
    }

    /// The rows are a full listing of the map, and as many as it has keys.
    pub proof fn lemma_rows(&self)
        requires
            self.wf(),
        ensures
            self@.dom().finite(),
            is_listing(self.rows(), self@),
            self.rows().len() == self@.dom().len(),
    {
        assert(self@.dom() =~= self.raw().dom());
        lemma_listing_exists(self@);
        lemma_listing_len(self.rows(), self@);
    }

    /// Opens the store that partition `partition` of the memory of the
    /// program holds, or an empty one where it holds none. There is no
    /// partition 255, and a partition with a row that is no encoding of a
    /// `T` is refused.
    ///
    /// A partition is to be opened once: two stores over one partition do
    /// not see each other's writes.
    pub fn open(partition: u8) -> (r: Option<Self>)
        ensures
            r is Some ==> r->0.wf(),
            partition == 255 ==> r is None,
    {
        if partition == 255 {
            return None;
        }
        let parts = open_partitions();
        Self::adopt(open_rows(&parts, partition))
    }

    /// Takes over a map of byte strings as a store of `T`, if every row of
    /// it is the encoding of a `T`.
    pub fn adopt(rows: StableRows) -> (r: Option<Self>)
        ensures
            match r {
                Some(store) => store.wf() && store.raw() == stored(rows),
                None => exists|id: u64| #[trigger]
                    stored(rows).dom().contains(id) && T::decoding(stored(rows)[id]) is None,
            },
    {
        let entries = rows_entries(&rows);
        let ghost m = stored(rows);
        let n = entries.len();
        let mut i: usize = 0;
        while i < n
            invariant
                n == entries.len(),
                i <= n,
                m == stored(rows),
                lists_bytes(entries@, m),
                forall|j: int| 0 <= j < i ==> T::decoding(#[trigger] entries[j].1@) is Some,
            decreases n - i,
        {
            let decoded = T::decode(entries[i].1.as_slice());
            if decoded.is_none() {
                assert(m.dom().contains(entries[i as int].0));
                return None;
            }
            i += 1;
        }
        proof {
            let s = Seq::new(entries@.len(), |j: int| (entries[j].0, entries[j].1@));
            assert(is_listing(s, m)) by {
                assert forall|k: u64| #[trigger] m.dom().contains(k) implies exists|j: int|
                    0 <= j < s.len() && s[j].0 == k by {
                    let j = choose|j: int| 0 <= j < entries.len() && entries[j].0 == k;
                    assert(s[j].0 == k);
                }
            }
            lemma_listing_len(s, m);
            assert forall|id: u64| #[trigger] m.dom().contains(id) implies T::decoding(m[id])
                is Some by {
                let j = choose|j: int| 0 <= j < entries.len() && entries[j].0 == id;
                assert(m[entries[j].0] == entries[j].1@);
            }
        }
        Some(Store { rows, kind: PhantomData })
    }

    /// The number of rows.
    pub fn len(&self) -> (n: u64)
        requires
            self.wf(),
        ensures
            n == self@.dom().len(),
            n == self.rows().len(),
    {
        proof {
            self.lemma_rows();
            assert(self@.dom() =~= self.raw().dom());
        }
        rows_len(&self.rows)
    }

    /// Whether the store holds no row.
    pub fn is_empty(&self) -> (empty: bool)
        requires
            self.wf(),
        ensures
            empty == (self.rows().len() == 0),
    {
        self.len() == 0
    }

    /// Whether a row is kept under `id`.
    pub fn contains(&self, id: u64) -> (found: bool)
        requires
            self.wf(),
        ensures
            found == self@.dom().contains(id),
    {
        rows_contains(&self.rows, id)
    }

    /// The record kept under `id`, if one is.
    pub fn get(&self, id: u64) -> (r: Option<T>)
        requires
            self.wf(),
        ensures
            match r {
                Some(rec) => self@.dom().contains(id) && self@[id] == rec@,
                None => !self@.dom().contains(id),
            },
    {
        match rows_get(&self.rows, id) {
            Some(bytes) => {
                let decoded = T::decode(bytes.as_slice());
                if decoded.is_none() {
                    proof {
                        assert(self.raw().dom().contains(id));
                    }
                    unreached()
                } else {
                    decoded
                }
            },
            None => None,
        }
    }

    /// Keeps `rec` under `id`, in place of the record that was kept there,
    /// and returns that record. A record whose encoding is over the bound is
    /// not kept, and the store stays as it was.
    pub fn insert(&mut self, id: u64, rec: &T) -> (r: Result<Option<T>, RecordTooLarge>)
        requires
            old(self).wf(),
        ensures
            final(self).wf(),
            match r {
                Ok(previous) => {
                    &&& storable::<T>(rec@)
                    &&& final(self)@ == old(self)@.insert(id, rec@)
                    &&& match previous {
                        Some(p) => old(self)@.dom().contains(id) && old(self)@[id] == p@,
                        None => !old(self)@.dom().contains(id),
                    }
                },
                Err(_) => !storable::<T>(rec@) && final(self)@ == old(self)@,
            },
    {
        match encode_bounded(rec) {
            Some(bytes) => Ok(self.put(id, bytes.as_slice(), Ghost(rec@))),
            None => Err(RecordTooLarge),
        }
    }

    /// Keeps under `id` the bytes that encode `v`.
    pub(crate) fn put(&mut self, id: u64, bytes: &[u8], Ghost(v): Ghost<T::V>) -> (previous:
        Option<T>)
        requires
            old(self).wf(),
            storable::<T>(v),
            bytes@ == T::encoding(v),
        ensures
            final(self).wf(),
            final(self)@ == old(self)@.insert(id, v),
            match previous {
                Some(p) => old(self)@.dom().contains(id) && old(self)@[id] == p@,
                None => !old(self)@.dom().contains(id),
            },
    {
        proof {
            lemma_storable_round_trip::<T>(v);
        }
        let before = rows_insert(&mut self.rows, id, bytes);
        proof {
            assert(self@ =~= old(self)@.insert(id, v));
        }
        match before {
            Some(old_bytes) => {
                let decoded = T::decode(old_bytes.as_slice());
                if decoded.is_none() {
                    proof {
                        assert(old(self).raw().dom().contains(id));
                    }
                    unreached()
                } else {
                    decoded
                }
            },
            None => None,
        }
    }

    /// Every record, by ascending identifier.
    pub fn records(&self) -> (out: Vec<T>)
        requires
            self.wf(),
        ensures
            views(out@) == values(self.rows()),
    {
        let rows = self.scan();
        let n = rows.len();
        let mut out: Vec<T> = Vec::new();
        let mut i: usize = 0;
        while i < n
            invariant
                n == rows.len(),
                i <= n,
                out.len() == i,
                forall|j: int| 0 <= j < i ==> (#[trigger] out[j])@ == rows[j].1@,
            decreases n - i,
        {
            out.push(rows[i].1.duplicate());
            i += 1;
        }
        assert(views(out@) =~= values(row_views(rows@)));
        out
    }

    /// Every row, by ascending identifier.
    pub fn scan(&self) -> (out: Vec<(u64, T)>)
        requires
            self.wf(),
        ensures
            row_views(out@) == self.rows(),
    {
        let entries = rows_entries(&self.rows);
        let n = entries.len();
        let mut out: Vec<(u64, T)> = Vec::new();
        let mut i: usize = 0;
        while i < n
            invariant
                self.wf(),
                n == entries.len(),
                i <= n,
                out.len() == i,
                lists_bytes(entries@, self.raw()),
                forall|j: int|
                    0 <= j < i ==> (#[trigger] out[j]).0 == entries[j].0 && T::decoding(
                        entries[j].1@,
                    ) == Some(out[j].1@),
            decreases n - i,
        {
            let key = entries[i].0;
            match T::decode(entries[i].1.as_slice()) {
                Some(rec) => {
                    out.push((key, rec));
                },
                None => {
                    proof {
                        assert(self.raw().dom().contains(entries[i as int].0));
                    }
                    unreached::<()>();
                },
            }
            i += 1;
        }
        proof {
            let s = row_views(out@);
            assert(is_listing(s, self@)) by {
                assert forall|a: int, b: int| 0 <= a < b < s.len() implies s[a].0 < s[b].0 by {
                    assert(out[a].0 == entries[a].0);
                    assert(out[b].0 == entries[b].0);
                }
                assert forall|a: int| 0 <= a < s.len() implies self@.dom().contains(
                    #[trigger] s[a].0,
                ) && self@[s[a].0] == s[a].1 by {
                    assert(out[a].0 == entries[a].0);
                    assert(self.raw().dom().contains(entries[a].0));
                }
                assert forall|k: u64| #[trigger] self@.dom().contains(k) implies exists|a: int|
                    0 <= a < s.len() && s[a].0 == k by {
                    assert(self.raw().dom().contains(k));
                    let a = choose|a: int| 0 <= a < entries.len() && entries[a].0 == k;
                    assert(out[a].0 == entries[a].0);
                    assert(s[a].0 == k);
                }
            }
            lemma_listing_is_ascending(s, self@);
        }
        out
    }
}

} // verus!
