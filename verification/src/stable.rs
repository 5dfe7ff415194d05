//! The durable structures underneath the stores.
//!
//! The rows of a store live in a `StableBTreeMap` and the identifier counter
//! in a `Cell`, both of `ic_stable_structures`, each in its own partition of
//! one memory that a `MemoryManager` divides. Nothing in this file is proved:
//! it states what those structures are taken to do, and the rest of the
//! library is proved against these statements.
//!
//! A failure of the memory underneath (it cannot grow, or it holds a layout
//! that the structures do not recognise) stops the program inside the
//! structure; no statement here covers it.
use vstd::prelude::*;
use ic_stable_structures::{Cell, DefaultMemoryImpl, StableBTreeMap};
use ic_stable_structures::memory_manager::{MemoryId, MemoryManager, VirtualMemory};
use ic_stable_structures::storable::Blob;

verus! {

/// The memory of the program, divided into partitions: a `MemoryManager`
/// over `DefaultMemoryImpl`.
#[verifier::external_body]
pub struct Partitions {
    manager: MemoryManager<DefaultMemoryImpl>,
}

/// The rows of one store: a `StableBTreeMap` from identifiers to byte
/// strings of at most 512 bytes.
#[verifier::external_body]
pub struct StableRows {
    map: StableBTreeMap<u64, Blob<512>, VirtualMemory<DefaultMemoryImpl>>,
}

/// The identifier counter: a `Cell` that holds one `u64`.
#[verifier::external_body]
pub struct StableCounter {
    cell: Cell<u64, VirtualMemory<DefaultMemoryImpl>>,
}

/// What the map holds: the bytes kept under each key.
pub uninterp spec fn stored(rows: StableRows) -> Map<u64, Seq<u8>>;

/// The number that the cell holds.
pub uninterp spec fn counted(counter: StableCounter) -> u64;

/// Whether `entries` lists `m` in full, by ascending key.
pub open spec fn lists_bytes(entries: Seq<(u64, Vec<u8>)>, m: Map<u64, Seq<u8>>) -> bool {
    &&& forall|i: int, j: int| 0 <= i < j < entries.len() ==> entries[i].0 < entries[j].0
    &&& forall|i: int|
        0 <= i < entries.len() ==> m.dom().contains(#[trigger] entries[i].0) && m[entries[i].0]
            == entries[i].1@
    &&& forall|k: u64| #[trigger]
        m.dom().contains(k) ==> exists|i: int| 0 <= i < entries.len() && entries[i].0 == k
}

/// `MemoryManager::init` on `DefaultMemoryImpl::default()`: the program's
/// memory, with the partitions it was divided into before, if it was.
#[verifier::external_body]
pub(crate) fn open_partitions() -> Partitions {
    Partitions { manager: MemoryManager::init(DefaultMemoryImpl::default()) }
}

/// `StableBTreeMap::init` on the partition that `MemoryManager::get` gives
/// for `id`: the map that the partition holds, or an empty one where it
/// holds none. Nothing is claimed of what a map found there holds.
/// `MemoryId::new` refuses 255.
#[verifier::external_body]
pub(crate) fn open_rows(parts: &Partitions, id: u8) -> (rows: StableRows)
    requires
        id != 255,
{
    StableRows { map: StableBTreeMap::init(parts.manager.get(MemoryId::new(id))) }
}

/// `Cell::init` with the default 0 on the partition that `MemoryManager::get`
/// gives for `id`: the cell that the partition holds, or one that holds 0
/// where it holds none; nothing where the cell found there has a layout of
/// another version, or the memory cannot take a new cell. Nothing is
/// claimed of the number that a cell found there holds. `MemoryId::new`
/// refuses 255.
#[verifier::external_body]
pub(crate) fn open_counter(parts: &Partitions, id: u8) -> (counter: Option<StableCounter>)
    requires
        id != 255,
{
    match Cell::init(parts.manager.get(MemoryId::new(id)), 0) {
        Ok(cell) => Some(StableCounter { cell }),
        Err(_) => None,
    }
}

/// `StableBTreeMap::len`: the number of keys.
#[verifier::external_body]
pub(crate) fn rows_len(rows: &StableRows) -> (n: u64)
    ensures
        n == stored(*rows).dom().len(),
{
    rows.map.len()
}

/// `StableBTreeMap::contains_key`: whether anything is kept under `key`.
#[verifier::external_body]
pub(crate) fn rows_contains(rows: &StableRows, key: u64) -> (found: bool)
    ensures
        found == stored(*rows).dom().contains(key),
{
    rows.map.contains_key(&key)
}

/// `StableBTreeMap::get`: the bytes kept under `key`, if any are.
#[verifier::external_body]
pub(crate) fn rows_get(rows: &StableRows, key: u64) -> (value: Option<Vec<u8>>)
    ensures
        match value {
            Some(bytes) => stored(*rows).dom().contains(key) && stored(*rows)[key] == bytes@,
            None => !stored(*rows).dom().contains(key),
        },
{
    rows.map.get(&key).map(|blob| blob.as_slice().to_vec())
}

/// `StableBTreeMap::insert`: keeps `value` under `key`, in place of what was
/// kept there, and returns what was. The other keys keep what they had.
#[verifier::external_body]
pub(crate) fn rows_insert(rows: &mut StableRows, key: u64, value: &[u8]) -> (previous: Option<
    Vec<u8>,
>)
    requires
        value@.len() <= 512,
    ensures
        stored(*final(rows)) == stored(*old(rows)).insert(key, value@),
        match previous {
            Some(bytes) => stored(*old(rows)).dom().contains(key) && stored(*old(rows))[key]
                == bytes@,
            None => !stored(*old(rows)).dom().contains(key),
        },
{
    match Blob::<512>::try_from(value) {
        Ok(blob) => rows.map.insert(key, blob).map(|old| old.as_slice().to_vec()),
        Err(_) => None,
    }
}

/// `StableBTreeMap::iter`, collected: every key with its bytes, by ascending
/// key.
#[verifier::external_body]
pub(crate) fn rows_entries(rows: &StableRows) -> (entries: Vec<(u64, Vec<u8>)>)
    ensures
        lists_bytes(entries@, stored(*rows)),
{
    rows.map.iter().map(|(key, blob)| (key, blob.as_slice().to_vec())).collect()
}

/// `Cell::get`: the number that the cell holds.
#[verifier::external_body]
pub(crate) fn counter_get(counter: &StableCounter) -> (value: u64)
    ensures
        value == counted(*counter),
{
    *counter.cell.get()
}

/// `Cell::set`: puts `value` in the cell and says so; where the memory
/// underneath cannot take it, the cell keeps what it held.
#[verifier::external_body]
pub(crate) fn counter_set(counter: &mut StableCounter, value: u64) -> (done: bool)
    ensures
        done ==> counted(*final(counter)) == value,
        !done ==> counted(*final(counter)) == counted(*old(counter)),
{
    counter.cell.set(value).is_ok()
}

} // verus!
