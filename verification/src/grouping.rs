//! Grouping records by a text field.
//!
//! A grouping is a list of pairs, one for each text that occurs as the key
//! of a record: the key, and what is said of the records that have it (the
//! records themselves, their number, a total). No key stands twice. The
//! order of the pairs carries no meaning.
use vstd::prelude::*;
use crate::charges::{total, total_of, Charge};
use crate::record::Record;
use crate::records::maintenance_record::{MaintenanceRecord, MaintenanceRecordView};
use crate::records::meat_product::{MeatProduct, MeatProductView};
use crate::tally::{select, views};

verus! {

/// A record with text fields by which it can be grouped; `K` names the
/// fields.
pub trait Keyed<K>: Record {
    /// The text of field `by`.
    spec fn key_of(by: K, v: Self::V) -> Seq<char>;

    fn key(&self, by: K) -> (k: &String)
        ensures
            k@ == Self::key_of(by, self@),
    ;
}

/// The fields by which products are grouped.
#[derive(Debug, Clone, Copy, PartialEq, Eq)]
pub enum ProductKey {
    ProductType,
    Status,
}

/// The fields by which maintenance records are grouped.
#[derive(Debug, Clone, Copy, PartialEq, Eq)]
pub enum MaintenanceKey {
    MaintenanceType,
    EquipmentName,
}

impl Keyed<ProductKey> for MeatProduct {
    open spec fn key_of(by: ProductKey, v: MeatProductView) -> Seq<char> {
        match by {
            ProductKey::ProductType => v.product_type,
            ProductKey::Status => v.status,
        }
    }

    fn key(&self, by: ProductKey) -> (k: &String) {
        match by {
            ProductKey::ProductType => &self.product_type,
            ProductKey::Status => &self.status,
        }
    }
}

impl Keyed<MaintenanceKey> for MaintenanceRecord {
    open spec fn key_of(by: MaintenanceKey, v: MaintenanceRecordView) -> Seq<char> {
        match by {
            MaintenanceKey::MaintenanceType => v.maintenance_type,
            MaintenanceKey::EquipmentName => v.equipment_name,
        }
    }

    fn key(&self, by: MaintenanceKey) -> (k: &String) {
        match by {
            MaintenanceKey::MaintenanceType => &self.maintenance_type,
            MaintenanceKey::EquipmentName => &self.equipment_name,
        }
    }
}

/// The condition of having `key` in field `by`.
pub open spec fn with_key<K, T: Keyed<K>>(by: K, key: Seq<char>) -> spec_fn(T::V) -> bool {
    |v: T::V| T::key_of(by, v) == key
}

/// The records that have `key` in field `by`, in the order of `rows`.
pub open spec fn keyed<K, T: Keyed<K>>(rows: Seq<T::V>, by: K, key: Seq<char>) -> Seq<T::V> {
    rows.filter(with_key::<K, T>(by, key))
}

/// Field `by` of each record.
pub open spec fn keys_of<K, T: Keyed<K>>(rows: Seq<T::V>, by: K) -> Seq<Seq<char>> {
    Seq::new(rows.len(), |i: int| T::key_of(by, rows[i]))
}

/// Whether `keys` holds each text of `column` once, and nothing else.
pub open spec fn is_index(column: Seq<Seq<char>>, keys: Seq<Seq<char>>) -> bool {
    &&& forall|i: int, j: int| 0 <= i < j < keys.len() ==> keys[i] != keys[j]
    &&& forall|j: int| 0 <= j < keys.len() ==> column.contains(#[trigger] keys[j])
    &&& forall|i: int| 0 <= i < column.len() ==> keys.contains(#[trigger] column[i])
}

/// The keys of a list of pairs.
pub open spec fn firsts<B>(pairs: Seq<(String, B)>) -> Seq<Seq<char>> {
    Seq::new(pairs.len(), |j: int| pairs[j].0@)
}

/// Whether `groups` holds, for each key that occurs in field `by`, the
/// records that have it, in the order of `rows`.
pub open spec fn is_grouping<K, T: Keyed<K>>(
    rows: Seq<T::V>,
    by: K,
    groups: Seq<(String, Vec<T>)>,
) -> bool {
    &&& is_index(keys_of::<K, T>(rows, by), firsts(groups))
    &&& forall|j: int|
        0 <= j < groups.len() ==> views((#[trigger] groups[j]).1@) == keyed::<K, T>(
            rows,
            by,
            groups[j].0@,
        )
}

/// Whether `table` holds, for each key that occurs in field `by`, the
/// number of records that have it.
pub open spec fn is_count_table<K, T: Keyed<K>>(
    rows: Seq<T::V>,
    by: K,
    table: Seq<(String, u64)>,
) -> bool {
    &&& is_index(keys_of::<K, T>(rows, by), firsts(table))
    &&& forall|j: int|
        0 <= j < table.len() ==> (#[trigger] table[j]).1 == keyed::<K, T>(
            rows,
            by,
            table[j].0@,
        ).len()
}

/// Whether `table` holds, for each key that occurs in field `by`, the sum
/// of the money that the records with that key stand for.
pub open spec fn is_total_table<K, T: Keyed<K> + Charge>(
    rows: Seq<T::V>,
    by: K,
    table: Seq<(String, u64)>,
) -> bool {
    &&& is_index(keys_of::<K, T>(rows, by), firsts(table))
    &&& forall|j: int|
        0 <= j < table.len() ==> (#[trigger] table[j]).1 == total_of::<T>(
            keyed::<K, T>(rows, by, table[j].0@),
        )
}

/// The first place of `key` among `keys`, if it is there.
pub fn position(keys: &Vec<String>, key: &String) -> (r: Option<usize>)
    ensures
        match r {
            Some(j) => {
                &&& j < keys.len()
                &&& keys[j as int]@ == key@
                &&& forall|k: int| 0 <= k < j ==> keys[k]@ != key@
            },
            None => !views(keys@).contains(key@),
        },
{
    let n = keys.len();
    let mut j: usize = 0;
    while j < n
        invariant
            n == keys.len(),
            j <= n,
            forall|k: int| 0 <= k < j ==> keys[k]@ != key@,
        decreases n - j,
    {
        if keys[j] == *key {
            return Some(j);
        }
        j += 1;
    }
    None
}

/// Each text that occurs in field `by`, once.
pub fn distinct_keys<K: Copy, T: Keyed<K>>(rows: &Vec<T>, by: K) -> (keys: Vec<String>)
    ensures
        is_index(keys_of::<K, T>(views(rows@), by), views(keys@)),
{
    let n = rows.len();
    let ghost column = keys_of::<K, T>(views(rows@), by);
    let mut keys: Vec<String> = Vec::new();
    let mut i: usize = 0;
    while i < n
        invariant
            n == rows.len(),
            i <= n,
            column == keys_of::<K, T>(views(rows@), by),
            is_index(column.take(i as int), views(keys@)),
        decreases n - i,
    {
        let key = rows[i].key(by);
        let ghost before = views(keys@);
        let ghost seen = column.take(i as int);
        let ghost next = column.take(i + 1);
        assert(column[i as int] == key@);
        assert(forall|a: int| 0 <= a < i ==> next[a] == seen[a]);
        let found = position(&keys, key);
        if found.is_none() {
            keys.push(key.clone());
            proof {
                let after = views(keys@);
                assert(after =~= before.push(key@));
                assert forall|j: int| 0 <= j < after.len() implies next.contains(
                    #[trigger] after[j],
                ) by {
                    if j < before.len() {
                        let a = choose|a: int| 0 <= a < seen.len() && seen[a] == before[j];
                        assert(next[a] == after[j]);
                    } else {
                        assert(next[i as int] == after[j]);
                    }
                }
                assert forall|a: int| 0 <= a < next.len() implies after.contains(
                    #[trigger] next[a],
                ) by {
                    if a < i {
                        let j = choose|j: int| 0 <= j < before.len() && before[j] == seen[a];
                        assert(after[j] == next[a]);
                    } else {
                        assert(after[after.len() - 1] == next[a]);
                    }
                }
            }
        } else {
            proof {
                assert forall|j: int| 0 <= j < before.len() implies next.contains(
                    #[trigger] before[j],
                ) by {
                    let a = choose|a: int| 0 <= a < seen.len() && seen[a] == before[j];
                    assert(next[a] == before[j]);
                }
                assert forall|a: int| 0 <= a < next.len() implies before.contains(
                    #[trigger] next[a],
                ) by {
                    if a < i {
                        assert(before.contains(seen[a]));
                    } else {
                        assert(before[found->0 as int] == next[a]);
                    }
                }
            }
        }
        i += 1;
    }
    assert(column.take(n as int) =~= column);
    keys
}

/// The records that have `key` in field `by`, in the order of `rows`.
pub fn select_by_key<K: Copy, T: Keyed<K>>(rows: &Vec<T>, by: K, key: &String) -> (out: Vec<T>)
    ensures
        views(out@) == keyed::<K, T>(views(rows@), by, key@),
{
    let keep = |r: &T| -> (b: bool)
        ensures
            b == (T::key_of(by, r@) == key@),
        {
            *r.key(by) == *key
        };
    select(rows, keep, Ghost(with_key::<K, T>(by, key@)))
}

/// For each key that occurs in field `by`, the records that have it.
pub fn group_by<K: Copy, T: Keyed<K>>(rows: &Vec<T>, by: K) -> (groups: Vec<(String, Vec<T>)>)
    ensures
        is_grouping::<K, T>(views(rows@), by, groups@),
{
    let keys = distinct_keys(rows, by);
    let n = keys.len();
    let mut groups: Vec<(String, Vec<T>)> = Vec::new();
    let mut j: usize = 0;
    while j < n
        invariant
            n == keys.len(),
            j <= n,
            groups.len() == j,
            forall|k: int| 0 <= k < j ==> (#[trigger] groups[k]).0@ == keys[k]@,
            forall|k: int|
                0 <= k < j ==> views((#[trigger] groups[k]).1@) == keyed::<K, T>(
                    views(rows@),
                    by,
                    groups[k].0@,
                ),
        decreases n - j,
    {
        let members = select_by_key(rows, by, &keys[j]);
        groups.push((keys[j].clone(), members));
        j += 1;
    }
    assert(firsts(groups@) =~= views(keys@));
    groups
}

/// For each key that occurs in field `by`, the number of records that have
/// it.
pub fn count_by<K: Copy, T: Keyed<K>>(rows: &Vec<T>, by: K) -> (table: Vec<(String, u64)>)
    ensures
        is_count_table::<K, T>(views(rows@), by, table@),
{
    let keys = distinct_keys(rows, by);
    let n = keys.len();
    let mut table: Vec<(String, u64)> = Vec::new();
    let mut j: usize = 0;
    while j < n
        invariant
            n == keys.len(),
            j <= n,
            table.len() == j,
            forall|k: int| 0 <= k < j ==> (#[trigger] table[k]).0@ == keys[k]@,
            forall|k: int|
                0 <= k < j ==> (#[trigger] table[k]).1 == keyed::<K, T>(
                    views(rows@),
                    by,
                    table[k].0@,
                ).len(),
        decreases n - j,
    {
        let members = select_by_key(rows, by, &keys[j]);
        table.push((keys[j].clone(), members.len() as u64));
        j += 1;
    }
    assert(firsts(table@) =~= views(keys@));
    table
}

/// For each key that occurs in field `by`, the sum of the money that the
/// records with that key stand for; nothing where one of the sums is more
/// than a `u64` holds.
pub fn total_by<K: Copy, T: Keyed<K> + Charge>(rows: &Vec<T>, by: K) -> (r: Option<
    Vec<(String, u64)>,
>)
    ensures
        match r {
            Some(table) => is_total_table::<K, T>(views(rows@), by, table@),
            None => exists|key: Seq<char>|
                total_of::<T>(#[trigger] keyed::<K, T>(views(rows@), by, key)) > u64::MAX,
        },
{
    let keys = distinct_keys(rows, by);
    let n = keys.len();
    let mut table: Vec<(String, u64)> = Vec::new();
    let mut j: usize = 0;
    while j < n
        invariant
            n == keys.len(),
            j <= n,
            table.len() == j,
            forall|k: int| 0 <= k < j ==> (#[trigger] table[k]).0@ == keys[k]@,
            forall|k: int|
                0 <= k < j ==> (#[trigger] table[k]).1 == total_of::<T>(
                    keyed::<K, T>(views(rows@), by, table[k].0@),
                ),
        decreases n - j,
    {
        let members = select_by_key(rows, by, &keys[j]);
        match total(&members) {
            Some(sum) => {
                table.push((keys[j].clone(), sum));
            },
            None => {
                return None;
            },
        }
        j += 1;
    }
    assert(firsts(table@) =~= views(keys@));
    Some(table)
}

} // verus!
