//! Records that stand for money owed to or by a slaughterhouse, and their
//! totals.
use vstd::prelude::*;
use crate::record::Record;
use crate::records::expense::{Expense, ExpenseView};
use crate::records::maintenance_record::{MaintenanceRecord, MaintenanceRecordView};
use crate::records::meat_product::{MeatProduct, MeatProductView};
use crate::records::waste_record::{WasteRecord, WasteRecordView};
use crate::tally::{lemma_sum_step, select, sum_of, views};

verus! {

/// A record that belongs to a slaughterhouse and stands for an amount of
/// money: the total price of a product, the amount of an expense, the cost
/// of maintenance or of the disposal of waste.
pub trait Charge: Record {
    /// The slaughterhouse that the record belongs to.
    spec fn house_of(v: Self::V) -> u64;

    /// The money that the record stands for.
    spec fn amount_of(v: Self::V) -> u64;

    fn house(&self) -> (h: u64)
        ensures
            h == Self::house_of(self@),
    ;

    fn amount(&self) -> (a: u64)
        ensures
            a == Self::amount_of(self@),
    ;
}

impl Charge for MeatProduct {
    open spec fn house_of(v: MeatProductView) -> u64 {
        v.slaughterhouse_id
    }

    open spec fn amount_of(v: MeatProductView) -> u64 {
        v.total_price
    }

    fn house(&self) -> (h: u64) {
        self.slaughterhouse_id
    }

    fn amount(&self) -> (a: u64) {
        self.total_price
    }
}

impl Charge for Expense {
    open spec fn house_of(v: ExpenseView) -> u64 {
        v.slaughterhouse_id
    }

    open spec fn amount_of(v: ExpenseView) -> u64 {
        v.amount
    }

    fn house(&self) -> (h: u64) {
        self.slaughterhouse_id
    }

    fn amount(&self) -> (a: u64) {
        self.amount
    }
}

impl Charge for MaintenanceRecord {
    open spec fn house_of(v: MaintenanceRecordView) -> u64 {
        v.slaughterhouse_id
    }

    open spec fn amount_of(v: MaintenanceRecordView) -> u64 {
        v.cost
    }

    fn house(&self) -> (h: u64) {
        self.slaughterhouse_id
    }

    fn amount(&self) -> (a: u64) {
        self.cost
    }
}

impl Charge for WasteRecord {
    open spec fn house_of(v: WasteRecordView) -> u64 {
        v.slaughterhouse_id
    }

    open spec fn amount_of(v: WasteRecordView) -> u64 {
        v.cost
    }

    fn house(&self) -> (h: u64) {
        self.slaughterhouse_id
    }

    fn amount(&self) -> (a: u64) {
        self.cost
    }
}

/// The condition of belonging to slaughterhouse `sh`.
pub open spec fn in_house<T: Charge>(sh: u64) -> spec_fn(T::V) -> bool {
    |v: T::V| T::house_of(v) == sh
}

/// The records of slaughterhouse `sh`, in the order of `rows`.
pub open spec fn of_house<T: Charge>(rows: Seq<T::V>, sh: u64) -> Seq<T::V> {
    rows.filter(in_house::<T>(sh))
}

/// The money that a record stands for, as an integer.
pub open spec fn amount_fn<T: Charge>() -> spec_fn(T::V) -> int {
    |v: T::V| T::amount_of(v) as int
}

/// The sum of the money that the records stand for.
pub open spec fn total_of<T: Charge>(rows: Seq<T::V>) -> int {
    sum_of(rows, amount_fn::<T>())
}

/// The records of slaughterhouse `sh`, in the order of `rows`.
pub fn select_house<T: Charge>(rows: &Vec<T>, sh: u64) -> (out: Vec<T>)
    ensures
        views(out@) == of_house::<T>(views(rows@), sh),
{
    let keep = |r: &T| -> (b: bool)
        ensures
            b == (T::house_of(r@) == sh),
        {
            r.house() == sh
        };
    select(rows, keep, Ghost(in_house::<T>(sh)))
}

/// The sum of the money that the records stand for, unless it is more than
/// a `u64` holds.
pub fn total<T: Charge>(rows: &Vec<T>) -> (r: Option<u64>)
    ensures
        match r {
            Some(sum) => sum == total_of::<T>(views(rows@)),
            None => total_of::<T>(views(rows@)) > u64::MAX,
        },
{
    let n = rows.len();
    let mut sum: u128 = 0;
    let mut i: usize = 0;
    while i < n
        invariant
            n == rows.len(),
            i <= n,
            sum == total_of::<T>(views(rows@).take(i as int)),
            sum <= i * u64::MAX,
        decreases n - i,
    {
        proof {
            lemma_sum_step(views(rows@), i as int, amount_fn::<T>());
            assert((i + 1) * u64::MAX == i * u64::MAX + u64::MAX) by (nonlinear_arith);
            assert(i * u64::MAX <= usize::MAX * u64::MAX) by (nonlinear_arith)
                requires
                    i <= usize::MAX,
            ;
        }
        sum = sum + rows[i].amount() as u128;
        i += 1;
    }
    assert(views(rows@).take(n as int) =~= views(rows@));
    if sum <= u64::MAX as u128 {
        Some(sum as u64)
    } else {
        None
    }
}

} // verus!
