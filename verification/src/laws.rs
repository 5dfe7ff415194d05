//! What holds of the ledger as a whole, stated over the spec functions of
//! its operations and proved from them.
use vstd::prelude::*;
use crate::analytics::{failure_rate_of, profit_margin_of, revenue_of};
use crate::charges::{amount_fn, in_house, of_house};
use crate::creation::{
    advances, animal_refusal, first_missing, is_effect, is_outcome, new_animal, new_shipment,
    shipment_refusal, Call,
};
use crate::ledger::LedgerView;
use crate::listing::{
    ascending, lemma_listing_exists, lemma_listing_is_ascending, lemma_listing_push,
};
use crate::message::{no_slaughterhouse, Message, MessageView};
use crate::payloads::{RegisterAnimalPayload, ShipmentPayload};
use crate::records::animal::Animal;
use crate::records::meat_product::{MeatProduct, MeatProductView};
use crate::records::shipment::Shipment;
use crate::tally::{lemma_filter_members, lemma_filter_push, lemma_sum_push, round_div};
use crate::text::product_not_found_text;

verus! {

/// Calls made one after the other on one ledger: each starts where the one
/// before it ended.
pub open spec fn is_run(calls: Seq<Call>) -> bool {
    &&& forall|i: int| 0 <= i < calls.len() ==> advances(#[trigger] calls[i])
    &&& forall|i: int|
        0 <= i < calls.len() - 1 ==> (#[trigger] calls[i]).after == calls[i + 1].before
}

/// In a run, the identifier that is next never goes down.
proof fn lemma_run_is_monotone(calls: Seq<Call>, i: int, j: int)
    requires
        is_run(calls),
        0 <= i <= j < calls.len(),
    ensures
        calls[i].before <= calls[j].before,
        calls[i].after <= calls[j].after,
    decreases j - i,
{
    if i < j {
        lemma_run_is_monotone(calls, i, j - 1);
        assert(advances(calls[j - 1]));
        assert(advances(calls[j]));
        assert(calls[j - 1].after == calls[j].before);
    }
}

/// The identifiers issued in a run, whatever kind of record each was issued
/// for, increase in the order of the calls; so no two calls issue the same.
pub proof fn lemma_identifiers_increase(calls: Seq<Call>, i: int, j: int)
    requires
        is_run(calls),
        0 <= i < j < calls.len(),
        calls[i].issued is Some,
        calls[j].issued is Some,
    ensures
        calls[i].issued->0 < calls[j].issued->0,
{
    lemma_run_is_monotone(calls, i + 1, j);
    assert(advances(calls[i]));
    assert(advances(calls[j]));
    assert(calls[i].after == calls[i + 1].before);
}

/// A rounded quotient is within half a unit of the exact one: the rates
/// and means of the reports are the nearest integers to the exact ratios.
pub proof fn lemma_rounding_is_to_nearest(n: int, d: int)
    requires
        d > 0,
    ensures
        -d <= 2 * (round_div(n, d) * d - n) <= d,
{
    let m = if n >= 0 { n } else { -n };
    let q = (2 * m + d) / (2 * d);
    assert(-d <= 2 * (q * d - m) <= d) by (nonlinear_arith)
        requires
            d > 0,
            m >= 0,
            q == (2 * m + d) / (2 * d),
    ;
    assert((-q) * d == -(q * d)) by (nonlinear_arith);
}

/// The profit margin is never negative, and it is zero where the expenses
/// are not less than the revenue. It is undefined only where there is no
/// revenue.
pub proof fn lemma_profit_margin_not_negative(revenue: nat, expenses: nat)
    ensures
        match profit_margin_of(revenue as int, expenses as int) {
            Some(margin) => margin >= 0 && revenue > 0,
            None => revenue == 0,
        },
        revenue > 0 && expenses >= revenue ==> profit_margin_of(revenue as int, expenses as int)
            == Some(0int),
{
    if revenue > 0 && expenses >= revenue {
        let n = (revenue - expenses) * 100_000;
        assert(n <= 0) by (nonlinear_arith)
            requires
                n == (revenue - expenses) * 100_000,
                revenue - expenses <= 0,
        ;
        if n == 0 {
            assert((0 + revenue as int) / (2 * revenue as int) == 0) by (nonlinear_arith)
                requires
                    revenue > 0,
            ;
        } else {
            assert((2 * (-n) + revenue as int) / (2 * revenue as int) >= 0) by (nonlinear_arith)
                requires
                    revenue > 0,
                    n < 0,
            ;
        }
    }
}

/// Without inspections the failure rate is zero.
pub proof fn lemma_no_inspection_no_failure(passed: int)
    ensures
        failure_rate_of(0, passed) == 0,
{
}

/// A slaughterhouse without products has no revenue.
pub proof fn lemma_no_product_no_revenue(products: Seq<MeatProductView>, sh: u64)
    requires
        forall|i: int| 0 <= i < products.len() ==> (#[trigger] products[i]).slaughterhouse_id != sh,
    ensures
        revenue_of(products, sh) == 0,
{
    let own = of_house::<MeatProduct>(products, sh);
    lemma_filter_members(products, in_house::<MeatProduct>(sh));
    if own.len() > 0 {
        assert(products.contains(own[0]));
    }
}

/// A record kept under an identifier above all those of its store comes
/// last in the rows of the store; the rows before it stay as they were.
pub proof fn lemma_created_comes_last<A>(rows: Map<u64, A>, id: u64, rec: A)
    requires
        rows.dom().finite(),
        forall|k: u64| rows.dom().contains(k) ==> k < id,
    ensures
        ascending(rows.insert(id, rec)) == ascending(rows).push((id, rec)),
{
    lemma_listing_exists(rows);
    lemma_listing_push(ascending(rows), rows, id, rec);
    lemma_listing_is_ascending(ascending(rows).push((id, rec)), rows.insert(id, rec));
}

/// A product created in a consistent ledger adds its total price to the
/// revenue of its slaughterhouse, and leaves the revenue of every other
/// slaughterhouse as it was.
pub proof fn lemma_product_adds_to_revenue(v: LedgerView, rec: MeatProductView, sh: u64)
    requires
        v.consistent(),
    ensures
        revenue_of(v.with_meat_product(rec).products(), sh) == revenue_of(v.products(), sh) + if rec.slaughterhouse_id
            == sh {
            rec.total_price as int
        } else {
            0
        },
{
    lemma_created_comes_last(v.meat_products, v.next_id, rec);
    let before = v.products();
    let after = v.with_meat_product(rec).products();
    assert(after =~= before.push(rec));
    lemma_filter_push(before, rec, in_house::<MeatProduct>(sh));
    if rec.slaughterhouse_id == sh {
        lemma_sum_push(of_house::<MeatProduct>(before, sh), rec, amount_fn::<MeatProduct>());
    }
}

/// Registering an animal that has a tag and a species at a slaughterhouse
/// that does not exist is refused as not found, and leaves the ledger, the
/// animals among the rest, as it was.
pub proof fn lemma_animal_needs_slaughterhouse(
    before: LedgerView,
    p: RegisterAnimalPayload,
    now: u64,
    r: Result<Animal, Message>,
    after: LedgerView,
)
    requires
        p.tag_number@.len() > 0,
        p.species@.len() > 0,
        !before.slaughterhouses.dom().contains(p.slaughterhouse_id),
        is_outcome(r, animal_refusal(before, p, now), new_animal(p, before.next_id, now)),
        is_effect(r, before, before.with_animal(new_animal(p, before.next_id, now)), after),
    ensures
        r is Err,
        r->Err_0@ == no_slaughterhouse(),
        after == before,
{
}

/// Preparing a shipment with a product that the store does not hold is
/// refused as not found, with the first such product named, and leaves the
/// ledger, the shipments among the rest, as it was.
pub proof fn lemma_shipment_needs_products(
    before: LedgerView,
    p: ShipmentPayload,
    now: u64,
    i: int,
    r: Result<Shipment, Message>,
    after: LedgerView,
)
    requires
        0 <= i < p.product_ids@.len(),
        !before.meat_products.dom().contains(p.product_ids@[i]),
        is_outcome(r, shipment_refusal(before, p, now), new_shipment(p, before.next_id, now)),
        is_effect(r, before, before.with_shipment(new_shipment(p, before.next_id, now)), after),
    ensures
        r is Err,
        first_missing(p.product_ids@, before.meat_products) is Some,
        r->Err_0@ == MessageView::NotFound(
            product_not_found_text(first_missing(p.product_ids@, before.meat_products)->0),
        ),
        after == before,
{
    lemma_first_missing(p.product_ids@, before.meat_products, i);
}

/// Where one of `ids` is missing, a first one is.
proof fn lemma_first_missing(ids: Seq<u64>, products: Map<u64, MeatProductView>, i: int)
    requires
        0 <= i < ids.len(),
        !products.dom().contains(ids[i]),
    ensures
        first_missing(ids, products) is Some,
    decreases ids.len(),
{
    if products.dom().contains(ids[0]) {
        assert(ids.drop_first()[i - 1] == ids[i]);
        lemma_first_missing(ids.drop_first(), products, i - 1);
    }
}

} // verus!
