//! The transaction executor: runs an ordered sequence of parameterized
//! statements as one transaction against a store state.
//!
//! Every statement is applied to a working copy; only a successful
//! commit installs that copy. If a statement fails, if the backing
//! store reports a fault, or if the commit itself fails, the
//! transaction is rolled back and the state handed back is exactly the
//! state the transaction began with — no statement's effects are
//! observable outside a committed transaction.
//!
//! The backing store's own failure behavior (a disk fault, a lost
//! connection) is no function of the statements, so it enters as an
//! explicit input: `fault` names the step, if any, at which the
//! backing store gives up.

use vstd::prelude::*;

use crate::plan::Statement;
use crate::plan::insert_plan;
use crate::plan::schema_plan;
use crate::plan::search_plan;
use crate::store::ItemRow;
use crate::store::StoreModel;
use crate::store::StoreState;
use crate::store::insert_model;
use crate::store::search_model;
use crate::store::stmt_apply;
use crate::store::stmt_ok;
use crate::store::stmt_rows;

verus! {

/// Whether every statement of the plan, run in order from `m`, succeeds.
pub open spec fn plan_ok(m: StoreModel, stmts: Seq<Statement>) -> bool
    decreases stmts.len(),
{
    stmts.len() == 0 || (plan_ok(m, stmts.drop_last()) && stmt_ok(
        plan_apply(m, stmts.drop_last()),
        stmts.last(),
    ))
}

/// The state after running the whole plan in order from `m`.
pub open spec fn plan_apply(m: StoreModel, stmts: Seq<Statement>) -> StoreModel
    decreases stmts.len(),
{
    if stmts.len() == 0 {
        m
    } else {
        stmt_apply(plan_apply(m, stmts.drop_last()), stmts.last())
    }
}

/// The rows the plan reads, in statement order.
pub open spec fn plan_rows(m: StoreModel, stmts: Seq<Statement>) -> Seq<ItemRow>
    decreases stmts.len(),
{
    if stmts.len() == 0 {
        Seq::empty()
    } else {
        plan_rows(m, stmts.drop_last()) + stmt_rows(plan_apply(m, stmts.drop_last()), stmts.last())
    }
}

/// A plan that succeeds as a whole succeeds on every prefix.
pub proof fn lemma_plan_ok_prefix(m: StoreModel, stmts: Seq<Statement>, k: int)
    requires
        0 <= k <= stmts.len(),
        plan_ok(m, stmts),
    ensures
        plan_ok(m, stmts.take(k)),
    decreases stmts.len(),
{
    if k < stmts.len() {
        assert(stmts.drop_last() =~= stmts.take(stmts.len() - 1));
        lemma_plan_ok_prefix(m, stmts.drop_last(), k);
        assert(stmts.drop_last().take(k) =~= stmts.take(k));
    } else {
        assert(stmts.take(k) =~= stmts);
    }
}

/// What the schema plan does: it succeeds exactly on a fresh file, and
/// then creates all five schema objects and nothing else.
pub proof fn lemma_schema_plan(m: StoreModel)
    ensures
        plan_ok(m, schema_plan()) <==> m.schema_fresh(),
        m.schema_fresh() ==> plan_apply(m, schema_plan()) == (StoreModel {
            rack_table: true,
            shelf_table: true,
            basket_table: true,
            item_table: true,
            name_index: true,
            ..m
        }),
        plan_rows(m, schema_plan()) == Seq::<ItemRow>::empty(),
{
    reveal_with_fuel(plan_ok, 7);
    reveal_with_fuel(plan_apply, 7);
    reveal_with_fuel(plan_rows, 7);
    let s5 = schema_plan();
    let s4 = seq![
        Statement::CreateRackTable,
        Statement::CreateShelfTable,
        Statement::CreateBasketTable,
        Statement::CreateItemTable,
    ];
    let s3 = seq![
        Statement::CreateRackTable,
        Statement::CreateShelfTable,
        Statement::CreateBasketTable,
    ];
    let s2 = seq![Statement::CreateRackTable, Statement::CreateShelfTable];
    let s1 = seq![Statement::CreateRackTable];
    let s0 = Seq::<Statement>::empty();
    assert(s5.drop_last() =~= s4);
    assert(s4.drop_last() =~= s3);
    assert(s3.drop_last() =~= s2);
    assert(s2.drop_last() =~= s1);
    assert(s1.drop_last() =~= s0);
    assert(plan_rows(m, s5) =~= Seq::<ItemRow>::empty());
    if m.schema_fresh() {
        assert(plan_apply(m, s5) =~= (StoreModel {
            rack_table: true,
            shelf_table: true,
            basket_table: true,
            item_table: true,
            name_index: true,
            ..m
        }));
    }
}

/// What the insert plan does: it succeeds exactly when the four tables
/// exist and an item identifier is still available, and then its
/// effect is [`insert_model`] — each missing location row created,
/// existing ones left alone, the item row appended. It reads nothing.
pub proof fn lemma_insert_plan(
    m: StoreModel,
    rack: String,
    shelf: String,
    basket: String,
    name: String,
)
    ensures
        plan_ok(m, insert_plan(rack, shelf, basket, name)) <==> (m.rack_table && m.shelf_table
            && m.basket_table && m.item_table && m.next_item_id < u64::MAX),
        plan_ok(m, insert_plan(rack, shelf, basket, name)) ==> plan_apply(
            m,
            insert_plan(rack, shelf, basket, name),
        ) == insert_model(m, rack, shelf, basket, name),
        plan_rows(m, insert_plan(rack, shelf, basket, name)) == Seq::<ItemRow>::empty(),
{
    reveal_with_fuel(plan_ok, 6);
    reveal_with_fuel(plan_apply, 6);
    reveal_with_fuel(plan_rows, 6);
    let st1 = Statement::InsertRackIfAbsent { rack_id: rack };
    let st2 = Statement::InsertShelfIfAbsent { shelf_id: shelf, rack_id: rack };
    let st3 = Statement::InsertBasketIfAbsent { basket_id: basket, shelf_id: shelf };
    let st4 = Statement::InsertItem {
        rack_id: rack,
        shelf_id: shelf,
        basket_id: basket,
        name: name,
    };
    let pre4 = insert_plan(rack, shelf, basket, name);
    let pre3 = seq![st1, st2, st3];
    let pre2 = seq![st1, st2];
    let pre1 = seq![st1];
    let pre0 = Seq::<Statement>::empty();
    assert(pre4.drop_last() =~= pre3);
    assert(pre3.drop_last() =~= pre2);
    assert(pre2.drop_last() =~= pre1);
    assert(pre1.drop_last() =~= pre0);
    let m1 = stmt_apply(m, st1);
    let m2 = stmt_apply(m1, st2);
    let m3 = stmt_apply(m2, st3);
    assert(plan_rows(m, pre4) =~= Seq::<ItemRow>::empty());
    if !m.contains_rack(rack@) {
        assert(m1.racks[m.racks.len() as int]@ == rack@);
    }
    assert(m.rack_table ==> m1.contains_rack(rack@));
    if !m.contains_shelf(shelf@) {
        assert(m2.shelves[m.shelves.len() as int].shelf_id@ == shelf@);
    }
    assert(m.shelf_table ==> m2.contains_shelf(shelf@));
    if !m.contains_basket(basket@) {
        assert(m3.baskets[m.baskets.len() as int].basket_id@ == basket@);
    }
    assert(m.basket_table ==> m3.contains_basket(basket@));
    if plan_ok(m, pre4) {
        assert(plan_apply(m, pre4) =~= insert_model(m, rack, shelf, basket, name));
    }
}

/// What the search plan does: it succeeds exactly when the item table
/// and the name index exist, changes nothing, and reads
/// [`search_model`] — every item whose name matches, in row order.
pub proof fn lemma_search_plan(m: StoreModel, name: String)
    ensures
        plan_ok(m, search_plan(name)) <==> (m.item_table && m.name_index),
        plan_apply(m, search_plan(name)) == m,
        plan_rows(m, search_plan(name)) == search_model(m, name@),
{
    reveal_with_fuel(plan_ok, 3);
    reveal_with_fuel(plan_apply, 3);
    reveal_with_fuel(plan_rows, 3);
    let pre1 = search_plan(name);
    let pre0 = Seq::<Statement>::empty();
    assert(pre1.drop_last() =~= pre0);
    assert(plan_rows(m, pre1) =~= search_model(m, name@));
}

/// The outcome of one transaction: either the whole plan committed, or
/// the store stands exactly as it did before the transaction began.
#[derive(Debug)]
pub enum TxResult {
    Committed(StoreState, Vec<ItemRow>),
    RolledBack(StoreState, String),
}

/// Runs `stmts` in order as one transaction against `state`.
///
/// `fault` is the backing store's failure behavior, handed in by the
/// caller: `Some(i)` with `i` below the plan length makes statement
/// `i` fail at the storage level, `Some(i)` equal to the plan length
/// makes the commit itself fail, and anything else leaves the backing
/// store sound. On commit the result carries the transformed state and
/// the rows the plan read; on any failure the result carries the
/// untouched beginning state and a diagnostic message, so that the
/// caller loses nothing.
pub fn execute_transaction(state: StoreState, stmts: &Vec<Statement>, fault: Option<usize>) -> (r:
    TxResult)
    ensures
        ({
            let ok = plan_ok(state@, stmts@) && (fault matches Some(f) ==> f > stmts@.len());
            &&& r is Committed <==> ok
            &&& r matches TxResult::Committed(s2, rows) ==> s2@ == plan_apply(state@, stmts@)
                && rows@ == plan_rows(state@, stmts@) && (state@.wf() ==> s2@.wf())
            &&& r matches TxResult::RolledBack(s2, _) ==> s2@ == state@
        }),
{
    let base = state.clone();
    let mut work = state;
    let mut rows: Vec<ItemRow> = Vec::new();
    let n = stmts.len();
    for i in 0..n
        invariant
            n == stmts@.len(),
            base@ == state@,
            plan_ok(base@, stmts@.take(i as int)),
            work@ == plan_apply(base@, stmts@.take(i as int)),
            rows@ == plan_rows(base@, stmts@.take(i as int)),
            fault matches Some(f) ==> f >= i,
            base@.wf() ==> work@.wf(),
    {
        if let Some(f) = fault {
            if f == i {
                return TxResult::RolledBack(base, "the backing store failed".to_string());
            }
        }
        let stepped = work.apply(&stmts[i]);
        proof {
            assert(stmts@.take(i + 1).drop_last() =~= stmts@.take(i as int));
            assert(stmts@.take(i + 1).last() == stmts@[i as int]);
        }
        match stepped {
            Ok(mut fresh) => {
                rows.append(&mut fresh);
            },
            Err(()) => {
                proof {
                    if plan_ok(base@, stmts@) {
                        lemma_plan_ok_prefix(base@, stmts@, i + 1);
                        assert(false);
                    }
                }
                return TxResult::RolledBack(base, "a statement failed".to_string());
            },
        }
    }
    assert(stmts@.take(n as int) =~= stmts@);
    if let Some(f) = fault {
        if f == n {
            return TxResult::RolledBack(base, "the commit failed".to_string());
        }
    }
    TxResult::Committed(work, rows)
}

} // verus!
