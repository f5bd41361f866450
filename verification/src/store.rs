//! The logical state of one backing store file — the four tables and
//! the name index — together with the meaning of every [`Statement`]
//! as a transition on that state.
//!
//! `StoreState` is the executable form; its view `StoreModel` is the
//! mathematical form that every contract in the crate speaks of. A
//! driver that replays the same statement plans against a real storage
//! engine keeps that engine in step with this model.

use vstd::prelude::*;

use crate::plan::Statement;

verus! {

/// One row of the Item table: the store-assigned identifier, the
/// display name, and the three denormalized location identifiers.
#[derive(Debug)]
pub struct ItemRow {
    pub item_id: u64,
    pub name: String,
    pub rack_id: String,
    pub shelf_id: String,
    pub basket_id: String,
}

/// One row of the Shelf table: the shelf key and its parent rack.
#[derive(Debug)]
pub struct ShelfRow {
    pub shelf_id: String,
    pub rack_id: String,
}

/// One row of the Basket table: the basket key and its parent shelf.
#[derive(Debug)]
pub struct BasketRow {
    pub basket_id: String,
    pub shelf_id: String,
}

impl Clone for ItemRow {
    fn clone(&self) -> (r: ItemRow)
        ensures
            r == *self,
    {
        ItemRow {
            item_id: self.item_id,
            name: self.name.clone(),
            rack_id: self.rack_id.clone(),
            shelf_id: self.shelf_id.clone(),
            basket_id: self.basket_id.clone(),
        }
    }
}

impl Clone for ShelfRow {
    fn clone(&self) -> (r: ShelfRow)
        ensures
            r == *self,
    {
        ShelfRow { shelf_id: self.shelf_id.clone(), rack_id: self.rack_id.clone() }
    }
}

impl Clone for BasketRow {
    fn clone(&self) -> (r: BasketRow)
        ensures
            r == *self,
    {
        BasketRow { basket_id: self.basket_id.clone(), shelf_id: self.shelf_id.clone() }
    }
}

/// The mathematical state of a store: which schema objects exist, the
/// contents of the four tables, and the next item identifier to assign.
#[verifier::ext_equal]
pub ghost struct StoreModel {
    pub rack_table: bool,
    pub shelf_table: bool,
    pub basket_table: bool,
    pub item_table: bool,
    pub name_index: bool,
    pub racks: Seq<String>,
    pub shelves: Seq<ShelfRow>,
    pub baskets: Seq<BasketRow>,
    pub items: Seq<ItemRow>,
    pub next_item_id: u64,
}

impl StoreModel {
    /// The whole schema is in place: all four tables and the name index.
    pub open spec fn schema_ready(self) -> bool {
        self.rack_table && self.shelf_table && self.basket_table && self.item_table
            && self.name_index
    }

    /// No schema object exists yet, as in a freshly created file.
    pub open spec fn schema_fresh(self) -> bool {
        !self.rack_table && !self.shelf_table && !self.basket_table && !self.item_table
            && !self.name_index
    }

    /// The Rack table has a row with this key.
    pub open spec fn contains_rack(self, id: Seq<char>) -> bool {
        exists|i: int| 0 <= i < self.racks.len() && self.racks[i]@ == id
    }

    /// The Shelf table has a row with this key.
    pub open spec fn contains_shelf(self, id: Seq<char>) -> bool {
        exists|i: int| 0 <= i < self.shelves.len() && self.shelves[i].shelf_id@ == id
    }

    /// The Basket table has a row with this key.
    pub open spec fn contains_basket(self, id: Seq<char>) -> bool {
        exists|i: int| 0 <= i < self.baskets.len() && self.baskets[i].basket_id@ == id
    }

    /// Well-formedness of a store state: each key is unique within its
    /// table, item identifiers grow strictly and stay below the next
    /// one to assign, every item references existing location rows,
    /// and a table that does not exist holds no rows.
    pub open spec fn wf(self) -> bool {
        &&& forall|i: int, j: int|
            0 <= i < j < self.racks.len() ==> self.racks[i]@ != self.racks[j]@
        &&& forall|i: int, j: int|
            0 <= i < j < self.shelves.len() ==> self.shelves[i].shelf_id@
                != self.shelves[j].shelf_id@
        &&& forall|i: int, j: int|
            0 <= i < j < self.baskets.len() ==> self.baskets[i].basket_id@
                != self.baskets[j].basket_id@
        &&& forall|i: int, j: int|
            0 <= i < j < self.items.len() ==> self.items[i].item_id < self.items[j].item_id
        &&& forall|i: int| 0 <= i < self.items.len() ==> self.items[i].item_id < self.next_item_id
        &&& forall|i: int|
            0 <= i < self.items.len() ==> self.contains_rack(self.items[i].rack_id@)
                && self.contains_shelf(self.items[i].shelf_id@) && self.contains_basket(
                self.items[i].basket_id@,
            )
        &&& !self.rack_table ==> self.racks.len() == 0
        &&& !self.shelf_table ==> self.shelves.len() == 0
        &&& !self.basket_table ==> self.baskets.len() == 0
        &&& !self.item_table ==> self.items.len() == 0
    }
}

/// The state of a freshly created backing file: no schema, no rows,
/// item identifiers starting at one.
pub open spec fn empty_model() -> StoreModel {
    StoreModel {
        rack_table: false,
        shelf_table: false,
        basket_table: false,
        item_table: false,
        name_index: false,
        racks: Seq::empty(),
        shelves: Seq::empty(),
        baskets: Seq::empty(),
        items: Seq::empty(),
        next_item_id: 1,
    }
}

/// Whether a statement succeeds against this state: creating a schema
/// object fails if it already exists (and an index needs its table),
/// writes need their table, an item insert needs its three location
/// rows and a fresh identifier still available, and the indexed lookup
/// needs both the table and the index.
pub open spec fn stmt_ok(m: StoreModel, stmt: Statement) -> bool {
    match stmt {
        Statement::CreateRackTable => !m.rack_table,
        Statement::CreateShelfTable => !m.shelf_table,
        Statement::CreateBasketTable => !m.basket_table,
        Statement::CreateItemTable => !m.item_table,
        Statement::CreateNameIndex => m.item_table && !m.name_index,
        Statement::InsertRackIfAbsent { .. } => m.rack_table,
        Statement::InsertShelfIfAbsent { .. } => m.shelf_table,
        Statement::InsertBasketIfAbsent { .. } => m.basket_table,
        Statement::InsertItem { rack_id, shelf_id, basket_id, .. } => m.item_table
            && m.contains_rack(rack_id@) && m.contains_shelf(shelf_id@) && m.contains_basket(
            basket_id@,
        ) && m.next_item_id < u64::MAX,
        Statement::SelectItemsByName { .. } => m.item_table && m.name_index,
    }
}

/// The state after a successful statement.
pub open spec fn stmt_apply(m: StoreModel, stmt: Statement) -> StoreModel {
    match stmt {
        Statement::CreateRackTable => StoreModel { rack_table: true, ..m },
        Statement::CreateShelfTable => StoreModel { shelf_table: true, ..m },
        Statement::CreateBasketTable => StoreModel { basket_table: true, ..m },
        Statement::CreateItemTable => StoreModel { item_table: true, ..m },
        Statement::CreateNameIndex => StoreModel { name_index: true, ..m },
        Statement::InsertRackIfAbsent { rack_id } => {
            if m.contains_rack(rack_id@) {
                m
            } else {
                StoreModel { racks: m.racks.push(rack_id), ..m }
            }
        },
        Statement::InsertShelfIfAbsent { shelf_id, rack_id } => {
            if m.contains_shelf(shelf_id@) {
                m
            } else {
                StoreModel { shelves: m.shelves.push(ShelfRow { shelf_id, rack_id }), ..m }
            }
        },
        Statement::InsertBasketIfAbsent { basket_id, shelf_id } => {
            if m.contains_basket(basket_id@) {
                m
            } else {
                StoreModel { baskets: m.baskets.push(BasketRow { basket_id, shelf_id }), ..m }
            }
        },
        Statement::InsertItem { rack_id, shelf_id, basket_id, name } => StoreModel {
            items: m.items.push(
                ItemRow { item_id: m.next_item_id, name, rack_id, shelf_id, basket_id },
            ),
            next_item_id: (m.next_item_id + 1) as u64,
            ..m
        },
        Statement::SelectItemsByName { .. } => m,
    }
}

/// The items among `items` whose name equals `name` exactly, in row
/// order.
pub open spec fn matching_items(items: Seq<ItemRow>, name: Seq<char>) -> Seq<ItemRow>
    decreases items.len(),
{
    if items.len() == 0 {
        Seq::empty()
    } else {
        let rest = matching_items(items.drop_last(), name);
        if items.last().name@ == name {
            rest.push(items.last())
        } else {
            rest
        }
    }
}

/// What a name search reads from this state.
pub open spec fn search_model(m: StoreModel, name: Seq<char>) -> Seq<ItemRow> {
    matching_items(m.items, name)
}

/// The rows a successful statement returns: only the name lookup
/// produces any.
pub open spec fn stmt_rows(m: StoreModel, stmt: Statement) -> Seq<ItemRow> {
    match stmt {
        Statement::SelectItemsByName { name } => search_model(m, name@),
        _ => Seq::empty(),
    }
}

/// The state after a committed insert of one item: each missing
/// location row is created, an existing one is left untouched, and the
/// item row is appended under the next identifier.
pub open spec fn insert_model(
    m: StoreModel,
    rack: String,
    shelf: String,
    basket: String,
    name: String,
) -> StoreModel {
    StoreModel {
        racks: if m.contains_rack(rack@) {
            m.racks
        } else {
            m.racks.push(rack)
        },
        shelves: if m.contains_shelf(shelf@) {
            m.shelves
        } else {
            m.shelves.push(ShelfRow { shelf_id: shelf, rack_id: rack })
        },
        baskets: if m.contains_basket(basket@) {
            m.baskets
        } else {
            m.baskets.push(BasketRow { basket_id: basket, shelf_id: shelf })
        },
        items: m.items.push(
            ItemRow {
                item_id: m.next_item_id,
                name: name,
                rack_id: rack,
                shelf_id: shelf,
                basket_id: basket,
            },
        ),
        next_item_id: (m.next_item_id + 1) as u64,
        ..m
    }
}

/// How often `id` occurs among `keys`.
pub open spec fn count_key(keys: Seq<Seq<char>>, id: Seq<char>) -> nat
    decreases keys.len(),
{
    if keys.len() == 0 {
        0
    } else {
        count_key(keys.drop_last(), id) + if keys.last() == id {
            1nat
        } else {
            0nat
        }
    }
}

/// The keys of the Rack table, in row order.
pub open spec fn rack_keys(m: StoreModel) -> Seq<Seq<char>> {
    m.racks.map_values(|s: String| s@)
}

/// The keys of the Shelf table, in row order.
pub open spec fn shelf_keys(m: StoreModel) -> Seq<Seq<char>> {
    m.shelves.map_values(|r: ShelfRow| r.shelf_id@)
}

/// The keys of the Basket table, in row order.
pub open spec fn basket_keys(m: StoreModel) -> Seq<Seq<char>> {
    m.baskets.map_values(|b: BasketRow| b.basket_id@)
}

/// Among pairwise-distinct keys, a key occurs once if present and
/// never otherwise.
proof fn lemma_count_key_distinct(keys: Seq<Seq<char>>, id: Seq<char>)
    requires
        forall|i: int, j: int| 0 <= i < j < keys.len() ==> keys[i] != keys[j],
    ensures
        count_key(keys, id) == if (exists|i: int| 0 <= i < keys.len() && keys[i] == id) {
            1nat
        } else {
            0nat
        },
    decreases keys.len(),
{
    if keys.len() > 0 {
        let rest = keys.drop_last();
        lemma_count_key_distinct(rest, id);
        if keys.last() == id {
            assert forall|i: int| 0 <= i < rest.len() implies rest[i] != id by {
                assert(keys[i] != keys[keys.len() - 1]);
            }
            assert(count_key(rest, id) == 0);
            assert(keys[keys.len() - 1] == id);
        } else {
            if exists|i: int| 0 <= i < keys.len() && keys[i] == id {
                let w = choose|i: int| 0 <= i < keys.len() && keys[i] == id;
                assert(rest[w] == id);
            }
        }
    }
}

/// Idempotent parent creation: inserting two items with the same
/// rack, shelf and basket identifiers but different names leaves
/// exactly one matching row in each location table — the second
/// insert adds no location row at all — and appends exactly the two
/// item rows.
pub proof fn lemma_idempotent_parent_creation(
    m: StoreModel,
    rack: String,
    shelf: String,
    basket: String,
    name1: String,
    name2: String,
)
    requires
        m.wf(),
    ensures
        ({
            let m1 = insert_model(m, rack, shelf, basket, name1);
            let m2 = insert_model(m1, rack, shelf, basket, name2);
            &&& m2.racks == m1.racks
            &&& m2.shelves == m1.shelves
            &&& m2.baskets == m1.baskets
            &&& count_key(rack_keys(m2), rack@) == 1
            &&& count_key(shelf_keys(m2), shelf@) == 1
            &&& count_key(basket_keys(m2), basket@) == 1
            &&& m2.items == m.items.push(
                ItemRow {
                    item_id: m.next_item_id,
                    name: name1,
                    rack_id: rack,
                    shelf_id: shelf,
                    basket_id: basket,
                },
            ).push(
                ItemRow {
                    item_id: m1.next_item_id,
                    name: name2,
                    rack_id: rack,
                    shelf_id: shelf,
                    basket_id: basket,
                },
            )
        }),
{
    let m1 = insert_model(m, rack, shelf, basket, name1);
    let m2 = insert_model(m1, rack, shelf, basket, name2);
    if !m.contains_rack(rack@) {
        assert(m1.racks[m.racks.len() as int]@ == rack@);
    }
    assert(m1.contains_rack(rack@));
    if !m.contains_shelf(shelf@) {
        assert(m1.shelves[m.shelves.len() as int].shelf_id@ == shelf@);
    }
    assert(m1.contains_shelf(shelf@));
    if !m.contains_basket(basket@) {
        assert(m1.baskets[m.baskets.len() as int].basket_id@ == basket@);
    }
    assert(m1.contains_basket(basket@));
    assert forall|i: int, j: int|
        0 <= i < j < m1.racks.len() implies m1.racks[i]@ != m1.racks[j]@ by {
        if j < m.racks.len() {
            assert(m.racks[i]@ != m.racks[j]@);
        } else {
            assert(!m.contains_rack(rack@));
            assert(m.racks[i]@ != rack@);
        }
    }
    assert forall|i: int, j: int|
        0 <= i < j < m1.shelves.len() implies m1.shelves[i].shelf_id@
        != m1.shelves[j].shelf_id@ by {
        if j < m.shelves.len() {
            assert(m.shelves[i].shelf_id@ != m.shelves[j].shelf_id@);
        } else {
            assert(!m.contains_shelf(shelf@));
            assert(m.shelves[i].shelf_id@ != shelf@);
        }
    }
    assert forall|i: int, j: int|
        0 <= i < j < m1.baskets.len() implies m1.baskets[i].basket_id@
        != m1.baskets[j].basket_id@ by {
        if j < m.baskets.len() {
            assert(m.baskets[i].basket_id@ != m.baskets[j].basket_id@);
        } else {
            assert(!m.contains_basket(basket@));
            assert(m.baskets[i].basket_id@ != basket@);
        }
    }
    let rk = rack_keys(m2);
    assert forall|i: int, j: int| 0 <= i < j < rk.len() implies rk[i] != rk[j] by {
        assert(m1.racks[i]@ != m1.racks[j]@);
    }
    let wr = choose|i: int| 0 <= i < m1.racks.len() && m1.racks[i]@ == rack@;
    assert(rk[wr] == rack@);
    lemma_count_key_distinct(rk, rack@);
    let sk = shelf_keys(m2);
    assert forall|i: int, j: int| 0 <= i < j < sk.len() implies sk[i] != sk[j] by {
        assert(m1.shelves[i].shelf_id@ != m1.shelves[j].shelf_id@);
    }
    let ws = choose|i: int| 0 <= i < m1.shelves.len() && m1.shelves[i].shelf_id@ == shelf@;
    assert(sk[ws] == shelf@);
    lemma_count_key_distinct(sk, shelf@);
    let bk = basket_keys(m2);
    assert forall|i: int, j: int| 0 <= i < j < bk.len() implies bk[i] != bk[j] by {
        assert(m1.baskets[i].basket_id@ != m1.baskets[j].basket_id@);
    }
    let wb = choose|i: int| 0 <= i < m1.baskets.len() && m1.baskets[i].basket_id@ == basket@;
    assert(bk[wb] == basket@);
    lemma_count_key_distinct(bk, basket@);
}

/// Search reflects inserts: after inserting one item, a search for
/// its name returns the prior matches with the new item row appended,
/// and a search for any other name returns exactly the prior matches.
pub proof fn lemma_search_reflects_insert(
    m: StoreModel,
    rack: String,
    shelf: String,
    basket: String,
    name: String,
    query: Seq<char>,
)
    ensures
        ({
            let m1 = insert_model(m, rack, shelf, basket, name);
            let row = ItemRow {
                item_id: m.next_item_id,
                name: name,
                rack_id: rack,
                shelf_id: shelf,
                basket_id: basket,
            };
            &&& name@ == query ==> search_model(m1, query) == search_model(m, query).push(row)
            &&& name@ != query ==> search_model(m1, query) == search_model(m, query)
        }),
{
    let row = ItemRow {
        item_id: m.next_item_id,
        name: name,
        rack_id: rack,
        shelf_id: shelf,
        basket_id: basket,
    };
    assert(m.items.push(row).drop_last() =~= m.items);
}

/// A name that no item bears has no matches.
pub proof fn lemma_search_absent(items: Seq<ItemRow>, name: Seq<char>)
    requires
        forall|i: int| 0 <= i < items.len() ==> items[i].name@ != name,
    ensures
        matching_items(items, name) == Seq::<ItemRow>::empty(),
    decreases items.len(),
{
    if items.len() > 0 {
        lemma_search_absent(items.drop_last(), name);
    }
}

/// Search completeness: every item bearing the name appears among the
/// matches, and every match bears the name and comes from the items —
/// nothing is missed and nothing else is returned.
pub proof fn lemma_search_members(items: Seq<ItemRow>, name: Seq<char>)
    ensures
        forall|i: int|
            0 <= i < items.len() && items[i].name@ == name ==> matching_items(
                items,
                name,
            ).contains(items[i]),
        forall|j: int|
            0 <= j < matching_items(items, name).len() ==> matching_items(items, name)[j].name@
                == name && items.contains(matching_items(items, name)[j]),
    decreases items.len(),
{
    let res = matching_items(items, name);
    if items.len() > 0 {
        let rest = items.drop_last();
        lemma_search_members(rest, name);
        let rres = matching_items(rest, name);
        assert forall|i: int|
            0 <= i < items.len() && items[i].name@ == name implies res.contains(items[i]) by {
            if i < items.len() - 1 {
                assert(rest[i] == items[i]);
                assert(rres.contains(rest[i]));
                let w = choose|k: int| 0 <= k < rres.len() && rres[k] == rest[i];
                assert(res[w] == items[i]);
            } else {
                assert(res[res.len() - 1] == items[i]);
            }
        }
        assert forall|j: int|
            0 <= j < res.len() implies res[j].name@ == name && items.contains(res[j]) by {
            if items.last().name@ == name && j == res.len() - 1 {
                assert(res[j] == items.last());
                assert(items[items.len() - 1] == items.last());
            } else {
                assert(res[j] == rres[j]);
                assert(rres[j].name@ == name && rest.contains(rres[j]));
                let w = choose|k: int| 0 <= k < rest.len() && rest[k] == rres[j];
                assert(items[w] == res[j]);
            }
        }
    }
}

/// Among items whose identifiers grow strictly, the matches for a
/// name keep strictly growing identifiers too.
proof fn lemma_matching_ids_increasing(items: Seq<ItemRow>, name: Seq<char>)
    requires
        forall|i: int, j: int| 0 <= i < j < items.len() ==> items[i].item_id < items[j].item_id,
    ensures
        forall|i: int, j: int|
            0 <= i < j < matching_items(items, name).len() ==> matching_items(items, name)[i].item_id
                < matching_items(items, name)[j].item_id,
    decreases items.len(),
{
    let res = matching_items(items, name);
    if items.len() > 0 {
        let rest = items.drop_last();
        lemma_matching_ids_increasing(rest, name);
        lemma_search_members(rest, name);
        let rres = matching_items(rest, name);
        if items.last().name@ == name {
            assert forall|i: int, j: int|
                0 <= i < j < res.len() implies res[i].item_id < res[j].item_id by {
                if j < res.len() - 1 {
                    assert(res[i] == rres[i] && res[j] == rres[j]);
                } else {
                    assert(res[i] == rres[i]);
                    assert(rest.contains(rres[i]));
                    let w = choose|k: int| 0 <= k < rest.len() && rest[k] == rres[i];
                    assert(items[w].item_id < items[items.len() - 1].item_id);
                    assert(res[j] == items.last());
                }
            }
        }
    }
}

/// Search returns each matching item exactly once: under the store's
/// well-formedness the matches carry strictly increasing item
/// identifiers, so no item row is ever repeated in a result set.
pub proof fn lemma_search_exactly_once(m: StoreModel, name: Seq<char>)
    requires
        m.wf(),
    ensures
        forall|i: int, j: int|
            0 <= i < j < search_model(m, name).len() ==> search_model(m, name)[i].item_id
                < search_model(m, name)[j].item_id,
{
    lemma_matching_ids_increasing(m.items, name);
}

/// Rows keep referencing existing location rows when the location
/// tables only grow: a witness row for each item in `m0` is still in
/// place in `m1`.
proof fn lemma_refs_preserved(m0: StoreModel, m1: StoreModel)
    requires
        forall|k: int|
            0 <= k < m0.items.len() ==> m0.contains_rack(m0.items[k].rack_id@)
                && m0.contains_shelf(m0.items[k].shelf_id@) && m0.contains_basket(
                m0.items[k].basket_id@,
            ),
        m0.racks.len() <= m1.racks.len(),
        forall|i: int| 0 <= i < m0.racks.len() ==> m1.racks[i] == m0.racks[i],
        m0.shelves.len() <= m1.shelves.len(),
        forall|i: int| 0 <= i < m0.shelves.len() ==> m1.shelves[i] == m0.shelves[i],
        m0.baskets.len() <= m1.baskets.len(),
        forall|i: int| 0 <= i < m0.baskets.len() ==> m1.baskets[i] == m0.baskets[i],
    ensures
        forall|k: int|
            0 <= k < m0.items.len() ==> m1.contains_rack(m0.items[k].rack_id@)
                && m1.contains_shelf(m0.items[k].shelf_id@) && m1.contains_basket(
                m0.items[k].basket_id@,
            ),
{
    assert forall|k: int|
        0 <= k < m0.items.len() implies m1.contains_rack(m0.items[k].rack_id@)
        && m1.contains_shelf(m0.items[k].shelf_id@) && m1.contains_basket(
        m0.items[k].basket_id@,
    ) by {
        let a = choose|i: int| 0 <= i < m0.racks.len() && m0.racks[i]@ == m0.items[k].rack_id@;
        assert(0 <= a < m1.racks.len() && m1.racks[a]@ == m0.items[k].rack_id@);
        let b = choose|i: int|
            0 <= i < m0.shelves.len() && m0.shelves[i].shelf_id@ == m0.items[k].shelf_id@;
        assert(0 <= b < m1.shelves.len() && m1.shelves[b].shelf_id@ == m0.items[k].shelf_id@);
        let c = choose|i: int|
            0 <= i < m0.baskets.len() && m0.baskets[i].basket_id@ == m0.items[k].basket_id@;
        assert(0 <= c < m1.baskets.len() && m1.baskets[c].basket_id@ == m0.items[k].basket_id@);
    }
}

/// The executable state of one backing store file.
#[derive(Debug)]
pub struct StoreState {
    pub rack_table: bool,
    pub shelf_table: bool,
    pub basket_table: bool,
    pub item_table: bool,
    pub name_index: bool,
    pub racks: Vec<String>,
    pub shelves: Vec<ShelfRow>,
    pub baskets: Vec<BasketRow>,
    pub items: Vec<ItemRow>,
    pub next_item_id: u64,
}

impl View for StoreState {
    type V = StoreModel;

    open spec fn view(&self) -> StoreModel {
        StoreModel {
            rack_table: self.rack_table,
            shelf_table: self.shelf_table,
            basket_table: self.basket_table,
            item_table: self.item_table,
            name_index: self.name_index,
            racks: self.racks@,
            shelves: self.shelves@,
            baskets: self.baskets@,
            items: self.items@,
            next_item_id: self.next_item_id,
        }
    }
}

fn clone_strings(v: &Vec<String>) -> (r: Vec<String>)
    ensures
        r@ == v@,
{
    let mut r: Vec<String> = Vec::new();
    for i in 0..v.len()
        invariant
            r@ =~= v@.take(i as int),
    {
        r.push(v[i].clone());
        assert(r@ =~= v@.take(i + 1));
    }
    assert(r@ =~= v@);
    r
}

fn clone_shelves(v: &Vec<ShelfRow>) -> (r: Vec<ShelfRow>)
    ensures
        r@ == v@,
{
    let mut r: Vec<ShelfRow> = Vec::new();
    for i in 0..v.len()
        invariant
            r@ =~= v@.take(i as int),
    {
        r.push(v[i].clone());
        assert(r@ =~= v@.take(i + 1));
    }
    assert(r@ =~= v@);
    r
}

fn clone_baskets(v: &Vec<BasketRow>) -> (r: Vec<BasketRow>)
    ensures
        r@ == v@,
{
    let mut r: Vec<BasketRow> = Vec::new();
    for i in 0..v.len()
        invariant
            r@ =~= v@.take(i as int),
    {
        r.push(v[i].clone());
        assert(r@ =~= v@.take(i + 1));
    }
    assert(r@ =~= v@);
    r
}

fn clone_items(v: &Vec<ItemRow>) -> (r: Vec<ItemRow>)
    ensures
        r@ == v@,
{
    let mut r: Vec<ItemRow> = Vec::new();
    for i in 0..v.len()
        invariant
            r@ =~= v@.take(i as int),
    {
        r.push(v[i].clone());
        assert(r@ =~= v@.take(i + 1));
    }
    assert(r@ =~= v@);
    r
}

fn contains_string(v: &Vec<String>, id: &String) -> (b: bool)
    ensures
        b == exists|i: int| 0 <= i < v@.len() && v@[i]@ == id@,
{
    for i in 0..v.len()
        invariant
            forall|j: int| 0 <= j < i ==> v@[j]@ != id@,
    {
        if v[i] == *id {
            return true;
        }
    }
    false
}

fn contains_shelf_row(v: &Vec<ShelfRow>, id: &String) -> (b: bool)
    ensures
        b == exists|i: int| 0 <= i < v@.len() && v@[i].shelf_id@ == id@,
{
    for i in 0..v.len()
        invariant
            forall|j: int| 0 <= j < i ==> v@[j].shelf_id@ != id@,
    {
        if v[i].shelf_id == *id {
            return true;
        }
    }
    false
}

fn contains_basket_row(v: &Vec<BasketRow>, id: &String) -> (b: bool)
    ensures
        b == exists|i: int| 0 <= i < v@.len() && v@[i].basket_id@ == id@,
{
    for i in 0..v.len()
        invariant
            forall|j: int| 0 <= j < i ==> v@[j].basket_id@ != id@,
    {
        if v[i].basket_id == *id {
            return true;
        }
    }
    false
}

impl Clone for StoreState {
    fn clone(&self) -> (r: StoreState)
        ensures
            r@ == self@,
    {
        let r = StoreState {
            rack_table: self.rack_table,
            shelf_table: self.shelf_table,
            basket_table: self.basket_table,
            item_table: self.item_table,
            name_index: self.name_index,
            racks: clone_strings(&self.racks),
            shelves: clone_shelves(&self.shelves),
            baskets: clone_baskets(&self.baskets),
            items: clone_items(&self.items),
            next_item_id: self.next_item_id,
        };
        assert(r@ =~= self@);
        r
    }
}

impl StoreState {
    /// The state of a freshly created backing file.
    pub fn empty() -> (s: StoreState)
        ensures
            s@ == empty_model(),
    {
        let s = StoreState {
            rack_table: false,
            shelf_table: false,
            basket_table: false,
            item_table: false,
            name_index: false,
            racks: Vec::new(),
            shelves: Vec::new(),
            baskets: Vec::new(),
            items: Vec::new(),
            next_item_id: 1,
        };
        assert(s@ =~= empty_model());
        s
    }

    /// Executes one statement against this state. A successful
    /// statement transforms the state as [`stmt_apply`] says and
    /// returns the rows [`stmt_rows`] says; a failing one reports an
    /// error and leaves the state untouched. Well-formedness is
    /// preserved either way.
    #[verifier::rlimit(50)]
    pub fn apply(&mut self, stmt: &Statement) -> (r: Result<Vec<ItemRow>, ()>)
        ensures
            r is Ok <==> stmt_ok(old(self)@, *stmt),
            r is Ok ==> final(self)@ == stmt_apply(old(self)@, *stmt),
            r matches Ok(rows) ==> rows@ == stmt_rows(old(self)@, *stmt),
            r is Err ==> final(self)@ == old(self)@,
            old(self)@.wf() && r is Ok ==> final(self)@.wf(),
    {
        match stmt {
            Statement::CreateRackTable => {
                if self.rack_table {
                    Err(())
                } else {
                    self.rack_table = true;
                    assert(self@ =~= stmt_apply(old(self)@, *stmt));
                    proof {
                        if old(self)@.wf() {
                            lemma_refs_preserved(old(self)@, self@);
                            assert(self@.wf());
                        }
                    }
                    Ok(Vec::new())
                }
            },
            Statement::CreateShelfTable => {
                if self.shelf_table {
                    Err(())
                } else {
                    self.shelf_table = true;
                    assert(self@ =~= stmt_apply(old(self)@, *stmt));
                    proof {
                        if old(self)@.wf() {
                            lemma_refs_preserved(old(self)@, self@);
                            assert(self@.wf());
                        }
                    }
                    Ok(Vec::new())
                }
            },
            Statement::CreateBasketTable => {
                if self.basket_table {
                    Err(())
                } else {
                    self.basket_table = true;
                    assert(self@ =~= stmt_apply(old(self)@, *stmt));
                    proof {
                        if old(self)@.wf() {
                            lemma_refs_preserved(old(self)@, self@);
                            assert(self@.wf());
                        }
                    }
                    Ok(Vec::new())
                }
            },
            Statement::CreateItemTable => {
                if self.item_table {
                    Err(())
                } else {
                    self.item_table = true;
                    assert(self@ =~= stmt_apply(old(self)@, *stmt));
                    proof {
                        if old(self)@.wf() {
                            lemma_refs_preserved(old(self)@, self@);
                            assert(self@.wf());
                        }
                    }
                    Ok(Vec::new())
                }
            },
            Statement::CreateNameIndex => {
                if !self.item_table || self.name_index {
                    Err(())
                } else {
                    self.name_index = true;
                    assert(self@ =~= stmt_apply(old(self)@, *stmt));
                    proof {
                        if old(self)@.wf() {
                            lemma_refs_preserved(old(self)@, self@);
                            assert(self@.wf());
                        }
                    }
                    Ok(Vec::new())
                }
            },
            Statement::InsertRackIfAbsent { rack_id } => {
                if !self.rack_table {
                    Err(())
                } else {
                    if !contains_string(&self.racks, rack_id) {
                        self.racks.push(rack_id.clone());
                    }
                    assert(self@ =~= stmt_apply(old(self)@, *stmt));
                    proof {
                        if old(self)@.wf() {
                            lemma_refs_preserved(old(self)@, self@);
                            assert(self@.wf());
                        }
                    }
                    Ok(Vec::new())
                }
            },
            Statement::InsertShelfIfAbsent { shelf_id, rack_id } => {
                if !self.shelf_table {
                    Err(())
                } else {
                    if !contains_shelf_row(&self.shelves, shelf_id) {
                        self.shelves.push(
                            ShelfRow { shelf_id: shelf_id.clone(), rack_id: rack_id.clone() },
                        );
                    }
                    assert(self@ =~= stmt_apply(old(self)@, *stmt));
                    proof {
                        if old(self)@.wf() {
                            lemma_refs_preserved(old(self)@, self@);
                            assert(self@.wf());
                        }
                    }
                    Ok(Vec::new())
                }
            },
            Statement::InsertBasketIfAbsent { basket_id, shelf_id } => {
                if !self.basket_table {
                    Err(())
                } else {
                    if !contains_basket_row(&self.baskets, basket_id) {
                        self.baskets.push(
                            BasketRow { basket_id: basket_id.clone(), shelf_id: shelf_id.clone() },
                        );
                    }
                    assert(self@ =~= stmt_apply(old(self)@, *stmt));
                    proof {
                        if old(self)@.wf() {
                            lemma_refs_preserved(old(self)@, self@);
                            assert(self@.wf());
                        }
                    }
                    Ok(Vec::new())
                }
            },
            Statement::InsertItem { rack_id, shelf_id, basket_id, name } => {
                if !self.item_table || self.next_item_id == u64::MAX {
                    Err(())
                } else if !contains_string(&self.racks, rack_id) {
                    Err(())
                } else if !contains_shelf_row(&self.shelves, shelf_id) {
                    Err(())
                } else if !contains_basket_row(&self.baskets, basket_id) {
                    Err(())
                } else {
                    self.items.push(
                        ItemRow {
                            item_id: self.next_item_id,
                            name: name.clone(),
                            rack_id: rack_id.clone(),
                            shelf_id: shelf_id.clone(),
                            basket_id: basket_id.clone(),
                        },
                    );
                    self.next_item_id = self.next_item_id + 1;
                    assert(self@ =~= stmt_apply(old(self)@, *stmt));
                    proof {
                        if old(self)@.wf() {
                            lemma_refs_preserved(old(self)@, self@);
                            assert(self@.wf());
                        }
                    }
                    Ok(Vec::new())
                }
            },
            Statement::SelectItemsByName { name } => {
                if !self.item_table || !self.name_index {
                    Err(())
                } else {
                    let mut rows: Vec<ItemRow> = Vec::new();
                    for i in 0..self.items.len()
                        invariant
                            rows@ =~= matching_items(self.items@.take(i as int), name@),
                            self.items@.len() <= usize::MAX,
                    {
                        if self.items[i].name == *name {
                            rows.push(self.items[i].clone());
                        }
                        assert(self.items@.take(i + 1).drop_last() =~= self.items@.take(i as int));
                        assert(rows@ =~= matching_items(self.items@.take(i + 1), name@));
                    }
                    assert(self.items@.take(self.items@.len() as int) =~= self.items@);
                    Ok(rows)
                }
            },
        }
    }
}

} // verus!
