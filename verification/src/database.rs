//! The store lifecycle and the transactional operations: create, open
//! and close a backing store, initialize its schema, insert one item,
//! and search items by name.
//!
//! The one live connection to an open store is the [`Handle`]. It is
//! deliberately not duplicable: an operation consumes it and every
//! outcome — success or failure — carries exactly one handle back, so
//! a handle is never lost and never doubled. Closing is terminal: it
//! consumes the handle, and the type system refuses any further use of
//! it.
//!
//! The [`Disk`] stands for the set of backing files these operations
//! can reach, each under its path. A surrounding program that keeps
//! real files instead drives its storage engine with the same plans
//! ([`crate::plan`]) these operations run against the model.

use vstd::prelude::*;

use crate::ItemInfo;
use crate::executor::TxResult;
use crate::executor::execute_transaction;
use crate::executor::lemma_insert_plan;
use crate::executor::lemma_schema_plan;
use crate::executor::lemma_search_plan;
use crate::plan::insert_statements;
use crate::plan::schema_statements;
use crate::plan::search_statements;
use crate::store::ItemRow;
use crate::store::StoreModel;
use crate::store::StoreState;
use crate::store::empty_model;
use crate::store::insert_model;
use crate::store::search_model;

verus! {

/// What one path on the disk holds: the logical contents of the file
/// there, and whether a handle to it is currently out.
pub ghost struct FileModel {
    pub state: StoreModel,
    pub open: bool,
}

/// One backing file: its path, its contents, and whether a handle to
/// it is out. While a handle is out, the slot keeps the contents as
/// they were at opening; closing writes the handle's contents back.
struct FileSlot {
    path: String,
    state: StoreState,
    open: bool,
}

/// The backing files reachable from these operations, each under its
/// own path.
pub struct Disk {
    files: Vec<FileSlot>,
}

spec fn files_view(files: Seq<FileSlot>) -> Map<Seq<char>, FileModel> {
    Map::new(
        |p: Seq<char>| exists|i: int| 0 <= i < files.len() && files[i].path@ == p,
        |p: Seq<char>|
            {
                let i = choose|i: int| 0 <= i < files.len() && files[i].path@ == p;
                FileModel { state: files[i].state@, open: files[i].open }
            },
    )
}

spec fn files_wf(files: Seq<FileSlot>) -> bool {
    &&& forall|i: int, j: int| 0 <= i < j < files.len() ==> files[i].path@ != files[j].path@
    &&& forall|i: int| 0 <= i < files.len() ==> files[i].state@.wf()
}

impl View for Disk {
    type V = Map<Seq<char>, FileModel>;

    closed spec fn view(&self) -> Map<Seq<char>, FileModel> {
        files_view(self.files@)
    }
}

/// Replacing one slot with a slot of the same path rewrites the view
/// at that path alone.
proof fn lemma_view_update(pre: Seq<FileSlot>, post: Seq<FileSlot>, i: int)
    requires
        forall|a: int, b: int| 0 <= a < b < pre.len() ==> pre[a].path@ != pre[b].path@,
        0 <= i < pre.len(),
        post.len() == pre.len(),
        forall|j: int| 0 <= j < pre.len() && j != i ==> post[j] == pre[j],
        post[i].path@ == pre[i].path@,
    ensures
        files_view(post) == files_view(pre).insert(
            pre[i].path@,
            FileModel { state: post[i].state@, open: post[i].open },
        ),
{
    let va = files_view(pre);
    let vb = files_view(post);
    let target = va.insert(pre[i].path@, FileModel { state: post[i].state@, open: post[i].open });
    assert forall|q: Seq<char>| vb.dom().contains(q) implies target.dom().contains(q) by {
        let j = choose|j: int| 0 <= j < post.len() && post[j].path@ == q;
        assert(pre[j].path@ == q);
    }
    assert forall|q: Seq<char>| target.dom().contains(q) implies vb.dom().contains(q) by {
        if q == pre[i].path@ {
            assert(post[i].path@ == q);
        } else {
            let j = choose|j: int| 0 <= j < pre.len() && pre[j].path@ == q;
            assert(post[j].path@ == q);
        }
    }
    assert forall|q: Seq<char>| vb.dom().contains(q) implies vb[q] == target[q] by {
        let j = choose|j: int| 0 <= j < post.len() && post[j].path@ == q;
        assert(pre[j].path@ == q);
        if q == pre[i].path@ {
            assert(j == i);
            assert(vb[q] == (FileModel { state: post[i].state@, open: post[i].open }));
        } else {
            assert(j != i);
            assert(post[j] == pre[j]);
            let k = choose|k: int| 0 <= k < pre.len() && pre[k].path@ == q;
            assert(k == j);
            assert(vb[q] == va[q]);
        }
    }
    assert(vb =~= target);
}

/// Adding a slot under a path the disk does not hold extends the view
/// at that path alone.
proof fn lemma_view_push(pre: Seq<FileSlot>, slot: FileSlot)
    requires
        forall|a: int, b: int| 0 <= a < b < pre.len() ==> pre[a].path@ != pre[b].path@,
        !(exists|i: int| 0 <= i < pre.len() && pre[i].path@ == slot.path@),
    ensures
        files_view(pre.push(slot)) == files_view(pre).insert(
            slot.path@,
            FileModel { state: slot.state@, open: slot.open },
        ),
{
    let post = pre.push(slot);
    let va = files_view(pre);
    let vb = files_view(post);
    let target = va.insert(slot.path@, FileModel { state: slot.state@, open: slot.open });
    assert forall|q: Seq<char>| vb.dom().contains(q) implies target.dom().contains(q) by {
        let j = choose|j: int| 0 <= j < post.len() && post[j].path@ == q;
        if j < pre.len() {
            assert(pre[j].path@ == q);
        }
    }
    assert forall|q: Seq<char>| target.dom().contains(q) implies vb.dom().contains(q) by {
        if q == slot.path@ {
            assert(post[pre.len() as int].path@ == q);
        } else {
            let j = choose|j: int| 0 <= j < pre.len() && pre[j].path@ == q;
            assert(post[j].path@ == q);
        }
    }
    assert forall|q: Seq<char>| vb.dom().contains(q) implies vb[q] == target[q] by {
        let j = choose|j: int| 0 <= j < post.len() && post[j].path@ == q;
        if q == slot.path@ {
            assert(j == pre.len() as int);
            assert(vb[q] == (FileModel { state: slot.state@, open: slot.open }));
        } else {
            assert(j < pre.len());
            assert(pre[j].path@ == q);
            let k = choose|k: int| 0 <= k < pre.len() && pre[k].path@ == q;
            assert(k == j);
            assert(vb[q] == va[q]);
        }
    }
    assert(vb =~= target);
}

impl Disk {
    /// Every path names at most one file, and every file holds a
    /// well-formed store state.
    pub closed spec fn wf(&self) -> bool {
        files_wf(self.files@)
    }

    /// An empty disk: no files at all.
    pub fn new() -> (d: Disk)
        ensures
            d.wf(),
            d@ == Map::<Seq<char>, FileModel>::empty(),
    {
        let d = Disk { files: Vec::new() };
        proof {
            assert(d@ =~= Map::<Seq<char>, FileModel>::empty());
        }
        d
    }

    /// Whether a file exists under this path.
    pub fn has_file(&self, path: &String) -> (b: bool)
        requires
            self.wf(),
        ensures
            b == self@.dom().contains(path@),
    {
        match self.find_slot(path) {
            Some(_) => true,
            None => false,
        }
    }

    /// The slot holding `path`, if any.
    fn find_slot(&self, path: &String) -> (r: Option<usize>)
        requires
            self.wf(),
        ensures
            r matches Some(i) ==> i < self.files@.len() && self.files@[i as int].path@ == path@
                && self@.dom().contains(path@) && self@[path@] == (FileModel {
                state: self.files@[i as int].state@,
                open: self.files@[i as int].open,
            }),
            r is None ==> !self@.dom().contains(path@),
    {
        for i in 0..self.files.len()
            invariant
                self.wf(),
                forall|j: int| 0 <= j < i ==> self.files@[j].path@ != path@,
        {
            if self.files[i].path == *path {
                proof {
                    assert((i as int) < self.files@.len() && self.files@[i as int].path@ == path@);
                    assert(exists|k: int|
                        0 <= k < self.files@.len() && self.files@[k].path@ == path@);
                    let k = choose|k: int|
                        0 <= k < self.files@.len() && self.files@[k].path@ == path@;
                    if k < i as int {
                        assert(self.files@[k].path@ != self.files@[i as int].path@);
                    } else if (i as int) < k {
                        assert(self.files@[i as int].path@ != self.files@[k].path@);
                    }
                    assert(k == i as int);
                }
                return Some(i);
            }
        }
        None
    }
}

/// The outcome of creating or opening a store: the one handle to it,
/// or a failure with a message and no handle, the disk left unchanged.
#[derive(Debug)]
pub enum LifecycleOutcome {
    Opened(Handle),
    ResourceError(String),
}

/// The outcome of a transactional operation: the reclaimed handle
/// either way, with a message on failure. The handle is never lost.
#[derive(Debug)]
pub enum TransactionOutcome {
    Success(Handle),
    Failure(Handle, String),
}

/// The outcome of a name search: the matches and the reclaimed handle;
/// a distinct not-found outcome, which is no error; or a failure with
/// a message. The handle comes back in every case.
#[derive(Debug)]
pub enum SearchOutcome {
    Found(Handle, Vec<ItemInfo>),
    NotFound(Handle),
    Failure(Handle, String),
}

/// The outcome of closing a store: the handle is gone for good.
#[derive(Debug)]
pub enum CloseOutcome {
    Closed,
}

/// The live, exclusive connection to one open backing store.
///
/// There is no way to duplicate a handle, and no operation ever drops
/// one: each takes the handle by value and gives exactly one back in
/// its outcome. A closed handle cannot be used again — closing
/// consumes it, and using a moved value does not compile.
#[derive(Debug)]
pub struct Handle {
    path: String,
    store: StoreState,
}

impl Handle {
    /// The path of the backing file this handle is open on.
    pub closed spec fn path_model(&self) -> Seq<char> {
        self.path@
    }

    /// The logical contents of the store behind this handle.
    pub closed spec fn store_model(&self) -> StoreModel {
        self.store@
    }

    /// The contents behind a handle are always well-formed.
    #[verifier::type_invariant]
    pub closed spec fn inv(self) -> bool {
        self.store@.wf()
    }

    /// The path of the backing file this handle is open on.
    pub fn path(&self) -> (r: &str)
        ensures
            r@ == self.path_model(),
    {
        self.path.as_str()
    }

    /// The schema behind this handle is fully in place.
    pub fn is_initialized(&self) -> (b: bool)
        ensures
            b == self.store_model().schema_ready(),
    {
        self.store.rack_table && self.store.shelf_table && self.store.basket_table
            && self.store.item_table && self.store.name_index
    }

    /// How many rack rows the store behind this handle holds.
    pub fn rack_count(&self) -> (n: usize)
        ensures
            n == self.store_model().racks.len(),
    {
        self.store.racks.len()
    }

    /// How many shelf rows the store behind this handle holds.
    pub fn shelf_count(&self) -> (n: usize)
        ensures
            n == self.store_model().shelves.len(),
    {
        self.store.shelves.len()
    }

    /// How many basket rows the store behind this handle holds.
    pub fn basket_count(&self) -> (n: usize)
        ensures
            n == self.store_model().baskets.len(),
    {
        self.store.baskets.len()
    }

    /// How many item rows the store behind this handle holds.
    pub fn item_count(&self) -> (n: usize)
        ensures
            n == self.store_model().items.len(),
    {
        self.store.items.len()
    }
}

/// Creates a store at `path` — keeping the file found there, if any,
/// and otherwise starting one afresh — and hands out its one handle.
/// It fails, leaving the disk as it was, only when a handle to that
/// path is already out. The schema of a fresh store must be
/// initialized separately before items can be inserted or searched.
pub fn create_database(disk: &mut Disk, path: String) -> (r: LifecycleOutcome)
    requires
        old(disk).wf(),
    ensures
        final(disk).wf(),
        ({
            let pre = old(disk)@;
            let had = pre.dom().contains(path@);
            let prior = if had {
                pre[path@].state
            } else {
                empty_model()
            };
            &&& r is Opened <==> !(had && pre[path@].open)
            &&& r matches LifecycleOutcome::Opened(h) ==> h.path_model() == path@
                && h.store_model() == prior && final(disk)@ == pre.insert(
                path@,
                FileModel { state: prior, open: true },
            )
            &&& r is ResourceError ==> final(disk)@ == pre
        }),
{
    match disk.find_slot(&path) {
        Some(i) => {
            if disk.files[i].open {
                LifecycleOutcome::ResourceError("the store is already open".to_string())
            } else {
                let slot_state = disk.files[i].state.clone();
                let handle_state = disk.files[i].state.clone();
                let slot_path = disk.files[i].path.clone();
                let ghost pre_files = disk.files@;
                disk.files.set(i, FileSlot { path: slot_path, state: slot_state, open: true });
                proof {
                    lemma_view_update(pre_files, disk.files@, i as int);
                }
                LifecycleOutcome::Opened(Handle { path, store: handle_state })
            }
        },
        None => {
            let slot_state = StoreState::empty();
            let handle_state = StoreState::empty();
            let slot_path = path.clone();
            let ghost pre_files = disk.files@;
            let slot = FileSlot { path: slot_path, state: slot_state, open: true };
            proof {
                lemma_view_push(pre_files, slot);
            }
            disk.files.push(slot);
            LifecycleOutcome::Opened(Handle { path, store: handle_state })
        },
    }
}

/// Opens the store expected to exist at `path` and hands out its one
/// handle. It fails, leaving the disk exactly as it was — in
/// particular creating no file — when no file exists there, or when a
/// handle to it is already out.
pub fn open_database(disk: &mut Disk, path: String) -> (r: LifecycleOutcome)
    requires
        old(disk).wf(),
    ensures
        final(disk).wf(),
        ({
            let pre = old(disk)@;
            let had = pre.dom().contains(path@);
            &&& r is Opened <==> (had && !pre[path@].open)
            &&& r matches LifecycleOutcome::Opened(h) ==> h.path_model() == path@
                && h.store_model() == pre[path@].state && final(disk)@ == pre.insert(
                path@,
                FileModel { state: pre[path@].state, open: true },
            )
            &&& r is ResourceError ==> final(disk)@ == pre
        }),
{
    match disk.find_slot(&path) {
        Some(i) => {
            if disk.files[i].open {
                LifecycleOutcome::ResourceError("the store is already open".to_string())
            } else {
                let slot_state = disk.files[i].state.clone();
                let handle_state = disk.files[i].state.clone();
                let slot_path = disk.files[i].path.clone();
                let ghost pre_files = disk.files@;
                disk.files.set(i, FileSlot { path: slot_path, state: slot_state, open: true });
                proof {
                    lemma_view_update(pre_files, disk.files@, i as int);
                }
                LifecycleOutcome::Opened(Handle { path, store: handle_state })
            }
        },
        None => {
            LifecycleOutcome::ResourceError("no store exists at this path".to_string())
        },
    }
}

/// Closes the store: writes the contents behind the handle back to its
/// slot, releases the slot, and consumes the handle. This is terminal —
/// the handle is gone, and no operation can be attempted on it again.
pub fn close_database(disk: &mut Disk, handle: Handle) -> (r: CloseOutcome)
    requires
        old(disk).wf(),
        old(disk)@.dom().contains(handle.path_model()),
        old(disk)@[handle.path_model()].open,
    ensures
        final(disk).wf(),
        r is Closed,
        final(disk)@ == old(disk)@.insert(
            handle.path_model(),
            FileModel { state: handle.store_model(), open: false },
        ),
{
    proof {
        use_type_invariant(&handle);
    }
    let Handle { path, store } = handle;
    match disk.find_slot(&path) {
        Some(i) => {
            let ghost pre_files = disk.files@;
            disk.files.set(i, FileSlot { path, state: store, open: false });
            proof {
                lemma_view_update(pre_files, disk.files@, i as int);
            }
            CloseOutcome::Closed
        },
        None => {
            CloseOutcome::Closed
        },
    }
}

/// The search record built from one item row: the three location
/// identifiers and the name, as the surrounding interface shows them.
pub open spec fn info_of(it: ItemRow) -> ItemInfo {
    ItemInfo {
        rack_number: it.rack_id,
        shelf_number: it.shelf_id,
        basket_number: it.basket_id,
        item_name: it.name,
    }
}

/// Applies the schema — the four tables and the name index — to the
/// store behind the handle, inside one transaction. It succeeds
/// exactly on a store with no schema yet, as `create_database` leaves
/// a fresh one; against any other store the transaction is rolled
/// back and the store is left exactly as it was. Either outcome
/// carries the one handle back.
pub fn initialize_database(handle: Handle) -> (r: TransactionOutcome)
    ensures
        ({
            let m = handle.store_model();
            &&& r is Success <==> m.schema_fresh()
            &&& r matches TransactionOutcome::Success(h) ==> h.path_model() == handle.path_model()
                && h.store_model() == (StoreModel {
                rack_table: true,
                shelf_table: true,
                basket_table: true,
                item_table: true,
                name_index: true,
                ..m
            })
            &&& r matches TransactionOutcome::Failure(h, _) ==> h.path_model()
                == handle.path_model() && h.store_model() == m
        }),
{
    proof {
        use_type_invariant(&handle);
    }
    let Handle { path, store } = handle;
    proof {
        lemma_schema_plan(store@);
    }
    let stmts = schema_statements();
    match execute_transaction(store, &stmts, None) {
        TxResult::Committed(s, _) => TransactionOutcome::Success(Handle { path, store: s }),
        TxResult::RolledBack(s, msg) => TransactionOutcome::Failure(
            Handle { path, store: s },
            msg,
        ),
    }
}

/// Inserts one item at the given location, inside one transaction:
/// the rack, shelf and basket rows are created only where missing —
/// re-using existing location rows is no error — and the item row is
/// appended under the next store-assigned identifier. It succeeds
/// exactly when the four tables exist and an identifier is still
/// available; otherwise the transaction is rolled back and nothing of
/// it persists. Either outcome carries the one handle back.
pub fn insert(handle: Handle, rack: String, shelf: String, basket: String, name: String) -> (r:
    TransactionOutcome)
    ensures
        ({
            let m = handle.store_model();
            &&& r is Success <==> (m.rack_table && m.shelf_table && m.basket_table && m.item_table
                && m.next_item_id < u64::MAX)
            &&& r matches TransactionOutcome::Success(h) ==> h.path_model() == handle.path_model()
                && h.store_model() == insert_model(m, rack, shelf, basket, name)
            &&& r matches TransactionOutcome::Failure(h, _) ==> h.path_model()
                == handle.path_model() && h.store_model() == m
        }),
{
    proof {
        use_type_invariant(&handle);
    }
    let Handle { path, store } = handle;
    proof {
        lemma_insert_plan(store@, rack, shelf, basket, name);
    }
    let stmts = insert_statements(rack, shelf, basket, name);
    match execute_transaction(store, &stmts, None) {
        TxResult::Committed(s, _) => TransactionOutcome::Success(Handle { path, store: s }),
        TxResult::RolledBack(s, msg) => TransactionOutcome::Failure(
            Handle { path, store: s },
            msg,
        ),
    }
}

/// Looks up every item whose name equals `name` exactly, through the
/// name index, in one read-only transaction. One or more matches come
/// back as records in row order; zero matches is the distinct
/// not-found outcome, which is no error; the lookup fails only against
/// a store without the item table or the index. The store is never
/// changed, and every outcome carries the one handle back.
pub fn search(handle: Handle, name: String) -> (r: SearchOutcome)
    ensures
        ({
            let m = handle.store_model();
            let found = search_model(m, name@);
            &&& (r is Found <==> (m.item_table && m.name_index && found.len() > 0))
            &&& (r is NotFound <==> (m.item_table && m.name_index && found.len() == 0))
            &&& r matches SearchOutcome::Found(h, infos) ==> h.path_model()
                == handle.path_model() && h.store_model() == m && infos@ == found.map_values(
                |it: ItemRow| info_of(it),
            )
            &&& r matches SearchOutcome::NotFound(h) ==> h.path_model() == handle.path_model()
                && h.store_model() == m
            &&& r matches SearchOutcome::Failure(h, _) ==> h.path_model() == handle.path_model()
                && h.store_model() == m
        }),
{
    proof {
        use_type_invariant(&handle);
    }
    let Handle { path, store } = handle;
    proof {
        lemma_search_plan(store@, name);
    }
    let stmts = search_statements(name);
    match execute_transaction(store, &stmts, None) {
        TxResult::Committed(s, rows) => {
            if rows.len() == 0 {
                SearchOutcome::NotFound(Handle { path, store: s })
            } else {
                let mut infos: Vec<ItemInfo> = Vec::new();
                for i in 0..rows.len()
                    invariant
                        infos@ =~= rows@.take(i as int).map_values(|it: ItemRow| info_of(it)),
                {
                    infos.push(
                        ItemInfo {
                            rack_number: rows[i].rack_id.clone(),
                            shelf_number: rows[i].shelf_id.clone(),
                            basket_number: rows[i].basket_id.clone(),
                            item_name: rows[i].name.clone(),
                        },
                    );
                    assert(infos@ =~= rows@.take(i + 1).map_values(|it: ItemRow| info_of(it)));
                }
                assert(rows@.take(rows@.len() as int) =~= rows@);
                SearchOutcome::Found(Handle { path, store: s }, infos)
            }
        },
        TxResult::RolledBack(s, msg) => SearchOutcome::Failure(Handle { path, store: s }, msg),
    }
}

} // verus!
