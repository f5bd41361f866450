//! End-to-end exercises of the store: lifecycle, schema
//! initialization, transactional insert, name search, and the
//! executor's rollback behavior.

use catalog::database::CloseOutcome;
use catalog::database::Disk;
use catalog::database::Handle;
use catalog::database::LifecycleOutcome;
use catalog::database::SearchOutcome;
use catalog::database::TransactionOutcome;
use catalog::database::close_database;
use catalog::database::create_database;
use catalog::database::initialize_database;
use catalog::database::insert;
use catalog::database::open_database;
use catalog::database::search;
use catalog::executor::TxResult;
use catalog::executor::execute_transaction;
use catalog::plan::Statement;
use catalog::plan::insert_statements;
use catalog::plan::schema_statements;
use catalog::plan::search_statements;
use catalog::store::StoreState;

fn opened(o: LifecycleOutcome) -> Handle {
    match o {
        LifecycleOutcome::Opened(h) => h,
        LifecycleOutcome::ResourceError(m) => panic!("expected a handle, got error: {m}"),
    }
}

fn committed(o: TransactionOutcome) -> Handle {
    match o {
        TransactionOutcome::Success(h) => h,
        TransactionOutcome::Failure(_, m) => panic!("expected success, got failure: {m}"),
    }
}

fn ready_store(disk: &mut Disk, path: &str) -> Handle {
    let h = opened(create_database(disk, path.to_string()));
    committed(initialize_database(h))
}

#[test]
fn scenario_create_init_insert_search() {
    let mut disk = Disk::new();
    let h = ready_store(&mut disk, "/data/p.sqlite");
    let h = committed(insert(
        h,
        "R1".to_string(),
        "S1".to_string(),
        "B1".to_string(),
        "Hammer".to_string(),
    ));
    match search(h, "Hammer".to_string()) {
        SearchOutcome::Found(_, infos) => {
            assert_eq!(infos.len(), 1);
            assert_eq!(infos[0].rack_number, "R1");
            assert_eq!(infos[0].shelf_number, "S1");
            assert_eq!(infos[0].basket_number, "B1");
            assert_eq!(infos[0].item_name, "Hammer");
        }
        _ => panic!("expected one match"),
    }
}

#[test]
fn scenario_shared_locations_counts() {
    let mut disk = Disk::new();
    let h = ready_store(&mut disk, "/data/p.sqlite");
    let h = committed(insert(
        h,
        "R1".to_string(),
        "S1".to_string(),
        "B1".to_string(),
        "Hammer".to_string(),
    ));
    let h = committed(insert(
        h,
        "R1".to_string(),
        "S1".to_string(),
        "B2".to_string(),
        "Wrench".to_string(),
    ));
    assert_eq!(h.rack_count(), 1);
    assert_eq!(h.shelf_count(), 1);
    assert_eq!(h.basket_count(), 2);
    assert_eq!(h.item_count(), 2);
}

#[test]
fn scenario_search_nonexistent_then_insert() {
    let mut disk = Disk::new();
    let h = ready_store(&mut disk, "/data/p.sqlite");
    let h = committed(insert(
        h,
        "R1".to_string(),
        "S1".to_string(),
        "B1".to_string(),
        "Hammer".to_string(),
    ));
    let h = match search(h, "Nonexistent".to_string()) {
        SearchOutcome::NotFound(h) => h,
        _ => panic!("expected the not-found outcome"),
    };
    let h = committed(insert(
        h,
        "R2".to_string(),
        "S2".to_string(),
        "B2".to_string(),
        "Wrench".to_string(),
    ));
    assert_eq!(h.item_count(), 2);
}

#[test]
fn scenario_open_missing_path() {
    let mut disk = Disk::new();
    let path = "/data/absent.sqlite".to_string();
    match open_database(&mut disk, path.clone()) {
        LifecycleOutcome::ResourceError(_) => {}
        _ => panic!("opening a missing path must fail"),
    }
    assert!(!disk.has_file(&path), "open must not create a file");
}

#[test]
fn scenario_close_then_reopen_keeps_contents() {
    let mut disk = Disk::new();
    let path = "/data/p.sqlite";
    let h = ready_store(&mut disk, path);
    let h = committed(insert(
        h,
        "R1".to_string(),
        "S1".to_string(),
        "B1".to_string(),
        "Hammer".to_string(),
    ));
    match close_database(&mut disk, h) {
        CloseOutcome::Closed => {}
    }
    let h = opened(open_database(&mut disk, path.to_string()));
    assert!(h.is_initialized());
    assert_eq!(h.item_count(), 1);
    match search(h, "Hammer".to_string()) {
        SearchOutcome::Found(_, infos) => assert_eq!(infos.len(), 1),
        _ => panic!("the item must survive close and reopen"),
    }
}

#[test]
fn idempotent_parents_two_names() {
    let mut disk = Disk::new();
    let h = ready_store(&mut disk, "/data/p.sqlite");
    let h = committed(insert(
        h,
        "R1".to_string(),
        "S1".to_string(),
        "B1".to_string(),
        "Hammer".to_string(),
    ));
    let h = committed(insert(
        h,
        "R1".to_string(),
        "S1".to_string(),
        "B1".to_string(),
        "Nail".to_string(),
    ));
    assert_eq!(h.rack_count(), 1);
    assert_eq!(h.shelf_count(), 1);
    assert_eq!(h.basket_count(), 1);
    assert_eq!(h.item_count(), 2);
}

#[test]
fn atomicity_fault_at_item_step() {
    let empty = StoreState::empty();
    let schema = schema_statements();
    let state = match execute_transaction(empty, &schema, None) {
        TxResult::Committed(s, _) => s,
        TxResult::RolledBack(_, m) => panic!("schema must apply to a fresh store: {m}"),
    };
    let plan = insert_statements(
        "R1".to_string(),
        "S1".to_string(),
        "B1".to_string(),
        "Hammer".to_string(),
    );
    // The backing store fails at the fourth step, the item insert.
    match execute_transaction(state, &plan, Some(3)) {
        TxResult::RolledBack(s, _) => {
            assert_eq!(s.racks.len(), 0, "no rack row may persist");
            assert_eq!(s.shelves.len(), 0, "no shelf row may persist");
            assert_eq!(s.baskets.len(), 0, "no basket row may persist");
            assert_eq!(s.items.len(), 0);
        }
        TxResult::Committed(_, _) => panic!("a faulted transaction must not commit"),
    }
}

#[test]
fn atomicity_constraint_violation_at_item_step() {
    let empty = StoreState::empty();
    let schema = schema_statements();
    let state = match execute_transaction(empty, &schema, None) {
        TxResult::Committed(s, _) => s,
        TxResult::RolledBack(_, m) => panic!("schema must apply to a fresh store: {m}"),
    };
    // A plan whose fourth step violates referential integrity: the
    // item references a basket whose row the plan never creates.
    let plan = vec![
        Statement::InsertRackIfAbsent { rack_id: "R1".to_string() },
        Statement::InsertShelfIfAbsent { shelf_id: "S1".to_string(), rack_id: "R1".to_string() },
        Statement::InsertBasketIfAbsent { basket_id: "B1".to_string(), shelf_id: "S1".to_string() },
        Statement::InsertItem {
            rack_id: "R1".to_string(),
            shelf_id: "S1".to_string(),
            basket_id: "B-missing".to_string(),
            name: "Hammer".to_string(),
        },
    ];
    match execute_transaction(state, &plan, None) {
        TxResult::RolledBack(s, _) => {
            assert_eq!(s.racks.len(), 0, "no rack row may persist");
            assert_eq!(s.shelves.len(), 0);
            assert_eq!(s.baskets.len(), 0);
            assert_eq!(s.items.len(), 0);
        }
        TxResult::Committed(_, _) => panic!("the failing item step must abort the transaction"),
    }
}

#[test]
fn atomicity_fault_at_commit() {
    let empty = StoreState::empty();
    let schema = schema_statements();
    let state = match execute_transaction(empty, &schema, None) {
        TxResult::Committed(s, _) => s,
        TxResult::RolledBack(_, m) => panic!("schema must apply to a fresh store: {m}"),
    };
    let plan = insert_statements(
        "R1".to_string(),
        "S1".to_string(),
        "B1".to_string(),
        "Hammer".to_string(),
    );
    match execute_transaction(state, &plan, Some(4)) {
        TxResult::RolledBack(s, _) => {
            assert_eq!(s.racks.len(), 0);
            assert_eq!(s.items.len(), 0);
        }
        TxResult::Committed(_, _) => panic!("a failed commit must roll back"),
    }
}

#[test]
fn insert_before_initialize_fails() {
    let mut disk = Disk::new();
    let h = opened(create_database(&mut disk, "/data/p.sqlite".to_string()));
    let h = match insert(
        h,
        "R1".to_string(),
        "S1".to_string(),
        "B1".to_string(),
        "Hammer".to_string(),
    ) {
        TransactionOutcome::Failure(h, _) => h,
        TransactionOutcome::Success(_) => panic!("insert must fail before the schema exists"),
    };
    // The reclaimed handle is still usable: initialization succeeds.
    let h = committed(initialize_database(h));
    assert!(h.is_initialized());
}

#[test]
fn initialize_twice_fails() {
    let mut disk = Disk::new();
    let h = ready_store(&mut disk, "/data/p.sqlite");
    match initialize_database(h) {
        TransactionOutcome::Failure(h, _) => {
            assert!(h.is_initialized(), "the first schema must stand untouched");
            assert_eq!(h.item_count(), 0);
        }
        TransactionOutcome::Success(_) => panic!("re-initialization must fail"),
    }
}

#[test]
fn search_without_schema_fails() {
    let mut disk = Disk::new();
    let h = opened(create_database(&mut disk, "/data/p.sqlite".to_string()));
    match search(h, "Hammer".to_string()) {
        SearchOutcome::Failure(h, _) => {
            assert!(!h.is_initialized());
        }
        _ => panic!("search must fail before the schema exists"),
    }
}

#[test]
fn empty_string_identifiers_allowed() {
    let mut disk = Disk::new();
    let h = ready_store(&mut disk, "/data/p.sqlite");
    let h = committed(insert(
        h,
        "".to_string(),
        "".to_string(),
        "".to_string(),
        "".to_string(),
    ));
    assert_eq!(h.rack_count(), 1);
    match search(h, "".to_string()) {
        SearchOutcome::Found(_, infos) => {
            assert_eq!(infos.len(), 1);
            assert_eq!(infos[0].rack_number, "");
            assert_eq!(infos[0].item_name, "");
        }
        _ => panic!("an empty name is a valid name"),
    }
}

#[test]
fn same_name_all_matches_in_row_order() {
    let mut disk = Disk::new();
    let h = ready_store(&mut disk, "/data/p.sqlite");
    let h = committed(insert(
        h,
        "R1".to_string(),
        "S1".to_string(),
        "B1".to_string(),
        "Bolt".to_string(),
    ));
    let h = committed(insert(
        h,
        "R2".to_string(),
        "S2".to_string(),
        "B2".to_string(),
        "Bolt".to_string(),
    ));
    let h = committed(insert(
        h,
        "R3".to_string(),
        "S3".to_string(),
        "B3".to_string(),
        "Washer".to_string(),
    ));
    match search(h, "Bolt".to_string()) {
        SearchOutcome::Found(_, infos) => {
            assert_eq!(infos.len(), 2);
            assert_eq!(infos[0].rack_number, "R1");
            assert_eq!(infos[1].rack_number, "R2");
        }
        _ => panic!("both items named Bolt must come back"),
    }
}

#[test]
fn create_existing_file_keeps_contents() {
    let mut disk = Disk::new();
    let path = "/data/p.sqlite";
    let h = ready_store(&mut disk, path);
    let h = committed(insert(
        h,
        "R1".to_string(),
        "S1".to_string(),
        "B1".to_string(),
        "Hammer".to_string(),
    ));
    match close_database(&mut disk, h) {
        CloseOutcome::Closed => {}
    }
    // Create against an existing file opens it without clearing it.
    let h = opened(create_database(&mut disk, path.to_string()));
    assert_eq!(h.item_count(), 1);
}

#[test]
fn second_handle_refused_while_open() {
    let mut disk = Disk::new();
    let path = "/data/p.sqlite";
    let _h = ready_store(&mut disk, path);
    match open_database(&mut disk, path.to_string()) {
        LifecycleOutcome::ResourceError(_) => {}
        _ => panic!("a second handle to an open store must be refused"),
    }
    match create_database(&mut disk, path.to_string()) {
        LifecycleOutcome::ResourceError(_) => {}
        _ => panic!("create must refuse a store that is already open"),
    }
}

#[test]
fn search_reads_nothing_but_matches() {
    let empty = StoreState::empty();
    let schema = schema_statements();
    let state = match execute_transaction(empty, &schema, None) {
        TxResult::Committed(s, _) => s,
        TxResult::RolledBack(_, m) => panic!("schema must apply to a fresh store: {m}"),
    };
    let plan = insert_statements(
        "R1".to_string(),
        "S1".to_string(),
        "B1".to_string(),
        "Hammer".to_string(),
    );
    let state = match execute_transaction(state, &plan, None) {
        TxResult::Committed(s, rows) => {
            assert_eq!(rows.len(), 0, "an insert reads no rows");
            s
        }
        TxResult::RolledBack(_, m) => panic!("insert must commit: {m}"),
    };
    let lookup = search_statements("Hammer".to_string());
    match execute_transaction(state, &lookup, None) {
        TxResult::Committed(s, rows) => {
            assert_eq!(rows.len(), 1);
            assert_eq!(rows[0].name, "Hammer");
            assert_eq!(rows[0].rack_id, "R1");
            assert_eq!(rows[0].item_id, 1, "item identifiers start at one");
            assert_eq!(s.items.len(), 1, "a search changes nothing");
        }
        TxResult::RolledBack(_, m) => panic!("search must commit: {m}"),
    }
}

#[test]
fn item_identifiers_increase_and_are_never_reused() {
    let mut disk = Disk::new();
    let h = ready_store(&mut disk, "/data/p.sqlite");
    let h = committed(insert(
        h,
        "R1".to_string(),
        "S1".to_string(),
        "B1".to_string(),
        "A".to_string(),
    ));
    let h = committed(insert(
        h,
        "R1".to_string(),
        "S1".to_string(),
        "B1".to_string(),
        "B".to_string(),
    ));
    let lookup_a = match search(h, "A".to_string()) {
        SearchOutcome::Found(h, infos) => {
            assert_eq!(infos.len(), 1);
            h
        }
        _ => panic!("A must be found"),
    };
    match search(lookup_a, "B".to_string()) {
        SearchOutcome::Found(_, infos) => assert_eq!(infos.len(), 1),
        _ => panic!("B must be found"),
    }
}
