//! Exercises of the foreground state machine: screen transitions,
//! configuration handling, and the handoff of the one store handle
//! into and out of actions.

use catalog::catalog::Action;
use catalog::catalog::Catalog;
use catalog::catalog::Config;
use catalog::catalog::Message;
use catalog::catalog::Screen;
use catalog::database::Disk;
use catalog::database::Handle;
use catalog::database::LifecycleOutcome;
use catalog::database::SearchOutcome;
use catalog::database::TransactionOutcome;
use catalog::database::create_database;
use catalog::database::initialize_database;
use catalog::toast::Status;
use catalog::toast::Toast;

fn fresh_handle(disk: &mut Disk, path: &str) -> Handle {
    let h = match create_database(disk, path.to_string()) {
        LifecycleOutcome::Opened(h) => h,
        LifecycleOutcome::ResourceError(m) => panic!("create failed: {m}"),
    };
    match initialize_database(h) {
        TransactionOutcome::Success(h) => h,
        TransactionOutcome::Failure(_, m) => panic!("initialize failed: {m}"),
    }
}

#[test]
fn machine_starts_idle_and_empty() {
    let c = Catalog::new();
    assert!(matches!(c.screen, Screen::Starting));
    assert!(c.config.database_paths.is_empty());
    assert!(c.current_database.is_none());
    assert_eq!(c.title(), "Catalog");
}

#[test]
fn machine_shutdown_without_database_dumps_config() {
    let mut c = Catalog::new();
    match c.update(Message::Shutdown) {
        Action::DumpConfig(cfg) => assert!(cfg.database_paths.is_empty()),
        _ => panic!("with no handle held, shutdown persists the configuration"),
    }
    match c.update(Message::DumpedConfig) {
        Action::CloseWindow => {}
        _ => panic!("after the dump, the window closes"),
    }
}

#[test]
fn machine_shutdown_hands_handle_into_close() {
    let mut disk = Disk::new();
    let h = fresh_handle(&mut disk, "/data/p.sqlite");
    let mut c = Catalog::new();
    assert!(matches!(c.update(Message::OpenDatabaseSuccess(h)), Action::Idle));
    assert!(c.current_database.is_some());
    match c.update(Message::Shutdown) {
        Action::CloseDatabase(_) => {}
        _ => panic!("with the handle held, shutdown closes the store"),
    }
    assert!(c.current_database.is_none(), "the handle moved into the action");
    match c.update(Message::ClosedDatabase) {
        Action::DumpConfig(_) => {}
        _ => panic!("after the close, the configuration is persisted"),
    }
}

#[test]
fn machine_initialization_flow() {
    let mut c = Catalog::new();
    let empty = Config { database_paths: Vec::new() };
    assert!(matches!(c.update(Message::InitializationSuccessful(empty)), Action::Idle));
    assert!(matches!(c.screen, Screen::InitializeEmpty(_)));
    assert!(matches!(
        c.update(Message::InitializeInputChanged("/data/p.sqlite".to_string())),
        Action::Idle
    ));
    assert!(matches!(c.update(Message::InitializeSubmit), Action::Idle));
    assert_eq!(c.config.database_paths, vec!["/data/p.sqlite".to_string()]);
    assert!(matches!(c.screen, Screen::InitializeChoice(_)));
}

#[test]
fn machine_initialize_submit_rejects_empty_path() {
    let mut c = Catalog::new();
    let empty = Config { database_paths: Vec::new() };
    c.update(Message::InitializationSuccessful(empty));
    assert!(matches!(c.update(Message::InitializeSubmit), Action::Idle));
    assert!(c.config.database_paths.is_empty(), "an empty path is not recorded");
    assert!(matches!(c.screen, Screen::InitializeEmpty(_)));
}

#[test]
fn machine_known_paths_lead_to_choice_screen() {
    let mut c = Catalog::new();
    let known = Config { database_paths: vec!["/data/p.sqlite".to_string()] };
    c.update(Message::InitializationSuccessful(known));
    assert!(matches!(c.screen, Screen::InitializeChoice(_)));
    match c.update(Message::OpenDatabase("/data/p.sqlite".to_string())) {
        Action::OpenDatabase(p) => assert_eq!(p, "/data/p.sqlite"),
        _ => panic!("opening a known path is handed out as an action"),
    }
}

#[test]
fn machine_initialization_failure_shows_error() {
    let mut c = Catalog::new();
    c.update(Message::InitializationFailed("no home directory".to_string()));
    match &c.screen {
        Screen::InitializeError(m) => assert_eq!(m, "no home directory"),
        _ => panic!("a failed initialization shows the error screen"),
    }
}

#[test]
fn machine_create_success_goes_on_to_initialize() {
    let mut disk = Disk::new();
    let h = fresh_handle(&mut disk, "/data/p.sqlite");
    let mut c = Catalog::new();
    match c.update(Message::CreateDatabaseSuccess(h)) {
        Action::InitializeDatabase(_) => {}
        _ => panic!("a created store is initialized next"),
    }
    assert!(matches!(c.screen, Screen::Welcome));
    assert!(c.current_database.is_none(), "the handle is in flight");
}

#[test]
fn machine_create_failure_is_reported() {
    let mut c = Catalog::new();
    match c.update(Message::CreateDatabaseFailure("disk full".to_string())) {
        Action::Report(m) => assert_eq!(m, "disk full"),
        _ => panic!("a lifecycle failure is surfaced"),
    }
}

#[test]
fn machine_add_flow_hands_fields_and_handle_out() {
    let mut disk = Disk::new();
    let h = fresh_handle(&mut disk, "/data/p.sqlite");
    let mut c = Catalog::new();
    c.update(Message::OpenDatabaseSuccess(h));
    c.update(Message::AddPressed);
    c.update(Message::AddRackUpdate("R1".to_string()));
    c.update(Message::AddShelfUpdate("S1".to_string()));
    c.update(Message::AddBasketUpdate("B1".to_string()));
    c.update(Message::AddItemUpdate("Hammer".to_string()));
    match c.update(Message::AddItem) {
        Action::Insert { handle: _, rack, shelf, basket, name } => {
            assert_eq!(rack, "R1");
            assert_eq!(shelf, "S1");
            assert_eq!(basket, "B1");
            assert_eq!(name, "Hammer");
        }
        _ => panic!("the add form hands its fields into the insert"),
    }
    assert!(c.current_database.is_none(), "the handle is in flight");
    match &c.screen {
        Screen::Add { rack_number, item_name, .. } => {
            assert_eq!(rack_number, "");
            assert_eq!(item_name, "");
        }
        _ => panic!("the form is cleared"),
    }
}

#[test]
fn machine_add_without_handle_does_nothing() {
    let mut c = Catalog::new();
    c.update(Message::AddPressed);
    c.update(Message::AddRackUpdate("R1".to_string()));
    assert!(matches!(c.update(Message::AddItem), Action::Idle));
    match &c.screen {
        Screen::Add { rack_number, .. } => assert_eq!(rack_number, "R1"),
        _ => panic!("without a handle the form is kept"),
    }
}

#[test]
fn machine_search_flow_and_result_delivery() {
    let mut disk = Disk::new();
    let h = fresh_handle(&mut disk, "/data/p.sqlite");
    let mut c = Catalog::new();
    c.update(Message::OpenDatabaseSuccess(h));
    c.update(Message::SearchPressed);
    c.update(Message::SearchQueryUpdate("Hammer".to_string()));
    let handle_back = match c.update(Message::SearchQuery) {
        Action::Search { handle, query } => {
            assert_eq!(query, "Hammer");
            handle
        }
        _ => panic!("the search query is handed out with the handle"),
    };
    assert!(c.current_database.is_none(), "the handle is in flight");
    match &c.screen {
        Screen::Search { query, .. } => assert_eq!(query, "Hammer"),
        _ => panic!("the query stays on the screen"),
    }
    c.update(Message::DatabaseSearchSuccess(handle_back, Vec::new()));
    assert!(c.current_database.is_some(), "the outcome returns the handle");
}

#[test]
fn machine_search_without_handle_does_nothing() {
    let mut c = Catalog::new();
    c.update(Message::SearchPressed);
    c.update(Message::SearchQueryUpdate("Hammer".to_string()));
    assert!(matches!(c.update(Message::SearchQuery), Action::Idle));
    match &c.screen {
        Screen::Search { query, .. } => assert_eq!(query, "Hammer"),
        _ => panic!("without a handle the query is kept"),
    }
}

#[test]
fn machine_transaction_outcomes_return_handle() {
    let mut disk = Disk::new();
    let h = fresh_handle(&mut disk, "/data/p.sqlite");
    let mut c = Catalog::new();
    c.update(Message::DatabaseTransactionSuccess(h));
    assert!(c.current_database.is_some());
    let h = c.current_database.take().unwrap();
    match c.update(Message::DatabaseTransactionFailure(h, "constraint failed".to_string())) {
        Action::Report(m) => assert_eq!(m, "constraint failed"),
        _ => panic!("a transaction failure is surfaced"),
    }
    assert!(c.current_database.is_some(), "the failure still returns the handle");
}

#[test]
fn machine_screen_presses() {
    let mut c = Catalog::new();
    c.update(Message::WelcomePressed);
    assert!(matches!(c.screen, Screen::Welcome));
    c.update(Message::SearchPressed);
    assert!(matches!(c.screen, Screen::Search { .. }));
    c.update(Message::AddPressed);
    assert!(matches!(c.screen, Screen::Add { .. }));
    assert!(matches!(c.update(Message::InitializeOpenFilePicker), Action::OpenFilePicker));
}

#[test]
fn machine_search_failure_returns_handle_quietly() {
    let mut disk = Disk::new();
    let h = fresh_handle(&mut disk, "/data/p.sqlite");
    let mut c = Catalog::new();
    c.update(Message::SearchPressed);
    assert!(matches!(c.update(Message::DatabaseSearchFailure(h)), Action::Idle));
    assert!(c.current_database.is_some(), "the empty-result outcome returns the handle");
    match &c.screen {
        Screen::Search { result, .. } => assert!(result.is_empty()),
        _ => panic!("the search screen stays"),
    }
}

#[test]
fn machine_ignores_edits_on_other_screens() {
    let mut c = Catalog::new();
    c.update(Message::WelcomePressed);
    assert!(matches!(c.update(Message::InitializeInputChanged("x".to_string())), Action::Idle));
    assert!(matches!(c.update(Message::AddRackUpdate("R1".to_string())), Action::Idle));
    assert!(matches!(c.update(Message::SearchQueryUpdate("q".to_string())), Action::Idle));
    assert!(matches!(c.update(Message::InitializeSubmit), Action::Idle));
    assert!(matches!(c.screen, Screen::Welcome));
}

#[test]
fn machine_choice_screen_records_further_paths() {
    let mut c = Catalog::new();
    let known = Config { database_paths: vec!["/data/a.sqlite".to_string()] };
    c.update(Message::InitializationSuccessful(known));
    assert!(matches!(c.screen, Screen::InitializeChoice(_)));
    // The choice screen re-uses the same input field; the machine only
    // takes the path over on submit.
    c.update(Message::InitializeSubmit);
    assert_eq!(c.config.database_paths.len(), 1, "an empty input adds nothing");
}

fn perform_model(disk: &mut Disk, action: Action) -> Option<Message> {
    match action {
        Action::Idle => None,
        Action::CloseDatabase(h) => {
            catalog::database::close_database(disk, h);
            Some(Message::ClosedDatabase)
        }
        Action::DumpConfig(_) => Some(Message::DumpedConfig),
        Action::CloseWindow => None,
        Action::OpenFilePicker => None,
        Action::OpenDatabase(p) => Some(match catalog::database::open_database(disk, p) {
            LifecycleOutcome::Opened(h) => Message::OpenDatabaseSuccess(h),
            LifecycleOutcome::ResourceError(m) => Message::CreateDatabaseFailure(m),
        }),
        Action::CreateDatabase(p) => Some(match create_database(disk, p) {
            LifecycleOutcome::Opened(h) => Message::CreateDatabaseSuccess(h),
            LifecycleOutcome::ResourceError(m) => Message::CreateDatabaseFailure(m),
        }),
        Action::InitializeDatabase(h) => Some(match initialize_database(h) {
            TransactionOutcome::Success(h) => Message::DatabaseTransactionSuccess(h),
            TransactionOutcome::Failure(h, m) => Message::DatabaseTransactionFailure(h, m),
        }),
        Action::Insert { handle, rack, shelf, basket, name } => {
            Some(match catalog::database::insert(handle, rack, shelf, basket, name) {
                TransactionOutcome::Success(h) => Message::DatabaseTransactionSuccess(h),
                TransactionOutcome::Failure(h, m) => Message::DatabaseTransactionFailure(h, m),
            })
        }
        Action::Search { handle, query } => {
            Some(match catalog::database::search(handle, query) {
                SearchOutcome::Found(h, infos) => Message::DatabaseSearchSuccess(h, infos),
                SearchOutcome::NotFound(h) => Message::DatabaseSearchFailure(h),
                SearchOutcome::Failure(h, m) => Message::DatabaseTransactionFailure(h, m),
            })
        }
        Action::Report(_) => None,
    }
}

fn drive(c: &mut Catalog, disk: &mut Disk, msg: Message) {
    let mut next = Some(msg);
    while let Some(m) = next {
        let a = c.update(m);
        next = perform_model(disk, a);
    }
}

#[test]
fn machine_full_session_against_model_store() {
    let mut c = Catalog::new();
    let mut disk = Disk::new();
    let empty = Config { database_paths: Vec::new() };
    drive(&mut c, &mut disk, Message::InitializationSuccessful(empty));
    drive(&mut c, &mut disk, Message::InitializeInputChanged("/data/p.sqlite".to_string()));
    drive(&mut c, &mut disk, Message::InitializeSubmit);
    assert_eq!(c.config.database_paths, vec!["/data/p.sqlite".to_string()]);
    drive(&mut c, &mut disk, Message::CreateDatabase("/data/p.sqlite".to_string()));
    assert!(c.current_database.is_some(), "create and initialize both returned the handle");
    assert!(matches!(c.screen, Screen::Welcome));
    drive(&mut c, &mut disk, Message::AddPressed);
    drive(&mut c, &mut disk, Message::AddRackUpdate("R1".to_string()));
    drive(&mut c, &mut disk, Message::AddShelfUpdate("S1".to_string()));
    drive(&mut c, &mut disk, Message::AddBasketUpdate("B1".to_string()));
    drive(&mut c, &mut disk, Message::AddItemUpdate("Hammer".to_string()));
    drive(&mut c, &mut disk, Message::AddItem);
    assert!(c.current_database.is_some(), "the insert outcome returned the handle");
    drive(&mut c, &mut disk, Message::SearchPressed);
    drive(&mut c, &mut disk, Message::SearchQueryUpdate("Hammer".to_string()));
    drive(&mut c, &mut disk, Message::SearchQuery);
    match &c.screen {
        Screen::Search { result, .. } => {
            assert_eq!(result.len(), 1);
            assert_eq!(result[0].item_name, "Hammer");
            assert_eq!(result[0].rack_number, "R1");
            assert_eq!(result[0].shelf_number, "S1");
            assert_eq!(result[0].basket_number, "B1");
        }
        _ => panic!("the matches land on the search screen"),
    }
    drive(&mut c, &mut disk, Message::Shutdown);
    assert!(c.current_database.is_none(), "shutdown closed the store");
}

#[test]
fn toast_new_keeps_its_parts() {
    let t = Toast::new("Submit", "please provide a path".to_string(), Status::Error);
    assert_eq!(t.title, "Submit");
    assert_eq!(t.body, "please provide a path");
    assert!(matches!(t.status, Status::Error));
    let n = Toast::new("Saved", "done".to_string(), Status::Normal);
    assert!(matches!(n.status, Status::Normal));
}
