//! The foreground state machine. It owns the one store handle while
//! idle, hands it into exactly one storage operation at a time, and
//! reclaims it from the operation's outcome event.
//!
//! [`Catalog::update`] consumes one [`Message`] and answers with the
//! [`Action`] the surrounding program must perform — run a storage
//! operation, show a message, persist the configuration — while the
//! machine's own state changes as the contract
//! [`update_post`] states, arm by arm. The surrounding program
//! performs the action and feeds the resulting message back in; the
//! machine itself never blocks and never touches the outside world.

use vstd::prelude::*;

use crate::ItemInfo;
use crate::database::Handle;

verus! {

/// The events the state machine consumes: presses and edits from the
/// interface, and the outcome of every storage operation, each
/// outcome carrying the reclaimed store handle where one was out.
#[derive(Debug)]
pub enum Message {
    Shutdown,
    ClosedDatabase,
    DumpedConfig,
    WelcomePressed,
    SearchPressed,
    AddPressed,
    InitializationFailed(String),
    InitializationSuccessful(Config),
    InitializeInputChanged(String),
    InitializeSubmit,
    InitializeOpenFilePicker,
    CreateDatabase(String),
    OpenDatabase(String),
    OpenDatabaseSuccess(Handle),
    CreateDatabaseSuccess(Handle),
    CreateDatabaseFailure(String),
    DatabaseTransactionSuccess(Handle),
    DatabaseTransactionFailure(Handle, String),
    AddRackUpdate(String),
    AddShelfUpdate(String),
    AddBasketUpdate(String),
    AddItemUpdate(String),
    AddItem,
    DatabaseSearchSuccess(Handle, Vec<ItemInfo>),
    DatabaseSearchFailure(Handle),
    SearchQueryUpdate(String),
    SearchQuery,
}

/// What the interface currently shows. The machine keeps the text
/// fields of the add and search forms here, between edits.
#[derive(Debug)]
pub enum Screen {
    Starting,
    InitializeEmpty(String),
    InitializeChoice(String),
    InitializeError(String),
    Welcome,
    Add { rack_number: String, shelf_number: String, basket_number: String, item_name: String },
    Search { query: String, result: Vec<ItemInfo> },
}

/// The persisted configuration: the store paths known so far.
#[derive(Debug)]
pub struct Config {
    pub database_paths: Vec<String>,
}

fn clone_paths(v: &Vec<String>) -> (r: Vec<String>)
    ensures
        r@ == v@,
{
    let mut r: Vec<String> = Vec::new();
    for i in 0..v.len()
        invariant
            r@ =~= v@.take(i as int),
    {
        r.push(v[i].clone());
        assert(r@ =~= v@.take(i + 1));
    }
    assert(r@ =~= v@);
    r
}

impl Clone for Config {
    fn clone(&self) -> (r: Config)
        ensures
            r.database_paths@ == self.database_paths@,
    {
        Config { database_paths: clone_paths(&self.database_paths) }
    }
}

impl Default for Config {
    fn default() -> (r: Config)
        ensures
            r.database_paths@ == Seq::<String>::empty(),
    {
        Config { database_paths: Vec::new() }
    }
}

/// What the surrounding program must perform next, and which message
/// it then owes the machine. A handle inside an action is the one
/// store handle, in flight: the machine holds none until the
/// operation's outcome message brings it back.
#[derive(Debug)]
pub enum Action {
    /// Nothing to perform.
    Idle,
    /// Close the store behind this handle; report `ClosedDatabase`.
    CloseDatabase(Handle),
    /// Persist this configuration; report `DumpedConfig`.
    DumpConfig(Config),
    /// End the program: close the window and stop the loop.
    CloseWindow,
    /// Let the user pick a path; report `InitializeInputChanged` with
    /// it, or `InitializationFailed`.
    OpenFilePicker,
    /// Open the store at this path; report `OpenDatabaseSuccess` or
    /// `CreateDatabaseFailure`.
    OpenDatabase(String),
    /// Create a store at this path; report `CreateDatabaseSuccess` or
    /// `CreateDatabaseFailure`.
    CreateDatabase(String),
    /// Initialize the schema behind this handle; report the
    /// transaction outcome.
    InitializeDatabase(Handle),
    /// Insert one item; report the transaction outcome.
    Insert { handle: Handle, rack: String, shelf: String, basket: String, name: String },
    /// Search items by name; report the search outcome.
    Search { handle: Handle, query: String },
    /// Show this diagnostic message.
    Report(String),
}

/// The foreground state machine: the current screen, the known
/// configuration, and the store handle — present exactly when no
/// operation is in flight.
#[derive(Debug)]
pub struct Catalog {
    pub screen: Screen,
    pub config: Config,
    pub current_database: Option<Handle>,
}

/// Whether this message carries a store handle back to the machine.
pub open spec fn msg_brings_handle(msg: Message) -> bool {
    match msg {
        Message::OpenDatabaseSuccess(_) => true,
        Message::CreateDatabaseSuccess(_) => true,
        Message::DatabaseTransactionSuccess(_) => true,
        Message::DatabaseTransactionFailure(_, _) => true,
        Message::DatabaseSearchSuccess(_, _) => true,
        Message::DatabaseSearchFailure(_) => true,
        _ => false,
    }
}

/// What shutting down does: with the handle held, hand it into a
/// close operation; with none held, hand the configuration out to be
/// persisted.
pub open spec fn shutdown_post(pre: Catalog, post: Catalog, action: Action) -> bool {
    match pre.current_database {
        Some(h) => post.screen == pre.screen && post.config == pre.config
            && post.current_database is None && action == Action::CloseDatabase(h),
        None => post == pre && (action matches Action::DumpConfig(c) && c.database_paths@
            == pre.config.database_paths@),
    }
}

/// The whole behavior of [`Catalog::update`], arm by arm: how each
/// message changes the screen, the configuration and the held handle,
/// and which action it hands out.
pub open spec fn update_post(pre: Catalog, msg: Message, post: Catalog, action: Action) -> bool {
    match msg {
        Message::Shutdown => shutdown_post(pre, post, action),
        Message::ClosedDatabase => shutdown_post(pre, post, action),
        Message::DumpedConfig => post == pre && action == Action::CloseWindow,
        Message::WelcomePressed => post.screen is Welcome && post.config == pre.config
            && post.current_database == pre.current_database && action == Action::Idle,
        Message::AddPressed => (post.screen matches Screen::Add {
            rack_number,
            shelf_number,
            basket_number,
            item_name,
        } && rack_number@.len() == 0 && shelf_number@.len() == 0 && basket_number@.len() == 0
            && item_name@.len() == 0) && post.config == pre.config && post.current_database
            == pre.current_database && action == Action::Idle,
        Message::SearchPressed => (post.screen matches Screen::Search { query, result } && query@
            .len() == 0 && result@.len() == 0) && post.config == pre.config
            && post.current_database == pre.current_database && action == Action::Idle,
        Message::InitializationFailed(m) => (post.screen matches Screen::InitializeError(e) && e
            == m) && post.config == pre.config && post.current_database == pre.current_database
            && action == Action::Idle,
        Message::InitializationSuccessful(config) => post.config == config
            && post.current_database == pre.current_database && action == Action::Idle && (
        if config.database_paths@.len() == 0 {
            post.screen matches Screen::InitializeEmpty(s) && s@.len() == 0
        } else {
            post.screen matches Screen::InitializeChoice(s) && s@.len() == 0
        }),
        Message::InitializeInputChanged(input) => post.config == pre.config
            && post.current_database == pre.current_database && action == Action::Idle && (
        if pre.screen is InitializeEmpty {
            post.screen == Screen::InitializeEmpty(input)
        } else {
            post.screen == pre.screen
        }),
        Message::InitializeSubmit => post.current_database == pre.current_database && (
        match pre.screen {
            Screen::InitializeEmpty(path) => {
                if path@.len() == 0 {
                    post == pre && action == Action::Idle
                } else {
                    post.config.database_paths@ == pre.config.database_paths@.push(path) && (
                    post.screen matches Screen::InitializeChoice(s) && s@.len() == 0) && action
                        == Action::Idle
                }
            },
            Screen::InitializeChoice(path) => {
                if path@.len() == 0 {
                    post == pre && action == Action::Idle
                } else {
                    post.config.database_paths@ == pre.config.database_paths@.push(path) && (
                    post.screen matches Screen::InitializeChoice(s) && s@.len() == 0) && action
                        == Action::Idle
                }
            },
            _ => post == pre && action == Action::Idle,
        }),
        Message::InitializeOpenFilePicker => post == pre && action == Action::OpenFilePicker,
        Message::OpenDatabase(path) => post == pre && action == Action::OpenDatabase(path),
        Message::CreateDatabase(path) => post == pre && action == Action::CreateDatabase(path),
        Message::OpenDatabaseSuccess(h) => post.current_database == Some(h) && post.screen
            == pre.screen && post.config == pre.config && action == Action::Idle,
        Message::CreateDatabaseSuccess(h) => post.screen is Welcome && post.config == pre.config
            && post.current_database == pre.current_database && action
            == Action::InitializeDatabase(h),
        Message::CreateDatabaseFailure(m) => post == pre && action == Action::Report(m),
        Message::DatabaseTransactionSuccess(h) => post.current_database == Some(h) && post.screen
            == pre.screen && post.config == pre.config && action == Action::Idle,
        Message::DatabaseTransactionFailure(h, m) => post.current_database == Some(h)
            && post.screen == pre.screen && post.config == pre.config && action == Action::Report(
            m,
        ),
        Message::AddRackUpdate(value) => post.config == pre.config && post.current_database
            == pre.current_database && action == Action::Idle && (
        match pre.screen {
            Screen::Add { rack_number: _, shelf_number, basket_number, item_name } => post.screen
                == (Screen::Add { rack_number: value, shelf_number, basket_number, item_name }),
            _ => post.screen == pre.screen,
        }),
        Message::AddShelfUpdate(value) => post.config == pre.config && post.current_database
            == pre.current_database && action == Action::Idle && (
        match pre.screen {
            Screen::Add { rack_number, shelf_number: _, basket_number, item_name } => post.screen
                == (Screen::Add { rack_number, shelf_number: value, basket_number, item_name }),
            _ => post.screen == pre.screen,
        }),
        Message::AddBasketUpdate(value) => post.config == pre.config && post.current_database
            == pre.current_database && action == Action::Idle && (
        match pre.screen {
            Screen::Add { rack_number, shelf_number, basket_number: _, item_name } => post.screen
                == (Screen::Add { rack_number, shelf_number, basket_number: value, item_name }),
            _ => post.screen == pre.screen,
        }),
        Message::AddItemUpdate(value) => post.config == pre.config && post.current_database
            == pre.current_database && action == Action::Idle && (
        match pre.screen {
            Screen::Add { rack_number, shelf_number, basket_number, item_name: _ } => post.screen
                == (Screen::Add { rack_number, shelf_number, basket_number, item_name: value }),
            _ => post.screen == pre.screen,
        }),
        Message::AddItem => post.config == pre.config && (
        match pre.screen {
            Screen::Add { rack_number, shelf_number, basket_number, item_name } => {
                match pre.current_database {
                    Some(h) => (post.screen matches Screen::Add {
                        rack_number: r2,
                        shelf_number: s2,
                        basket_number: b2,
                        item_name: i2,
                    } && r2@.len() == 0 && s2@.len() == 0 && b2@.len() == 0 && i2@.len() == 0)
                        && post.current_database is None && action == (Action::Insert {
                        handle: h,
                        rack: rack_number,
                        shelf: shelf_number,
                        basket: basket_number,
                        name: item_name,
                    }),
                    None => post.screen == pre.screen && post.current_database is None && action
                        == Action::Idle,
                }
            },
            _ => post.screen == pre.screen && post.current_database == pre.current_database
                && action == Action::Idle,
        }),
        Message::DatabaseSearchSuccess(h, infos) => post.current_database == Some(h) && post.config
            == pre.config && action == Action::Idle && (
        match pre.screen {
            Screen::Search { query, result: _ } => post.screen == (Screen::Search {
                query,
                result: infos,
            }),
            _ => post.screen == pre.screen,
        }),
        Message::DatabaseSearchFailure(h) => post.current_database == Some(h) && post.screen
            == pre.screen && post.config == pre.config && action == Action::Idle,
        Message::SearchQueryUpdate(value) => post.config == pre.config && post.current_database
            == pre.current_database && action == Action::Idle && (
        match pre.screen {
            Screen::Search { query: _, result } => post.screen == (Screen::Search {
                query: value,
                result,
            }),
            _ => post.screen == pre.screen,
        }),
        Message::SearchQuery => post.config == pre.config && (
        match pre.screen {
            Screen::Search { query, result } => {
                match pre.current_database {
                    Some(h) => post.screen == pre.screen && post.current_database is None && action
                        == (Action::Search { handle: h, query }),
                    None => post.screen == pre.screen && post.current_database is None && action
                        == Action::Idle,
                }
            },
            _ => post.screen == pre.screen && post.current_database == pre.current_database
                && action == Action::Idle,
        }),
    }
}

impl Catalog {
    /// A machine that has not started: no configuration, no handle.
    pub fn new() -> (c: Catalog)
        ensures
            c.screen is Starting,
            c.config.database_paths@ == Seq::<String>::empty(),
            c.current_database is None,
    {
        Catalog { screen: Screen::Starting, config: Config::default(), current_database: None }
    }

    /// The window title.
    pub fn title(&self) -> (t: String)
        ensures
            t@ == "Catalog"@,
    {
        "Catalog".to_string()
    }

    /// Takes the screen out of the machine, leaving `Starting` in its
    /// place for the moment.
    fn take_screen(&mut self) -> (s: Screen)
        ensures
            s == old(self).screen,
            final(self).screen is Starting,
            final(self).config == old(self).config,
            final(self).current_database == old(self).current_database,
    {
        let mut tmp = Screen::Starting;
        core::mem::swap(&mut self.screen, &mut tmp);
        tmp
    }

    /// Consumes one message and answers with the next action, changing
    /// the machine as [`update_post`] states.
    ///
    /// The handle moves, never copies: an arm that starts an operation
    /// takes the handle out of the machine and into the action, and an
    /// arm that consumes an outcome puts the carried handle back. So
    /// at most one operation is ever in flight, and across every arm
    /// the one handle is neither lost nor doubled
    /// ([`lemma_update_conserves_handles`]).
    pub fn update(&mut self, msg: Message) -> (action: Action)
        requires
            msg_brings_handle(msg) ==> old(self).current_database is None,
        ensures
            update_post(*old(self), msg, *final(self), action),
    {
        match msg {
            Message::Shutdown => {
                match self.current_database.take() {
                    Some(h) => Action::CloseDatabase(h),
                    None => Action::DumpConfig(self.config.clone()),
                }
            },
            Message::ClosedDatabase => {
                match self.current_database.take() {
                    Some(h) => Action::CloseDatabase(h),
                    None => Action::DumpConfig(self.config.clone()),
                }
            },
            Message::DumpedConfig => Action::CloseWindow,
            Message::WelcomePressed => {
                self.screen = Screen::Welcome;
                Action::Idle
            },
            Message::AddPressed => {
                self.screen = Screen::Add {
                    rack_number: String::new(),
                    shelf_number: String::new(),
                    basket_number: String::new(),
                    item_name: String::new(),
                };
                Action::Idle
            },
            Message::SearchPressed => {
                self.screen = Screen::Search { query: String::new(), result: Vec::new() };
                Action::Idle
            },
            Message::InitializationFailed(m) => {
                self.screen = Screen::InitializeError(m);
                Action::Idle
            },
            Message::InitializationSuccessful(config) => {
                self.config = config;
                if self.config.database_paths.len() == 0 {
                    self.screen = Screen::InitializeEmpty(String::new());
                } else {
                    self.screen = Screen::InitializeChoice(String::new());
                }
                Action::Idle
            },
            Message::InitializeInputChanged(input) => {
                let s = self.take_screen();
                match s {
                    Screen::InitializeEmpty(_) => {
                        self.screen = Screen::InitializeEmpty(input);
                    },
                    other => {
                        self.screen = other;
                    },
                }
                Action::Idle
            },
            Message::InitializeSubmit => {
                let s = self.take_screen();
                match s {
                    Screen::InitializeEmpty(path) => {
                        if path.as_str().is_empty() {
                            self.screen = Screen::InitializeEmpty(path);
                        } else {
                            self.config.database_paths.push(path);
                            self.screen = Screen::InitializeChoice(String::new());
                        }
                    },
                    Screen::InitializeChoice(path) => {
                        if path.as_str().is_empty() {
                            self.screen = Screen::InitializeChoice(path);
                        } else {
                            self.config.database_paths.push(path);
                            self.screen = Screen::InitializeChoice(String::new());
                        }
                    },
                    other => {
                        self.screen = other;
                    },
                }
                Action::Idle
            },
            Message::InitializeOpenFilePicker => Action::OpenFilePicker,
            Message::OpenDatabase(path) => Action::OpenDatabase(path),
            Message::CreateDatabase(path) => Action::CreateDatabase(path),
            Message::OpenDatabaseSuccess(h) => {
                self.current_database = Some(h);
                Action::Idle
            },
            Message::CreateDatabaseSuccess(h) => {
                self.screen = Screen::Welcome;
                Action::InitializeDatabase(h)
            },
            Message::CreateDatabaseFailure(m) => Action::Report(m),
            Message::DatabaseTransactionSuccess(h) => {
                self.current_database = Some(h);
                Action::Idle
            },
            Message::DatabaseTransactionFailure(h, m) => {
                self.current_database = Some(h);
                Action::Report(m)
            },
            Message::AddRackUpdate(value) => {
                let s = self.take_screen();
                match s {
                    Screen::Add { rack_number: _, shelf_number, basket_number, item_name } => {
                        self.screen = Screen::Add {
                            rack_number: value,
                            shelf_number,
                            basket_number,
                            item_name,
                        };
                    },
                    other => {
                        self.screen = other;
                    },
                }
                Action::Idle
            },
            Message::AddShelfUpdate(value) => {
                let s = self.take_screen();
                match s {
                    Screen::Add { rack_number, shelf_number: _, basket_number, item_name } => {
                        self.screen = Screen::Add {
                            rack_number,
                            shelf_number: value,
                            basket_number,
                            item_name,
                        };
                    },
                    other => {
                        self.screen = other;
                    },
                }
                Action::Idle
            },
            Message::AddBasketUpdate(value) => {
                let s = self.take_screen();
                match s {
                    Screen::Add { rack_number, shelf_number, basket_number: _, item_name } => {
                        self.screen = Screen::Add {
                            rack_number,
                            shelf_number,
                            basket_number: value,
                            item_name,
                        };
                    },
                    other => {
                        self.screen = other;
                    },
                }
                Action::Idle
            },
            Message::AddItemUpdate(value) => {
                let s = self.take_screen();
                match s {
                    Screen::Add { rack_number, shelf_number, basket_number, item_name: _ } => {
                        self.screen = Screen::Add {
                            rack_number,
                            shelf_number,
                            basket_number,
                            item_name: value,
                        };
                    },
                    other => {
                        self.screen = other;
                    },
                }
                Action::Idle
            },
            Message::AddItem => {
                let s = self.take_screen();
                match s {
                    Screen::Add { rack_number, shelf_number, basket_number, item_name } => {
                        match self.current_database.take() {
                            Some(handle) => {
                                self.screen = Screen::Add {
                                    rack_number: String::new(),
                                    shelf_number: String::new(),
                                    basket_number: String::new(),
                                    item_name: String::new(),
                                };
                                Action::Insert {
                                    handle,
                                    rack: rack_number,
                                    shelf: shelf_number,
                                    basket: basket_number,
                                    name: item_name,
                                }
                            },
                            None => {
                                self.screen = Screen::Add {
                                    rack_number,
                                    shelf_number,
                                    basket_number,
                                    item_name,
                                };
                                Action::Idle
                            },
                        }
                    },
                    other => {
                        self.screen = other;
                        Action::Idle
                    },
                }
            },
            Message::DatabaseSearchSuccess(h, infos) => {
                self.current_database = Some(h);
                let s = self.take_screen();
                match s {
                    Screen::Search { query, result: _ } => {
                        self.screen = Screen::Search { query, result: infos };
                    },
                    other => {
                        self.screen = other;
                    },
                }
                Action::Idle
            },
            Message::DatabaseSearchFailure(h) => {
                self.current_database = Some(h);
                Action::Idle
            },
            Message::SearchQueryUpdate(value) => {
                let s = self.take_screen();
                match s {
                    Screen::Search { query: _, result } => {
                        self.screen = Screen::Search { query: value, result };
                    },
                    other => {
                        self.screen = other;
                    },
                }
                Action::Idle
            },
            Message::SearchQuery => {
                let s = self.take_screen();
                match s {
                    Screen::Search { query, result } => {
                        match self.current_database.take() {
                            Some(handle) => {
                                let q = query.clone();
                                self.screen = Screen::Search { query, result };
                                Action::Search { handle, query: q }
                            },
                            None => {
                                self.screen = Screen::Search { query, result };
                                Action::Idle
                            },
                        }
                    },
                    other => {
                        self.screen = other;
                        Action::Idle
                    },
                }
            },
        }
    }
}

impl Default for Catalog {
    fn default() -> (c: Catalog)
        ensures
            c.screen is Starting,
            c.config.database_paths@ == Seq::<String>::empty(),
            c.current_database is None,
    {
        Catalog::new()
    }
}

/// How many handles a message carries into the machine.
pub open spec fn msg_handles(msg: Message) -> int {
    if msg_brings_handle(msg) {
        1
    } else {
        0
    }
}

/// How many handles an action carries out of the machine.
pub open spec fn action_handles(action: Action) -> int {
    match action {
        Action::CloseDatabase(_) => 1,
        Action::InitializeDatabase(_) => 1,
        Action::Insert { .. } => 1,
        Action::Search { .. } => 1,
        _ => 0,
    }
}

/// How many handles the machine holds.
pub open spec fn held_handles(c: Catalog) -> int {
    if c.current_database is Some {
        1
    } else {
        0
    }
}

/// Handle conservation across the state machine: on every arm, on
/// success and failure paths alike, what the machine holds afterwards
/// plus what the action carries out equals what it held before plus
/// what the message brought in — the one handle is never lost and
/// never doubled.
pub proof fn lemma_update_conserves_handles(
    pre: Catalog,
    msg: Message,
    post: Catalog,
    action: Action,
)
    requires
        update_post(pre, msg, post, action),
        msg_brings_handle(msg) ==> pre.current_database is None,
    ensures
        held_handles(post) + action_handles(action) == held_handles(pre) + msg_handles(msg),
{
}

} // verus!
