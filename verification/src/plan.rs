//! The parameterized statements that the store executes, and the fixed
//! plans — ordered statement sequences — behind schema initialization,
//! item insertion and name search.
//!
//! A `Statement` is plain data: its SQL text and its bound parameters
//! are exposed so that a driver can hand the very same plan to a real
//! storage engine, while the verified model in [`crate::store`] gives
//! each statement its meaning.

use vstd::prelude::*;

verus! {

/// One parameterized statement against the store.
///
/// The first five create the schema: the three location tables, the
/// item table, and the secondary index on the item name. The next
/// three insert a location row only if no row with that key exists
/// ("upsert-or-ignore"). `InsertItem` always adds a row, with a
/// store-assigned identifier. `SelectItemsByName` reads all items
/// whose name equals the parameter exactly.
#[derive(Debug)]
pub enum Statement {
    CreateRackTable,
    CreateShelfTable,
    CreateBasketTable,
    CreateItemTable,
    CreateNameIndex,
    InsertRackIfAbsent { rack_id: String },
    InsertShelfIfAbsent { shelf_id: String, rack_id: String },
    InsertBasketIfAbsent { basket_id: String, shelf_id: String },
    InsertItem { rack_id: String, shelf_id: String, basket_id: String, name: String },
    SelectItemsByName { name: String },
}

impl Statement {
    /// The SQL text of this statement, with `$n` parameter markers.
    pub open spec fn sql_spec(self) -> Seq<char> {
        match self {
            Statement::CreateRackTable => "CREATE TABLE Rack (rack_id TEXT NOT NULL, PRIMARY KEY (rack_id))"@,
            Statement::CreateShelfTable => "CREATE TABLE Shelf (shelf_id TEXT NOT NULL, rack_id TEXT, PRIMARY KEY (shelf_id))"@,
            Statement::CreateBasketTable => "CREATE TABLE Basket (basket_id TEXT NOT NULL, shelf_id TEXT, PRIMARY KEY (basket_id))"@,
            Statement::CreateItemTable => "CREATE TABLE Item (item_id INTEGER PRIMARY KEY AUTOINCREMENT, name TEXT NOT NULL, rack_id TEXT NOT NULL, shelf_id TEXT NOT NULL, basket_id TEXT NOT NULL, FOREIGN KEY (rack_id) REFERENCES Rack(rack_id) ON DELETE CASCADE, FOREIGN KEY (shelf_id) REFERENCES Shelf(shelf_id) ON DELETE CASCADE, FOREIGN KEY (basket_id) REFERENCES Basket(basket_id) ON DELETE CASCADE)"@,
            Statement::CreateNameIndex => "CREATE INDEX index_item_name ON Item (name)"@,
            Statement::InsertRackIfAbsent { .. } => "INSERT OR IGNORE INTO Rack (rack_id) VALUES ($1)"@,
            Statement::InsertShelfIfAbsent { .. } => "INSERT OR IGNORE INTO Shelf (shelf_id, rack_id) VALUES ($1, $2)"@,
            Statement::InsertBasketIfAbsent { .. } => "INSERT OR IGNORE INTO Basket (basket_id, shelf_id) VALUES ($1, $2)"@,
            Statement::InsertItem { .. } => "INSERT INTO Item (name, rack_id, shelf_id, basket_id) VALUES ($1, $2, $3, $4)"@,
            Statement::SelectItemsByName { .. } => "SELECT item_id, name, rack_id, shelf_id, basket_id FROM Item INDEXED BY index_item_name WHERE name = $1"@,
        }
    }

    /// The parameters bound to this statement, in marker order.
    pub open spec fn binds_spec(self) -> Seq<String> {
        match self {
            Statement::CreateRackTable => Seq::empty(),
            Statement::CreateShelfTable => Seq::empty(),
            Statement::CreateBasketTable => Seq::empty(),
            Statement::CreateItemTable => Seq::empty(),
            Statement::CreateNameIndex => Seq::empty(),
            Statement::InsertRackIfAbsent { rack_id } => seq![rack_id],
            Statement::InsertShelfIfAbsent { shelf_id, rack_id } => seq![shelf_id, rack_id],
            Statement::InsertBasketIfAbsent { basket_id, shelf_id } => seq![basket_id, shelf_id],
            Statement::InsertItem { rack_id, shelf_id, basket_id, name } => seq![
                name,
                rack_id,
                shelf_id,
                basket_id,
            ],
            Statement::SelectItemsByName { name } => seq![name],
        }
    }

    /// The SQL text of this statement, for a driver to prepare.
    pub fn sql(&self) -> (r: &'static str)
        ensures
            r@ == self.sql_spec(),
    {
        match self {
            Statement::CreateRackTable => "CREATE TABLE Rack (rack_id TEXT NOT NULL, PRIMARY KEY (rack_id))",
            Statement::CreateShelfTable => "CREATE TABLE Shelf (shelf_id TEXT NOT NULL, rack_id TEXT, PRIMARY KEY (shelf_id))",
            Statement::CreateBasketTable => "CREATE TABLE Basket (basket_id TEXT NOT NULL, shelf_id TEXT, PRIMARY KEY (basket_id))",
            Statement::CreateItemTable => "CREATE TABLE Item (item_id INTEGER PRIMARY KEY AUTOINCREMENT, name TEXT NOT NULL, rack_id TEXT NOT NULL, shelf_id TEXT NOT NULL, basket_id TEXT NOT NULL, FOREIGN KEY (rack_id) REFERENCES Rack(rack_id) ON DELETE CASCADE, FOREIGN KEY (shelf_id) REFERENCES Shelf(shelf_id) ON DELETE CASCADE, FOREIGN KEY (basket_id) REFERENCES Basket(basket_id) ON DELETE CASCADE)",
            Statement::CreateNameIndex => "CREATE INDEX index_item_name ON Item (name)",
            Statement::InsertRackIfAbsent { .. } => "INSERT OR IGNORE INTO Rack (rack_id) VALUES ($1)",
            Statement::InsertShelfIfAbsent { .. } => "INSERT OR IGNORE INTO Shelf (shelf_id, rack_id) VALUES ($1, $2)",
            Statement::InsertBasketIfAbsent { .. } => "INSERT OR IGNORE INTO Basket (basket_id, shelf_id) VALUES ($1, $2)",
            Statement::InsertItem { .. } => "INSERT INTO Item (name, rack_id, shelf_id, basket_id) VALUES ($1, $2, $3, $4)",
            Statement::SelectItemsByName { .. } => "SELECT item_id, name, rack_id, shelf_id, basket_id FROM Item INDEXED BY index_item_name WHERE name = $1",
        }
    }

    /// The parameters bound to this statement, in marker order.
    pub fn binds(&self) -> (r: Vec<String>)
        ensures
            r@ == self.binds_spec(),
    {
        let mut r: Vec<String> = Vec::new();
        match self {
            Statement::CreateRackTable => {},
            Statement::CreateShelfTable => {},
            Statement::CreateBasketTable => {},
            Statement::CreateItemTable => {},
            Statement::CreateNameIndex => {},
            Statement::InsertRackIfAbsent { rack_id } => {
                r.push(rack_id.clone());
            },
            Statement::InsertShelfIfAbsent { shelf_id, rack_id } => {
                r.push(shelf_id.clone());
                r.push(rack_id.clone());
            },
            Statement::InsertBasketIfAbsent { basket_id, shelf_id } => {
                r.push(basket_id.clone());
                r.push(shelf_id.clone());
            },
            Statement::InsertItem { rack_id, shelf_id, basket_id, name } => {
                r.push(name.clone());
                r.push(rack_id.clone());
                r.push(shelf_id.clone());
                r.push(basket_id.clone());
            },
            Statement::SelectItemsByName { name } => {
                r.push(name.clone());
            },
        }
        assert(r@ =~= self.binds_spec());
        r
    }
}

/// The schema plan: the five statements that initialize a fresh store,
/// in order.
pub open spec fn schema_plan() -> Seq<Statement> {
    seq![
        Statement::CreateRackTable,
        Statement::CreateShelfTable,
        Statement::CreateBasketTable,
        Statement::CreateItemTable,
        Statement::CreateNameIndex,
    ]
}

/// The insert plan for one item: idempotent creation of the three
/// location rows, then the unconditional item row, in order.
pub open spec fn insert_plan(rack: String, shelf: String, basket: String, name: String) -> Seq<
    Statement,
> {
    seq![
        Statement::InsertRackIfAbsent { rack_id: rack },
        Statement::InsertShelfIfAbsent { shelf_id: shelf, rack_id: rack },
        Statement::InsertBasketIfAbsent { basket_id: basket, shelf_id: shelf },
        Statement::InsertItem { rack_id: rack, shelf_id: shelf, basket_id: basket, name: name },
    ]
}

/// The search plan for one name: a single indexed lookup.
pub open spec fn search_plan(name: String) -> Seq<Statement> {
    seq![Statement::SelectItemsByName { name: name }]
}

/// Builds the schema plan.
pub fn schema_statements() -> (r: Vec<Statement>)
    ensures
        r@ == schema_plan(),
{
    let mut r: Vec<Statement> = Vec::new();
    r.push(Statement::CreateRackTable);
    r.push(Statement::CreateShelfTable);
    r.push(Statement::CreateBasketTable);
    r.push(Statement::CreateItemTable);
    r.push(Statement::CreateNameIndex);
    assert(r@ =~= schema_plan());
    r
}

/// Builds the insert plan for the given location identifiers and item name.
pub fn insert_statements(rack: String, shelf: String, basket: String, name: String) -> (r: Vec<
    Statement,
>)
    ensures
        r@ == insert_plan(rack, shelf, basket, name),
{
    let mut r: Vec<Statement> = Vec::new();
    r.push(Statement::InsertRackIfAbsent { rack_id: rack.clone() });
    r.push(Statement::InsertShelfIfAbsent { shelf_id: shelf.clone(), rack_id: rack.clone() });
    r.push(Statement::InsertBasketIfAbsent { basket_id: basket.clone(), shelf_id: shelf.clone() });
    r.push(Statement::InsertItem { rack_id: rack, shelf_id: shelf, basket_id: basket, name: name });
    assert(r@ =~= insert_plan(rack, shelf, basket, name));
    r
}

/// Builds the search plan for the given name.
pub fn search_statements(name: String) -> (r: Vec<Statement>)
    ensures
        r@ == search_plan(name),
{
    let mut r: Vec<Statement> = Vec::new();
    r.push(Statement::SelectItemsByName { name: name });
    assert(r@ =~= search_plan(name));
    r
}

} // verus!
