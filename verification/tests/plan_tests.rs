//! The statement plans as a driver sees them: the SQL texts and the
//! bound parameters, in order.

use catalog::plan::Statement;
use catalog::plan::insert_statements;
use catalog::plan::schema_statements;
use catalog::plan::search_statements;

#[test]
fn schema_plan_statements_in_order() {
    let plan = schema_statements();
    assert_eq!(plan.len(), 5);
    assert!(plan[0].sql().starts_with("CREATE TABLE Rack "));
    assert!(plan[1].sql().starts_with("CREATE TABLE Shelf "));
    assert!(plan[2].sql().starts_with("CREATE TABLE Basket "));
    assert!(plan[3].sql().starts_with("CREATE TABLE Item "));
    assert_eq!(plan[4].sql(), "CREATE INDEX index_item_name ON Item (name)");
    for stmt in &plan {
        assert!(stmt.binds().is_empty(), "schema statements bind nothing");
    }
}

#[test]
fn insert_plan_statements_and_binds() {
    let plan = insert_statements(
        "R1".to_string(),
        "S1".to_string(),
        "B1".to_string(),
        "Hammer".to_string(),
    );
    assert_eq!(plan.len(), 4);
    assert_eq!(plan[0].sql(), "INSERT OR IGNORE INTO Rack (rack_id) VALUES ($1)");
    assert_eq!(plan[0].binds(), vec!["R1".to_string()]);
    assert_eq!(plan[1].sql(), "INSERT OR IGNORE INTO Shelf (shelf_id, rack_id) VALUES ($1, $2)");
    assert_eq!(plan[1].binds(), vec!["S1".to_string(), "R1".to_string()]);
    assert_eq!(plan[2].sql(), "INSERT OR IGNORE INTO Basket (basket_id, shelf_id) VALUES ($1, $2)");
    assert_eq!(plan[2].binds(), vec!["B1".to_string(), "S1".to_string()]);
    assert_eq!(
        plan[3].sql(),
        "INSERT INTO Item (name, rack_id, shelf_id, basket_id) VALUES ($1, $2, $3, $4)"
    );
    assert_eq!(
        plan[3].binds(),
        vec!["Hammer".to_string(), "R1".to_string(), "S1".to_string(), "B1".to_string()]
    );
}

#[test]
fn search_plan_statement_and_bind() {
    let plan = search_statements("Hammer".to_string());
    assert_eq!(plan.len(), 1);
    assert_eq!(
        plan[0].sql(),
        "SELECT item_id, name, rack_id, shelf_id, basket_id FROM Item INDEXED BY index_item_name WHERE name = $1"
    );
    assert_eq!(plan[0].binds(), vec!["Hammer".to_string()]);
    assert!(matches!(&plan[0], Statement::SelectItemsByName { .. }));
}
