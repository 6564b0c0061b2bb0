use nutrition_tracker::amount::Amount;
use nutrition_tracker::catalog::catalog;
use nutrition_tracker::food::Food;
use nutrition_tracker::nutrients::{ApiFood, Nutrient, NutrientMap};
use nutrition_tracker::record::{Field, Listing};
use nutrition_tracker::sql::{Statement, Table, Yield};
use nutrition_tracker::store::{
    add_entry_food, add_food_items, add_food_items_next, add_recipe_ingredient, create_database,
    enforce_foreign_keys, find_food_id, find_recipe_id, found, insert_entry, insert_food,
    insert_pantry_item, insert_recipe, list_foods, listed, made, written, Bound, PantryItem,
    Reply, Request, StoreError,
};
use rusqlite::types::{Value, ValueRef};
use rusqlite::{params_from_iter, Connection};

fn amount(value: f32) -> Amount {
    Amount::from_bits(value.to_bits())
}

fn bind(values: Vec<Bound>) -> Vec<Value> {
    values
        .into_iter()
        .map(|value| match value {
            Bound::Null => Value::Null,
            Bound::Id(id) => Value::Integer(id),
            Bound::Number(amount) => Value::Real(f32::from_bits(amount.to_bits()) as f64),
            Bound::Text(text) => Value::Text(text),
            Bound::Blob => Value::Blob(Vec::new()),
        })
        .collect()
}

fn open() -> Connection {
    let conn = Connection::open_in_memory().unwrap();
    assert_eq!(made(&send(&conn, &enforce_foreign_keys())), Ok(()));
    ensure_schema(&conn);
    conn
}

fn ensure_schema(conn: &Connection) {
    for request in create_database() {
        assert_eq!(made(&send(conn, &request)), Ok(()));
    }
}

fn refused(error: rusqlite::Error) -> Reply {
    match error {
        rusqlite::Error::SqliteFailure(failure, _) => {
            Reply::Refused { code: failure.extended_code }
        }
        _ => Reply::Refused { code: 1 },
    }
}

fn field(value: ValueRef<'_>) -> Field {
    match value {
        ValueRef::Null => Field::Null,
        ValueRef::Integer(i) => Field::Number(amount(i as f32)),
        ValueRef::Real(f) => Field::Number(amount(f as f32)),
        ValueRef::Text(text) => match std::str::from_utf8(text) {
            Ok(text) => Field::Text(text.to_string()),
            Err(_) => Field::Blob,
        },
        ValueRef::Blob(_) => Field::Blob,
    }
}

fn read_rows(conn: &Connection, sql: &str) -> Result<Vec<Vec<Field>>, rusqlite::Error> {
    let mut statement = conn.prepare(sql)?;
    let width = statement.column_count();
    let mut rows = statement.query([])?;
    let mut read = Vec::new();
    while let Some(row) = rows.next()? {
        let mut fields = Vec::new();
        for i in 0..width {
            fields.push(field(row.get_ref(i)?));
        }
        read.push(fields);
    }
    Ok(read)
}

fn send(conn: &Connection, request: &Request) -> Reply {
    let statement = request.statement();
    let sql = statement.sql();
    let values = bind(request.values());
    assert_eq!(values.len(), statement.parameter_count());
    match statement.yields() {
        Yield::Nothing => match conn.execute(&sql, params_from_iter(values)) {
            Ok(_) => Reply::Done,
            Err(error) => refused(error),
        },
        Yield::RowId => match conn.execute(&sql, params_from_iter(values)) {
            Ok(_) => Reply::Written { row_id: conn.last_insert_rowid() },
            Err(error) => refused(error),
        },
        Yield::Id => {
            match conn.query_row(&sql, params_from_iter(values), |row| row.get::<_, i64>(0)) {
                Ok(id) => Reply::Found { id: Some(id) },
                Err(rusqlite::Error::QueryReturnedNoRows) => Reply::Found { id: None },
                Err(error) => refused(error),
            }
        }
        Yield::Rows => match read_rows(conn, &sql) {
            Ok(rows) => Reply::Listed { rows },
            Err(error) => refused(error),
        },
    }
}

fn write(conn: &Connection, request: Request) -> Result<i64, StoreError> {
    written(request.statement(), &send(conn, &request))
}

fn find(conn: &Connection, request: Request) -> Option<i64> {
    found(&send(conn, &request)).unwrap()
}

fn listing(conn: &Connection) -> Listing {
    listed(&send(conn, &list_foods())).unwrap()
}

fn count(conn: &Connection, table: &str) -> i64 {
    conn.query_row(&format!("SELECT COUNT(*) FROM {}", table), [], |row| row.get(0)).unwrap()
}

fn apple() -> Food {
    let mut nutrients = NutrientMap::new();
    nutrients.insert("energy", amount(94.0));
    nutrients.insert("carbohydrates", amount(25.0));
    Food::new("Apple", amount(182.0), nutrients)
}

#[test]
fn schema_can_be_ensured_twice() {
    let conn = Connection::open_in_memory().unwrap();
    ensure_schema(&conn);
    ensure_schema(&conn);
    let tables: i64 = conn
        .query_row(
            "SELECT COUNT(*) FROM sqlite_master WHERE type = 'table' AND name NOT LIKE 'sqlite_%'",
            [],
            |row| row.get(0),
        )
        .unwrap();
    assert_eq!(tables, 6);
    let columns: i64 = conn
        .query_row("SELECT COUNT(*) FROM pragma_table_info('food_items')", [], |row| row.get(0))
        .unwrap();
    assert_eq!(columns, 102);
}

#[test]
fn schema_keeps_what_is_stored_when_ensured_again() {
    let conn = open();
    write(&conn, insert_food(&apple())).unwrap();
    ensure_schema(&conn);
    assert_eq!(count(&conn, "food_items"), 1);
}

#[test]
fn food_table_columns_are_the_catalog_in_order() {
    let conn = open();
    let mut statement = conn.prepare("SELECT name FROM pragma_table_info('food_items')").unwrap();
    let columns: Vec<String> =
        statement.query_map([], |row| row.get(0)).unwrap().map(|name| name.unwrap()).collect();
    assert_eq!(&columns[..3], ["id", "name", "weight_grams"]);
    assert_eq!(columns[3..], catalog());
}

#[test]
fn second_food_of_the_same_name_is_a_duplicate() {
    let conn = open();
    assert!(write(&conn, insert_food(&apple())).is_ok());
    let mut other = NutrientMap::new();
    other.insert("water", amount(150.0));
    let again = Food::new("Apple", amount(100.0), other);
    assert_eq!(write(&conn, insert_food(&again)), Err(StoreError::DuplicateName));
    assert_eq!(count(&conn, "food_items"), 1);
    let listing = listing(&conn);
    assert_eq!(listing.foods.len(), 1);
    assert_eq!(listing.foods[0].weight_grams, amount(182.0));
}

#[test]
fn stored_food_is_listed_dense() {
    let conn = open();
    write(&conn, insert_food(&apple())).unwrap();
    let listing = listing(&conn);
    assert!(listing.rejected.is_empty());
    assert_eq!(listing.foods.len(), 1);
    let food = &listing.foods[0];
    assert_eq!(food.name, "Apple");
    assert_eq!(f32::from_bits(food.weight_grams.to_bits()), 182.0);
    assert_eq!(food.nutrients.len(), 99);
    for name in catalog() {
        let expected = match name {
            "energy" => 94.0,
            "carbohydrates" => 25.0,
            _ => 0.0,
        };
        let stored = food.nutrients.get(name).unwrap();
        assert_eq!(f32::from_bits(stored.to_bits()), expected, "{}", name);
    }
}

#[test]
fn empty_store_lists_no_foods() {
    let conn = open();
    let listing = listing(&conn);
    assert!(listing.foods.is_empty());
    assert!(listing.rejected.is_empty());
}

#[test]
fn foods_are_listed_in_the_order_stored() {
    let conn = open();
    let first = write(&conn, insert_food(&apple())).unwrap();
    let second =
        write(&conn, insert_food(&Food::new("Pear", amount(170.0), NutrientMap::new()))).unwrap();
    assert_ne!(first, second);
    let listing = listing(&conn);
    let names: Vec<&str> = listing.foods.iter().map(|food| food.name.as_str()).collect();
    assert_eq!(names, ["Apple", "Pear"]);
}

#[test]
fn food_is_found_by_its_exact_name_only() {
    let conn = open();
    let id = write(&conn, insert_food(&apple())).unwrap();
    assert_eq!(find(&conn, find_food_id("Apple")), Some(id));
    assert_eq!(find(&conn, find_food_id("apple")), None);
    assert_eq!(find(&conn, find_food_id("Apple ")), None);
    assert_eq!(find(&conn, find_food_id("")), None);
}

#[test]
fn candidates_are_stored_as_foods() {
    let conn = open();
    let candidates = vec![
        ApiFood {
            food_name: "apple".to_string(),
            serving_weight_grams: amount(182.0),
            full_nutrients: vec![
                Nutrient { attr_id: 208, value: amount(94.64) },
                Nutrient { attr_id: 1003, value: amount(0.3) },
            ],
        },
        ApiFood {
            food_name: "pear".to_string(),
            serving_weight_grams: amount(178.0),
            full_nutrients: vec![Nutrient { attr_id: 203, value: amount(0.64) }],
        },
    ];
    for request in add_food_items(&candidates) {
        write(&conn, request).unwrap();
    }
    let listing = listing(&conn);
    assert_eq!(listing.foods.len(), 2);
    assert_eq!(listing.foods[0].name, "apple");
    assert_eq!(listing.foods[0].nutrients.get("energy"), Some(amount(94.64)));
    assert_eq!(listing.foods[0].nutrients.get("protein"), Some(Amount::zero()));
    assert_eq!(listing.foods[1].name, "pear");
    assert_eq!(listing.foods[1].weight_grams, amount(178.0));
    assert_eq!(listing.foods[1].nutrients.get("protein"), Some(amount(0.64)));
}

fn candidate(name: &str) -> ApiFood {
    ApiFood {
        food_name: name.to_string(),
        serving_weight_grams: amount(100.0),
        full_nutrients: vec![Nutrient { attr_id: 208, value: amount(52.0) }],
    }
}

fn store_all(conn: &Connection, candidates: &Vec<ApiFood>) -> Result<(), StoreError> {
    let requests = add_food_items(candidates);
    let total = requests.len();
    let mut sent = 0;
    while sent < total {
        let reply = send(conn, &requests[sent]);
        if !add_food_items_next(sent, total, &reply)? {
            break;
        }
        sent += 1;
    }
    Ok(())
}

#[test]
fn candidates_are_stored_up_to_the_first_that_is_refused() {
    let conn = open();
    write(&conn, insert_food(&apple())).unwrap();
    let candidates =
        vec![candidate("pear"), candidate("plum"), candidate("Apple"), candidate("fig")];
    assert_eq!(store_all(&conn, &candidates), Err(StoreError::DuplicateName));
    let listing = listing(&conn);
    let names: Vec<&str> = listing.foods.iter().map(|food| food.name.as_str()).collect();
    assert_eq!(names, ["Apple", "pear", "plum"]);
    assert_eq!(listing.foods[0].weight_grams, amount(182.0));
}

#[test]
fn candidates_are_stored_up_to_the_first_that_repeats_an_earlier_one() {
    let conn = open();
    let candidates = vec![candidate("pear"), candidate("pear"), candidate("fig")];
    assert_eq!(store_all(&conn, &candidates), Err(StoreError::DuplicateName));
    assert_eq!(count(&conn, "food_items"), 1);
    assert_eq!(store_all(&conn, &vec![candidate("fig"), candidate("plum")]), Ok(()));
    assert_eq!(count(&conn, "food_items"), 3);
    assert_eq!(store_all(&conn, &Vec::new()), Ok(()));
}

#[test]
fn run_of_candidates_goes_on_while_rows_are_written() {
    let row = Reply::Written { row_id: 1 };
    assert_eq!(add_food_items_next(0, 3, &row), Ok(true));
    assert_eq!(add_food_items_next(1, 3, &row), Ok(true));
    assert_eq!(add_food_items_next(2, 3, &row), Ok(false));
    assert_eq!(add_food_items_next(0, 1, &row), Ok(false));
    let refused = Reply::Refused { code: 2067 };
    assert_eq!(add_food_items_next(0, 3, &refused), Err(StoreError::DuplicateName));
    assert_eq!(add_food_items_next(2, 3, &refused), Err(StoreError::DuplicateName));
    assert_eq!(add_food_items_next(1, 3, &Reply::Unavailable), Err(StoreError::StorageUnavailable));
    assert_eq!(
        add_food_items_next(1, 3, &Reply::Refused { code: 1 }),
        Err(StoreError::StorageError)
    );
    assert_eq!(add_food_items_next(1, 3, &Reply::Done), Err(StoreError::StorageError));
}

#[test]
fn pantry_item_starts_with_all_of_it_remaining() {
    let conn = open();
    let food_id = write(&conn, insert_food(&apple())).unwrap();
    let item_id = write(&conn, insert_pantry_item(food_id, amount(200.0))).unwrap();
    let (stored_food, weight, remaining): (i64, f64, f64) = conn
        .query_row(
            "SELECT food_id, weight_grams, weight_grams_remaining FROM pantry WHERE id = ?1",
            [item_id],
            |row| Ok((row.get(0)?, row.get(1)?, row.get(2)?)),
        )
        .unwrap();
    assert_eq!(stored_food, food_id);
    assert_eq!(weight, 200.0);
    assert_eq!(remaining, 200.0);
}

#[test]
fn pantry_item_is_stored_as_it_is() {
    let conn = open();
    let food_id = write(&conn, insert_food(&apple())).unwrap();
    let item = PantryItem {
        food_id,
        weight_grams: amount(200.0),
        weight_grams_remaining: amount(120.0),
    };
    let item_id = write(&conn, Request::InsertPantryItem { item }).unwrap();
    let (weight, remaining): (f64, f64) = conn
        .query_row(
            "SELECT weight_grams, weight_grams_remaining FROM pantry WHERE id = ?1",
            [item_id],
            |row| Ok((row.get(0)?, row.get(1)?)),
        )
        .unwrap();
    assert_eq!((weight, remaining), (200.0, 120.0));
}

#[test]
fn foreign_keys_are_enforced_once_asked_for() {
    let conn = Connection::open_in_memory().unwrap();
    conn.execute("PRAGMA foreign_keys = OFF", []).unwrap();
    ensure_schema(&conn);
    assert!(write(&conn, insert_pantry_item(4711, amount(1.0))).is_ok());
    assert_eq!(made(&send(&conn, &enforce_foreign_keys())), Ok(()));
    let enforced: i64 = conn.query_row("PRAGMA foreign_keys", [], |row| row.get(0)).unwrap();
    assert_eq!(enforced, 1);
    assert_eq!(
        write(&conn, insert_pantry_item(4712, amount(1.0))),
        Err(StoreError::ForeignKeyViolation)
    );
}

#[test]
fn pantry_item_of_an_unknown_food_violates_the_foreign_key() {
    let conn = open();
    assert_eq!(
        write(&conn, insert_pantry_item(4711, amount(200.0))),
        Err(StoreError::ForeignKeyViolation)
    );
    assert_eq!(count(&conn, "pantry"), 0);
}

#[test]
fn second_recipe_of_the_same_name_is_a_duplicate() {
    let conn = open();
    let id = write(&conn, insert_recipe("Salad")).unwrap();
    assert_eq!(find(&conn, find_recipe_id("Salad")), Some(id));
    assert_eq!(find(&conn, find_recipe_id("Soup")), None);
    assert_eq!(write(&conn, insert_recipe("Salad")), Err(StoreError::DuplicateName));
    assert_eq!(count(&conn, "recipes"), 1);
}

#[test]
fn second_ingredient_of_the_same_food_is_a_duplicate() {
    let conn = open();
    let food_id = write(&conn, insert_food(&apple())).unwrap();
    let recipe_id = write(&conn, insert_recipe("Salad")).unwrap();
    assert!(write(&conn, add_recipe_ingredient(recipe_id, food_id, amount(50.0))).is_ok());
    assert_eq!(
        write(&conn, add_recipe_ingredient(recipe_id, food_id, amount(75.0))),
        Err(StoreError::DuplicateIngredient)
    );
    assert_eq!(count(&conn, "recipe_ingredients"), 1);
    let weight: f64 = conn
        .query_row("SELECT weight_grams FROM recipe_ingredients", [], |row| row.get(0))
        .unwrap();
    assert_eq!(weight, 50.0);
}

#[test]
fn same_food_may_be_an_ingredient_of_two_recipes() {
    let conn = open();
    let food_id = write(&conn, insert_food(&apple())).unwrap();
    let salad = write(&conn, insert_recipe("Salad")).unwrap();
    let pie = write(&conn, insert_recipe("Pie")).unwrap();
    assert!(write(&conn, add_recipe_ingredient(salad, food_id, amount(50.0))).is_ok());
    assert!(write(&conn, add_recipe_ingredient(pie, food_id, amount(300.0))).is_ok());
    assert_eq!(count(&conn, "recipe_ingredients"), 2);
}

#[test]
fn ingredient_of_an_unknown_food_violates_the_foreign_key() {
    let conn = open();
    let recipe_id = write(&conn, insert_recipe("Salad")).unwrap();
    assert_eq!(
        write(&conn, add_recipe_ingredient(recipe_id, 99, amount(50.0))),
        Err(StoreError::ForeignKeyViolation)
    );
}

#[test]
fn entry_takes_each_food_once() {
    let conn = open();
    let food_id = write(&conn, insert_food(&apple())).unwrap();
    let entry_id = write(&conn, insert_entry("03-09-24 18:30:00")).unwrap();
    let other = write(&conn, insert_entry("03-09-24 18:30:00")).unwrap();
    assert_ne!(entry_id, other);
    assert!(write(&conn, add_entry_food(entry_id, food_id, amount(182.0))).is_ok());
    assert_eq!(
        write(&conn, add_entry_food(entry_id, food_id, amount(91.0))),
        Err(StoreError::DuplicateIngredient)
    );
    assert!(write(&conn, add_entry_food(other, food_id, amount(91.0))).is_ok());
    assert_eq!(
        write(&conn, add_entry_food(entry_id + 100, food_id, amount(91.0))),
        Err(StoreError::ForeignKeyViolation)
    );
    let stamp: String =
        conn.query_row("SELECT timestamp FROM entries WHERE id = ?1", [entry_id], |row| row.get(0))
            .unwrap();
    assert_eq!(stamp, "03-09-24 18:30:00");
}

#[test]
fn row_that_is_no_record_is_set_aside() {
    let conn = open();
    write(&conn, insert_food(&apple())).unwrap();
    conn.execute("DROP TABLE food_items", []).unwrap();
    conn.execute("CREATE TABLE food_items (name, weight_grams)", []).unwrap();
    conn.execute("INSERT INTO food_items VALUES ('Apple', 182.0)", []).unwrap();
    let rows = read_rows(&conn, "SELECT name, weight_grams FROM food_items").unwrap();
    let listing = listed(&Reply::Listed { rows }).unwrap();
    assert!(listing.foods.is_empty());
    assert_eq!(listing.rejected.len(), 1);
}

#[test]
fn statement_against_a_missing_table_is_a_storage_error() {
    let conn = Connection::open_in_memory().unwrap();
    assert_eq!(write(&conn, insert_recipe("Salad")), Err(StoreError::StorageError));
    assert_eq!(found(&send(&conn, &find_food_id("Apple"))), Err(StoreError::StorageError));
    assert_eq!(listed(&send(&conn, &list_foods())).err(), Some(StoreError::StorageError));
}

#[test]
fn requests_bind_their_values_in_the_order_of_the_placeholders() {
    let item = PantryItem::new(3, amount(200.0));
    assert_eq!(
        Request::InsertPantryItem { item }.values(),
        [Bound::Id(3), Bound::Number(amount(200.0)), Bound::Number(amount(200.0))]
    );
    assert_eq!(
        add_recipe_ingredient(5, 3, amount(50.0)).values(),
        [Bound::Id(5), Bound::Id(3), Bound::Number(amount(50.0))]
    );
    assert_eq!(
        add_entry_food(8, 3, amount(182.0)).values(),
        [Bound::Id(8), Bound::Id(3), Bound::Number(amount(182.0))]
    );
    assert_eq!(find_food_id("Apple").values(), [Bound::Text("Apple".to_string())]);
    assert_eq!(find_recipe_id("Salad").values(), [Bound::Text("Salad".to_string())]);
    assert_eq!(insert_recipe("Salad").values(), [Bound::Text("Salad".to_string())]);
    assert_eq!(
        insert_entry("03-09-24 18:30:00").values(),
        [Bound::Text("03-09-24 18:30:00".to_string())]
    );
    assert!(list_foods().values().is_empty());
    let values = insert_food(&apple()).values();
    assert_eq!(values.len(), 101);
    assert_eq!(values[0], Bound::Text("Apple".to_string()));
    assert_eq!(values[1], Bound::Number(amount(182.0)));
    assert_eq!(values[3], Bound::Number(amount(25.0)));
    assert_eq!(values[5], Bound::Number(amount(94.0)));
    assert_eq!(values[100], Bound::Number(Amount::zero()));
    let odd = Request::InsertFood { record: vec![Field::Null, Field::Blob] };
    assert_eq!(odd.values(), [Bound::Null, Bound::Blob]);
}

#[test]
fn replies_are_read_by_what_the_statement_was() {
    let unique = Reply::Refused { code: 2067 };
    assert_eq!(written(Statement::InsertFood, &unique), Err(StoreError::DuplicateName));
    assert_eq!(written(Statement::InsertRecipe, &unique), Err(StoreError::DuplicateName));
    assert_eq!(
        written(Statement::AddRecipeIngredient, &unique),
        Err(StoreError::DuplicateIngredient)
    );
    assert_eq!(written(Statement::AddEntryFood, &unique), Err(StoreError::DuplicateIngredient));
    assert_eq!(written(Statement::InsertPantryItem, &unique), Err(StoreError::StorageError));
    let foreign = Reply::Refused { code: 787 };
    assert_eq!(
        written(Statement::InsertPantryItem, &foreign),
        Err(StoreError::ForeignKeyViolation)
    );
    assert_eq!(written(Statement::InsertFood, &foreign), Err(StoreError::ForeignKeyViolation));
    assert_eq!(
        written(Statement::InsertFood, &Reply::Refused { code: 1299 }),
        Err(StoreError::StorageError)
    );
    assert_eq!(
        written(Statement::InsertFood, &Reply::Unavailable),
        Err(StoreError::StorageUnavailable)
    );
    assert_eq!(written(Statement::InsertFood, &Reply::Written { row_id: 7 }), Ok(7));
    assert_eq!(
        written(Statement::InsertFood, &Reply::Found { id: Some(7) }),
        Err(StoreError::StorageError)
    );
    assert_eq!(found(&Reply::Found { id: Some(7) }), Ok(Some(7)));
    assert_eq!(found(&Reply::Found { id: None }), Ok(None));
    assert_eq!(found(&Reply::Unavailable), Err(StoreError::StorageUnavailable));
    assert_eq!(found(&Reply::Written { row_id: 7 }), Err(StoreError::StorageError));
    assert_eq!(listed(&Reply::Unavailable).err(), Some(StoreError::StorageUnavailable));
    assert_eq!(listed(&Reply::Refused { code: 1 }).err(), Some(StoreError::StorageError));
    assert!(listed(&Reply::Listed { rows: Vec::new() }).unwrap().foods.is_empty());
    assert_eq!(made(&Reply::Done), Ok(()));
    assert_eq!(made(&Reply::Unavailable), Err(StoreError::StorageUnavailable));
    assert_eq!(made(&Reply::Refused { code: 1 }), Err(StoreError::StorageError));
    assert_eq!(made(&Reply::Written { row_id: 1 }), Err(StoreError::StorageError));
    assert_eq!(written(Statement::InsertFood, &Reply::Done), Err(StoreError::StorageError));
    assert_eq!(
        written(Statement::Create(Table::Recipes), &Reply::Refused { code: 2067 }),
        Err(StoreError::StorageError)
    );
}
