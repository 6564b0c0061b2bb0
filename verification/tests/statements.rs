use nutrition_tracker::catalog::catalog;
use nutrition_tracker::sql::{tables, Statement, Table, Yield};
use nutrition_tracker::store::{create_database, Request};

const ALL: [Statement; 16] = [
    Statement::EnforceForeignKeys,
    Statement::Create(Table::FoodItems),
    Statement::Create(Table::Pantry),
    Statement::Create(Table::Recipes),
    Statement::Create(Table::RecipeIngredients),
    Statement::Create(Table::Entries),
    Statement::Create(Table::EntryFoods),
    Statement::InsertFood,
    Statement::ListFoods,
    Statement::FindFood,
    Statement::InsertPantryItem,
    Statement::FindRecipe,
    Statement::InsertRecipe,
    Statement::AddRecipeIngredient,
    Statement::InsertEntry,
    Statement::AddEntryFood,
];

#[test]
fn schema_is_six_statements_that_create_if_absent() {
    let requests = create_database();
    assert_eq!(requests.len(), 6);
    let names = [
        "food_items",
        "pantry",
        "recipes",
        "recipe_ingredients",
        "entries",
        "entry_foods",
    ];
    for (request, name) in requests.iter().zip(names) {
        let sql = request.statement().sql();
        assert!(sql.starts_with(&format!("CREATE TABLE IF NOT EXISTS {} (", name)));
        assert!(sql.ends_with(')'));
        assert!(request.values().is_empty());
    }
}

#[test]
fn schema_makes_the_tables_in_their_order() {
    assert_eq!(
        tables(),
        [
            Table::FoodItems,
            Table::Pantry,
            Table::Recipes,
            Table::RecipeIngredients,
            Table::Entries,
            Table::EntryFoods,
        ]
    );
    let requests = create_database();
    for (request, table) in requests.iter().zip(tables()) {
        assert_eq!(*request, Request::CreateTable { table });
        assert_eq!(request.statement(), Statement::Create(table));
    }
}

#[test]
fn food_table_has_one_required_real_column_for_each_nutrient() {
    let mut expected = String::from(
        "CREATE TABLE IF NOT EXISTS food_items (id INTEGER PRIMARY KEY AUTOINCREMENT, \
         name TEXT NOT NULL UNIQUE, weight_grams REAL NOT NULL",
    );
    for name in catalog() {
        expected.push_str(", ");
        expected.push_str(name);
        expected.push_str(" REAL NOT NULL");
    }
    expected.push(')');
    assert_eq!(Statement::Create(Table::FoodItems).sql(), expected);
}

#[test]
fn fixed_tables_are_as_the_store_expects_them() {
    assert_eq!(
        Statement::Create(Table::Pantry).sql(),
        "CREATE TABLE IF NOT EXISTS pantry (id INTEGER PRIMARY KEY AUTOINCREMENT, \
         food_id INTEGER NOT NULL, weight_grams REAL NOT NULL, \
         weight_grams_remaining REAL NOT NULL, \
         FOREIGN KEY (food_id) REFERENCES food_items (id))"
    );
    assert_eq!(
        Statement::Create(Table::Recipes).sql(),
        "CREATE TABLE IF NOT EXISTS recipes (id INTEGER PRIMARY KEY AUTOINCREMENT, \
         name TEXT NOT NULL UNIQUE)"
    );
    assert_eq!(
        Statement::Create(Table::RecipeIngredients).sql(),
        "CREATE TABLE IF NOT EXISTS recipe_ingredients (id INTEGER PRIMARY KEY AUTOINCREMENT, \
         recipe_id INTEGER NOT NULL, food_id INTEGER NOT NULL, weight_grams REAL NOT NULL, \
         FOREIGN KEY (recipe_id) REFERENCES recipes (id), \
         FOREIGN KEY (food_id) REFERENCES food_items (id), UNIQUE (recipe_id, food_id))"
    );
    assert_eq!(
        Statement::Create(Table::Entries).sql(),
        "CREATE TABLE IF NOT EXISTS entries (id INTEGER PRIMARY KEY AUTOINCREMENT, \
         timestamp TEXT NOT NULL)"
    );
    assert_eq!(
        Statement::Create(Table::EntryFoods).sql(),
        "CREATE TABLE IF NOT EXISTS entry_foods (id INTEGER PRIMARY KEY AUTOINCREMENT, \
         entry_id INTEGER NOT NULL, food_id INTEGER NOT NULL, weight_grams REAL NOT NULL, \
         FOREIGN KEY (entry_id) REFERENCES entries (id), \
         FOREIGN KEY (food_id) REFERENCES food_items (id), UNIQUE (entry_id, food_id))"
    );
}

#[test]
fn food_insert_names_every_column_and_numbers_every_value() {
    let mut expected = String::from("INSERT INTO food_items (name, weight_grams");
    for name in catalog() {
        expected.push_str(", ");
        expected.push_str(name);
    }
    expected.push_str(") VALUES (?1");
    for k in 2..=101 {
        expected.push_str(&format!(", ?{}", k));
    }
    expected.push(')');
    let sql = Statement::InsertFood.sql();
    assert_eq!(sql, expected);
    assert_eq!(sql.matches('?').count(), 101);
    assert!(sql.ends_with(", ?9, ?10, ?11") == false);
    assert!(sql.contains(", ?9, ?10, ?11, "));
    assert!(sql.ends_with(", ?99, ?100, ?101)"));
}

#[test]
fn food_listing_selects_every_column_in_catalog_order() {
    let mut expected = String::from("SELECT name, weight_grams");
    for name in catalog() {
        expected.push_str(", ");
        expected.push_str(name);
    }
    expected.push_str(" FROM food_items");
    assert_eq!(Statement::ListFoods.sql(), expected);
}

#[test]
fn fixed_statements_are_as_the_store_expects_them() {
    assert_eq!(Statement::EnforceForeignKeys.sql(), "PRAGMA foreign_keys = ON");
    assert_eq!(Statement::FindFood.sql(), "SELECT id FROM food_items WHERE name = ?1");
    assert_eq!(
        Statement::InsertPantryItem.sql(),
        "INSERT INTO pantry (food_id, weight_grams, weight_grams_remaining) VALUES (?1, ?2, ?3)"
    );
    assert_eq!(Statement::FindRecipe.sql(), "SELECT id FROM recipes WHERE name = ?1");
    assert_eq!(Statement::InsertRecipe.sql(), "INSERT INTO recipes (name) VALUES (?1)");
    assert_eq!(
        Statement::AddRecipeIngredient.sql(),
        "INSERT INTO recipe_ingredients (recipe_id, food_id, weight_grams) VALUES (?1, ?2, ?3)"
    );
    assert_eq!(Statement::InsertEntry.sql(), "INSERT INTO entries (timestamp) VALUES (?1)");
    assert_eq!(
        Statement::AddEntryFood.sql(),
        "INSERT INTO entry_foods (entry_id, food_id, weight_grams) VALUES (?1, ?2, ?3)"
    );
}

#[test]
fn parameter_count_is_the_highest_placeholder() {
    for statement in ALL {
        let sql = statement.sql();
        let highest = (1..=200).rev().find(|k| {
            sql.contains(&format!("?{},", k)) || sql.contains(&format!("?{})", k))
                || sql.ends_with(&format!("?{}", k))
        });
        assert_eq!(statement.parameter_count(), highest.unwrap_or(0), "{}", sql);
    }
    assert_eq!(Statement::InsertFood.parameter_count(), 101);
    assert_eq!(Statement::InsertPantryItem.parameter_count(), 3);
    assert_eq!(Statement::AddEntryFood.parameter_count(), 3);
    assert_eq!(Statement::ListFoods.parameter_count(), 0);
}

#[test]
fn statements_yield_what_they_are_for() {
    for statement in ALL {
        let expected = match statement {
            Statement::EnforceForeignKeys | Statement::Create(_) => Yield::Nothing,
            Statement::ListFoods => Yield::Rows,
            Statement::FindFood | Statement::FindRecipe => Yield::Id,
            _ => Yield::RowId,
        };
        assert_eq!(statement.yields(), expected);
        assert_eq!(
            statement.sql().starts_with("CREATE TABLE") || statement.sql().starts_with("PRAGMA"),
            expected == Yield::Nothing
        );
        assert_eq!(
            statement.sql().starts_with("SELECT"),
            expected == Yield::Rows || expected == Yield::Id
        );
        assert_eq!(statement.sql().starts_with("INSERT INTO"), expected == Yield::RowId);
    }
}
