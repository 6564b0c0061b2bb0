//! The statements that the store is sent, written out from the catalog.

use vstd::prelude::*;
use vstd::string::StringExecFns;
use crate::catalog::{name_at, nutrient_name, NUTRIENT_COUNT};
use crate::record::RECORD_WIDTH;

verus! {

/// The decimal digit of `d`, for `d` below ten.
pub open spec fn digit(d: nat) -> char {
    if d == 0 {
        '0'
    } else if d == 1 {
        '1'
    } else if d == 2 {
        '2'
    } else if d == 3 {
        '3'
    } else if d == 4 {
        '4'
    } else if d == 5 {
        '5'
    } else if d == 6 {
        '6'
    } else if d == 7 {
        '7'
    } else if d == 8 {
        '8'
    } else {
        '9'
    }
}

/// The decimal numeral of `n`, without leading zeros.
pub open spec fn decimal(n: nat) -> Seq<char>
    decreases n,
{
    if n < 10 {
        seq![digit(n)]
    } else {
        decimal(n / 10).push(digit(n % 10))
    }
}

/// The placeholders `?1, ?2, ...` up to `?n`, separated by a comma and a
/// space.
pub open spec fn placeholders(n: nat) -> Seq<char>
    decreases n,
{
    if n == 0 {
        Seq::empty()
    } else if n == 1 {
        "?1"@
    } else {
        placeholders((n - 1) as nat) + ", ?"@ + decimal(n)
    }
}

/// The first `n` catalog names in catalog order, each after a comma and a
/// space and followed by `suffix`.
pub open spec fn nutrient_columns(suffix: Seq<char>, n: nat) -> Seq<char>
    decreases n,
{
    if n == 0 {
        Seq::empty()
    } else {
        nutrient_columns(suffix, (n - 1) as nat) + ", "@ + name_at(n - 1) + suffix
    }
}

/// How every statement that makes a table begins: it makes the table only
/// where the store does not hold it yet.
pub const CREATE_IF_ABSENT: &'static str = "CREATE TABLE IF NOT EXISTS ";

/// The table of the foods up to the columns of the nutrients: the id, the
/// unique name and the weight.
pub const FOOD_ITEMS: &'static str =
    "food_items (id INTEGER PRIMARY KEY AUTOINCREMENT, name TEXT NOT NULL UNIQUE, weight_grams REAL NOT NULL";

/// What makes the column of a nutrient a required number.
pub const REQUIRED_NUMBER: &'static str = " REAL NOT NULL";

/// The table of the pantry: each item refers to a food.
pub const PANTRY: &'static str =
    "pantry (id INTEGER PRIMARY KEY AUTOINCREMENT, food_id INTEGER NOT NULL, weight_grams REAL NOT NULL, weight_grams_remaining REAL NOT NULL, FOREIGN KEY (food_id) REFERENCES food_items (id))";

/// The table of the recipes, each of a unique name.
pub const RECIPES: &'static str =
    "recipes (id INTEGER PRIMARY KEY AUTOINCREMENT, name TEXT NOT NULL UNIQUE)";

/// The table of the ingredients: each refers to a recipe and to a food, and
/// a recipe holds a food once.
pub const RECIPE_INGREDIENTS: &'static str =
    "recipe_ingredients (id INTEGER PRIMARY KEY AUTOINCREMENT, recipe_id INTEGER NOT NULL, food_id INTEGER NOT NULL, weight_grams REAL NOT NULL, FOREIGN KEY (recipe_id) REFERENCES recipes (id), FOREIGN KEY (food_id) REFERENCES food_items (id), UNIQUE (recipe_id, food_id))";

/// The table of the diary entries.
pub const ENTRIES: &'static str =
    "entries (id INTEGER PRIMARY KEY AUTOINCREMENT, timestamp TEXT NOT NULL)";

/// The table of the foods of the entries: each refers to an entry and to a
/// food, and an entry holds a food once.
pub const ENTRY_FOODS: &'static str =
    "entry_foods (id INTEGER PRIMARY KEY AUTOINCREMENT, entry_id INTEGER NOT NULL, food_id INTEGER NOT NULL, weight_grams REAL NOT NULL, FOREIGN KEY (entry_id) REFERENCES entries (id), FOREIGN KEY (food_id) REFERENCES food_items (id), UNIQUE (entry_id, food_id))";

/// Makes the store refuse a row that refers to a row that is not there.
pub const ENFORCE_FOREIGN_KEYS: &'static str = "PRAGMA foreign_keys = ON";

/// Stores a food, up to the columns of the nutrients.
pub const INSERT_FOOD: &'static str = "INSERT INTO food_items (name, weight_grams";

/// What stands between the columns and the placeholders of a statement
/// that stores a row.
pub const VALUES: &'static str = ") VALUES (";

/// Lists the foods, up to the columns of the nutrients.
pub const LIST_FOODS: &'static str = "SELECT name, weight_grams";

/// The table that the foods are listed from.
pub const FROM_FOOD_ITEMS: &'static str = " FROM food_items";

/// Looks up the id of the food of a name.
pub const FIND_FOOD: &'static str = "SELECT id FROM food_items WHERE name = ?1";

/// Stores a pantry item.
pub const INSERT_PANTRY_ITEM: &'static str =
    "INSERT INTO pantry (food_id, weight_grams, weight_grams_remaining) VALUES (?1, ?2, ?3)";

/// Looks up the id of the recipe of a name.
pub const FIND_RECIPE: &'static str = "SELECT id FROM recipes WHERE name = ?1";

/// Stores a recipe.
pub const INSERT_RECIPE: &'static str = "INSERT INTO recipes (name) VALUES (?1)";

/// Adds a food to a recipe.
pub const ADD_RECIPE_INGREDIENT: &'static str =
    "INSERT INTO recipe_ingredients (recipe_id, food_id, weight_grams) VALUES (?1, ?2, ?3)";

/// Stores a diary entry.
pub const INSERT_ENTRY: &'static str = "INSERT INTO entries (timestamp) VALUES (?1)";

/// Adds a food to a diary entry.
pub const ADD_ENTRY_FOOD: &'static str =
    "INSERT INTO entry_foods (entry_id, food_id, weight_grams) VALUES (?1, ?2, ?3)";

/// The six tables of the store.
#[derive(Clone, Copy, Debug, PartialEq, Eq, Structural)]
pub enum Table {
    FoodItems,
    Pantry,
    Recipes,
    RecipeIngredients,
    Entries,
    EntryFoods,
}

impl Table {
    /// The name of the table and, in brackets, its columns and constraints.
    /// The table of the foods has one required column for each catalog
    /// nutrient, in catalog order, after the id, the name and the weight.
    pub open spec fn definition(self) -> Seq<char> {
        match self {
            Table::FoodItems => FOOD_ITEMS@ + nutrient_columns(
                REQUIRED_NUMBER@,
                NUTRIENT_COUNT as nat,
            ) + ")"@,
            Table::Pantry => PANTRY@,
            Table::Recipes => RECIPES@,
            Table::RecipeIngredients => RECIPE_INGREDIENTS@,
            Table::Entries => ENTRIES@,
            Table::EntryFoods => ENTRY_FOODS@,
        }
    }
}

/// What the store gives back for a statement that it has run.
#[derive(Clone, Copy, Debug, PartialEq, Eq, Structural)]
pub enum Yield {
    /// Nothing: the statement makes a table or sets the store up.
    Nothing,
    /// The id of the row that the statement wrote.
    RowId,
    /// The id in the first row that the statement selects, if it selects one.
    Id,
    /// Every row that the statement selects.
    Rows,
}

/// The statements that the store is sent.
#[derive(Clone, Copy, Debug, PartialEq, Eq, Structural)]
pub enum Statement {
    EnforceForeignKeys,
    Create(Table),
    InsertFood,
    ListFoods,
    FindFood,
    InsertPantryItem,
    FindRecipe,
    InsertRecipe,
    AddRecipeIngredient,
    InsertEntry,
    AddEntryFood,
}

impl Statement {
    /// The text of the statement. A table is made only where the store does
    /// not hold it yet. The columns that the statements on the foods name,
    /// and the placeholders that go with them, are the catalog in its
    /// order, after the name and the weight.
    pub open spec fn text(self) -> Seq<char> {
        match self {
            Statement::EnforceForeignKeys => ENFORCE_FOREIGN_KEYS@,
            Statement::Create(table) => CREATE_IF_ABSENT@ + table.definition(),
            Statement::InsertFood => INSERT_FOOD@ + nutrient_columns(
                Seq::empty(),
                NUTRIENT_COUNT as nat,
            ) + VALUES@ + placeholders(RECORD_WIDTH as nat) + ")"@,
            Statement::ListFoods => LIST_FOODS@ + nutrient_columns(
                Seq::empty(),
                NUTRIENT_COUNT as nat,
            ) + FROM_FOOD_ITEMS@,
            Statement::FindFood => FIND_FOOD@,
            Statement::InsertPantryItem => INSERT_PANTRY_ITEM@,
            Statement::FindRecipe => FIND_RECIPE@,
            Statement::InsertRecipe => INSERT_RECIPE@,
            Statement::AddRecipeIngredient => ADD_RECIPE_INGREDIENT@,
            Statement::InsertEntry => INSERT_ENTRY@,
            Statement::AddEntryFood => ADD_ENTRY_FOOD@,
        }
    }

    /// The number of values that the statement takes: its highest
    /// placeholder.
    pub open spec fn arity(self) -> nat {
        match self {
            Statement::EnforceForeignKeys => 0,
            Statement::Create(_) => 0,
            Statement::InsertFood => RECORD_WIDTH as nat,
            Statement::ListFoods => 0,
            Statement::FindFood => 1,
            Statement::InsertPantryItem => 3,
            Statement::FindRecipe => 1,
            Statement::InsertRecipe => 1,
            Statement::AddRecipeIngredient => 3,
            Statement::InsertEntry => 1,
            Statement::AddEntryFood => 3,
        }
    }

    /// What the store gives back for the statement.
    pub open spec fn yield_spec(self) -> Yield {
        match self {
            Statement::EnforceForeignKeys => Yield::Nothing,
            Statement::Create(_) => Yield::Nothing,
            Statement::ListFoods => Yield::Rows,
            Statement::FindFood => Yield::Id,
            Statement::FindRecipe => Yield::Id,
            _ => Yield::RowId,
        }
    }

    /// The text of the statement, ready to be sent to the store.
    pub fn sql(self) -> (sql: String)
        ensures
            sql@ == self.text(),
    {
        match self {
            Statement::EnforceForeignKeys => String::from_str(ENFORCE_FOREIGN_KEYS),
            Statement::Create(table) => {
                let mut sql = String::from_str(CREATE_IF_ABSENT);
                match table {
                    Table::FoodItems => {
                        sql.append(FOOD_ITEMS);
                        push_nutrient_columns(&mut sql, REQUIRED_NUMBER);
                        sql.append(")");
                    },
                    Table::Pantry => {
                        sql.append(PANTRY);
                    },
                    Table::Recipes => {
                        sql.append(RECIPES);
                    },
                    Table::RecipeIngredients => {
                        sql.append(RECIPE_INGREDIENTS);
                    },
                    Table::Entries => {
                        sql.append(ENTRIES);
                    },
                    Table::EntryFoods => {
                        sql.append(ENTRY_FOODS);
                    },
                }
                proof {
                    assert(sql@ =~= self.text());
                }
                sql
            },
            Statement::InsertFood => {
                let mut sql = String::from_str(INSERT_FOOD);
                let empty = String::new();
                push_nutrient_columns(&mut sql, empty.as_str());
                sql.append(VALUES);
                push_placeholders(&mut sql, RECORD_WIDTH);
                sql.append(")");
                proof {
                    assert(sql@ =~= self.text());
                }
                sql
            },
            Statement::ListFoods => {
                let mut sql = String::from_str(LIST_FOODS);
                let empty = String::new();
                push_nutrient_columns(&mut sql, empty.as_str());
                sql.append(FROM_FOOD_ITEMS);
                proof {
                    assert(sql@ =~= self.text());
                }
                sql
            },
            Statement::FindFood => String::from_str(FIND_FOOD),
            Statement::InsertPantryItem => String::from_str(INSERT_PANTRY_ITEM),
            Statement::FindRecipe => String::from_str(FIND_RECIPE),
            Statement::InsertRecipe => String::from_str(INSERT_RECIPE),
            Statement::AddRecipeIngredient => String::from_str(ADD_RECIPE_INGREDIENT),
            Statement::InsertEntry => String::from_str(INSERT_ENTRY),
            Statement::AddEntryFood => String::from_str(ADD_ENTRY_FOOD),
        }
    }

    /// The number of values that the statement takes.
    pub fn parameter_count(self) -> (count: usize)
        ensures
            count == self.arity(),
    {
        match self {
            Statement::InsertFood => RECORD_WIDTH,
            Statement::FindFood => 1,
            Statement::InsertPantryItem => 3,
            Statement::FindRecipe => 1,
            Statement::InsertRecipe => 1,
            Statement::AddRecipeIngredient => 3,
            Statement::InsertEntry => 1,
            Statement::AddEntryFood => 3,
            _ => 0,
        }
    }

    /// What the store gives back for the statement.
    pub fn yields(self) -> (given: Yield)
        ensures
            given == self.yield_spec(),
    {
        match self {
            Statement::EnforceForeignKeys => Yield::Nothing,
            Statement::Create(_) => Yield::Nothing,
            Statement::ListFoods => Yield::Rows,
            Statement::FindFood => Yield::Id,
            Statement::FindRecipe => Yield::Id,
            _ => Yield::RowId,
        }
    }
}

/// The numeral of one digit.
fn digit_text(d: usize) -> (text: &'static str)
    requires
        d < 10,
    ensures
        text@ == seq![digit(d as nat)],
{
    proof {
        reveal_strlit("0");
        reveal_strlit("1");
        reveal_strlit("2");
        reveal_strlit("3");
        reveal_strlit("4");
        reveal_strlit("5");
        reveal_strlit("6");
        reveal_strlit("7");
        reveal_strlit("8");
        reveal_strlit("9");
    }
    let text = match d {
        0 => "0",
        1 => "1",
        2 => "2",
        3 => "3",
        4 => "4",
        5 => "5",
        6 => "6",
        7 => "7",
        8 => "8",
        _ => "9",
    };
    assert(text@ =~= seq![digit(d as nat)]);
    text
}

/// Appends the decimal numeral of `n`.
fn push_decimal(sql: &mut String, n: usize)
    ensures
        final(sql)@ == old(sql)@ + decimal(n as nat),
    decreases n,
{
    if n >= 10 {
        push_decimal(sql, n / 10);
    }
    sql.append(digit_text(n % 10));
    proof {
        if n >= 10 {
            assert(sql@ =~= old(sql)@ + decimal((n / 10) as nat).push(digit((n % 10) as nat)));
        } else {
            assert(sql@ =~= old(sql)@ + seq![digit(n as nat)]);
        }
    }
}

/// Appends the placeholders `?1` to `?n`.
fn push_placeholders(sql: &mut String, n: usize)
    ensures
        final(sql)@ == old(sql)@ + placeholders(n as nat),
{
    let mut i: usize = 0;
    while i < n
        invariant
            i <= n,
            sql@ == old(sql)@ + placeholders(i as nat),
        decreases n - i,
    {
        let ghost before = sql@;
        if i == 0 {
            sql.append("?1");
            proof {
                assert(sql@ =~= old(sql)@ + placeholders(1));
            }
        } else {
            sql.append(", ?");
            push_decimal(sql, i + 1);
            proof {
                assert(sql@ =~= old(sql)@ + placeholders((i + 1) as nat));
            }
        }
        i += 1;
    }
}

/// Appends the catalog names in catalog order, each after a comma and a
/// space and followed by `suffix`.
fn push_nutrient_columns(sql: &mut String, suffix: &str)
    ensures
        final(sql)@ == old(sql)@ + nutrient_columns(suffix@, NUTRIENT_COUNT as nat),
{
    let mut i: usize = 0;
    while i < NUTRIENT_COUNT
        invariant
            i <= NUTRIENT_COUNT,
            sql@ == old(sql)@ + nutrient_columns(suffix@, i as nat),
        decreases NUTRIENT_COUNT - i,
    {
        sql.append(", ");
        sql.append(nutrient_name(i));
        sql.append(suffix);
        proof {
            assert(sql@ =~= old(sql)@ + nutrient_columns(suffix@, (i + 1) as nat));
        }
        i += 1;
    }
}

/// Every statement that makes a table begins with `CREATE_IF_ABSENT`: it
/// leaves a table that the store already holds as it is, so the schema can
/// be made again at every start.
pub proof fn lemma_tables_made_if_absent(table: Table)
    ensures
        CREATE_IF_ABSENT@.is_prefix_of(Statement::Create(table).text()),
{
    assert(Statement::Create(table).text().subrange(0, CREATE_IF_ABSENT@.len() as int)
        =~= CREATE_IF_ABSENT@);
}

/// The tables of the store in the order in which they are made: a table
/// that refers to another comes after it.
pub open spec fn schema() -> Seq<Table> {
    seq![
        Table::FoodItems,
        Table::Pantry,
        Table::Recipes,
        Table::RecipeIngredients,
        Table::Entries,
        Table::EntryFoods,
    ]
}

/// The tables of the store in the order in which they are made.
pub fn tables() -> (tables: Vec<Table>)
    ensures
        tables@ == schema(),
{
    let mut tables: Vec<Table> = Vec::new();
    tables.push(Table::FoodItems);
    tables.push(Table::Pantry);
    tables.push(Table::Recipes);
    tables.push(Table::RecipeIngredients);
    tables.push(Table::Entries);
    tables.push(Table::EntryFoods);
    proof {
        assert(tables@ =~= schema());
    }
    tables
}

} // verus!
