//! Requests to the store and what its replies mean.

use vstd::prelude::*;
use crate::amount::Amount;
use crate::food::{food_of, Food};
use crate::nutrients::ApiFood;
use crate::record::{
    decoded_foods, get_foods, record_of, rejected_rows, to_record, Field, FieldView, Listing,
};
use crate::sql::{schema, tables, Statement, Table};

verus! {

/// Extended result code with which the store refuses a row that repeats a
/// value that must be unique.
pub const UNIQUE_VIOLATION: i32 = 2067;

/// Extended result code with which the store refuses a row that refers to a
/// row that does not exist.
pub const FOREIGN_KEY_VIOLATION: i32 = 787;

/// A row of the pantry: the food it refers to, the weight acquired and the
/// weight that remains of it.
#[derive(Clone, Copy, Debug, PartialEq, Eq, Structural)]
pub struct PantryItem {
    pub food_id: i64,
    pub weight_grams: Amount,
    pub weight_grams_remaining: Amount,
}

impl PantryItem {
    /// A pantry item as it is acquired: all of it remains.
    pub fn new(food_id: i64, weight_grams: Amount) -> (item: PantryItem)
        ensures
            item == (PantryItem { food_id, weight_grams, weight_grams_remaining: weight_grams }),
    {
        PantryItem { food_id, weight_grams, weight_grams_remaining: weight_grams }
    }
}

/// An ingredient of a recipe: the recipe, the food and the weight of it.
#[derive(Clone, Copy, Debug, PartialEq, Eq, Structural)]
pub struct Ingredient {
    pub recipe_id: i64,
    pub food_id: i64,
    pub weight_grams: Amount,
}

/// A food of a diary entry: the entry, the food and the weight eaten.
#[derive(Clone, Copy, Debug, PartialEq, Eq, Structural)]
pub struct EntryFood {
    pub entry_id: i64,
    pub food_id: i64,
    pub weight_grams: Amount,
}

/// Why an operation on the store did not succeed.
#[derive(Clone, Copy, Debug, PartialEq, Eq, Structural)]
pub enum StoreError {
    /// A food or a recipe of that name is already stored.
    DuplicateName,
    /// The recipe or the entry already holds that food.
    DuplicateIngredient,
    /// The row refers to a food, a recipe or an entry that is not stored.
    ForeignKeyViolation,
    /// The store could not be opened or created.
    StorageUnavailable,
    /// The store failed in any other way.
    StorageError,
}

/// A value that takes the place of a placeholder of a statement.
#[derive(Clone, Debug, PartialEq, Eq)]
pub enum Bound {
    Null,
    Id(i64),
    Number(Amount),
    Text(String),
    Blob,
}

/// What a `Bound` stands for.
pub enum BoundView {
    Null,
    Id(i64),
    Number(Amount),
    Text(Seq<char>),
    Blob,
}

impl DeepView for Bound {
    type V = BoundView;

    open spec fn deep_view(&self) -> BoundView {
        match self {
            Bound::Null => BoundView::Null,
            Bound::Id(id) => BoundView::Id(*id),
            Bound::Number(amount) => BoundView::Number(*amount),
            Bound::Text(text) => BoundView::Text(text@),
            Bound::Blob => BoundView::Blob,
        }
    }
}

impl View for Bound {
    type V = BoundView;

    open spec fn view(&self) -> BoundView {
        self.deep_view()
    }
}

/// The value that a field of a record is bound as.
pub open spec fn bound_of(field: FieldView) -> BoundView {
    match field {
        FieldView::Null => BoundView::Null,
        FieldView::Number(amount) => BoundView::Number(amount),
        FieldView::Text(text) => BoundView::Text(text),
        FieldView::Blob => BoundView::Blob,
    }
}

/// One operation on the store, with the values it is run with.
#[derive(Clone, Debug, PartialEq, Eq)]
pub enum Request {
    EnforceForeignKeys,
    CreateTable { table: Table },
    InsertFood { record: Vec<Field> },
    ListFoods,
    FindFood { name: String },
    InsertPantryItem { item: PantryItem },
    FindRecipe { name: String },
    InsertRecipe { name: String },
    AddRecipeIngredient { ingredient: Ingredient },
    InsertEntry { timestamp: String },
    AddEntryFood { entry_food: EntryFood },
}

/// What a `Request` stands for.
pub enum RequestView {
    EnforceForeignKeys,
    CreateTable { table: Table },
    InsertFood { record: Seq<FieldView> },
    ListFoods,
    FindFood { name: Seq<char> },
    InsertPantryItem { item: PantryItem },
    FindRecipe { name: Seq<char> },
    InsertRecipe { name: Seq<char> },
    AddRecipeIngredient { ingredient: Ingredient },
    InsertEntry { timestamp: Seq<char> },
    AddEntryFood { entry_food: EntryFood },
}

impl RequestView {
    /// The statement that carries out the request.
    pub open spec fn statement(self) -> Statement {
        match self {
            RequestView::EnforceForeignKeys => Statement::EnforceForeignKeys,
            RequestView::CreateTable { table } => Statement::Create(table),
            RequestView::InsertFood { .. } => Statement::InsertFood,
            RequestView::ListFoods => Statement::ListFoods,
            RequestView::FindFood { .. } => Statement::FindFood,
            RequestView::InsertPantryItem { .. } => Statement::InsertPantryItem,
            RequestView::FindRecipe { .. } => Statement::FindRecipe,
            RequestView::InsertRecipe { .. } => Statement::InsertRecipe,
            RequestView::AddRecipeIngredient { .. } => Statement::AddRecipeIngredient,
            RequestView::InsertEntry { .. } => Statement::InsertEntry,
            RequestView::AddEntryFood { .. } => Statement::AddEntryFood,
        }
    }

    /// The values that the statement of the request is run with, in the
    /// order of its placeholders. A food is bound field by field; a pantry
    /// item, an ingredient and a food of an entry by their fields in order.
    pub open spec fn values(self) -> Seq<BoundView> {
        match self {
            RequestView::EnforceForeignKeys => Seq::empty(),
            RequestView::CreateTable { .. } => Seq::empty(),
            RequestView::InsertFood { record } => Seq::new(
                record.len(),
                |i: int| bound_of(record[i]),
            ),
            RequestView::ListFoods => Seq::empty(),
            RequestView::FindFood { name } => seq![BoundView::Text(name)],
            RequestView::InsertPantryItem { item } => seq![
                BoundView::Id(item.food_id),
                BoundView::Number(item.weight_grams),
                BoundView::Number(item.weight_grams_remaining),
            ],
            RequestView::FindRecipe { name } => seq![BoundView::Text(name)],
            RequestView::InsertRecipe { name } => seq![BoundView::Text(name)],
            RequestView::AddRecipeIngredient { ingredient } => seq![
                BoundView::Id(ingredient.recipe_id),
                BoundView::Id(ingredient.food_id),
                BoundView::Number(ingredient.weight_grams),
            ],
            RequestView::InsertEntry { timestamp } => seq![BoundView::Text(timestamp)],
            RequestView::AddEntryFood { entry_food } => seq![
                BoundView::Id(entry_food.entry_id),
                BoundView::Id(entry_food.food_id),
                BoundView::Number(entry_food.weight_grams),
            ],
        }
    }

    /// Whether the request gives its statement as many values as it takes.
    /// Every request does but one that stores a food whose record has not
    /// the width of a record.
    pub open spec fn fits(self) -> bool {
        self.values().len() == self.statement().arity()
    }
}

impl DeepView for Request {
    type V = RequestView;

    open spec fn deep_view(&self) -> RequestView {
        match self {
            Request::EnforceForeignKeys => RequestView::EnforceForeignKeys,
            Request::CreateTable { table } => RequestView::CreateTable { table: *table },
            Request::InsertFood { record } => RequestView::InsertFood {
                record: record.deep_view(),
            },
            Request::ListFoods => RequestView::ListFoods,
            Request::FindFood { name } => RequestView::FindFood { name: name@ },
            Request::InsertPantryItem { item } => RequestView::InsertPantryItem { item: *item },
            Request::FindRecipe { name } => RequestView::FindRecipe { name: name@ },
            Request::InsertRecipe { name } => RequestView::InsertRecipe { name: name@ },
            Request::AddRecipeIngredient { ingredient } => RequestView::AddRecipeIngredient {
                ingredient: *ingredient,
            },
            Request::InsertEntry { timestamp } => RequestView::InsertEntry {
                timestamp: timestamp@,
            },
            Request::AddEntryFood { entry_food } => RequestView::AddEntryFood {
                entry_food: *entry_food,
            },
        }
    }
}

impl View for Request {
    type V = RequestView;

    open spec fn view(&self) -> RequestView {
        self.deep_view()
    }
}

impl Request {
    /// The statement that carries out the request.
    pub fn statement(&self) -> (statement: Statement)
        ensures
            statement == self@.statement(),
    {
        match self {
            Request::EnforceForeignKeys => Statement::EnforceForeignKeys,
            Request::CreateTable { table } => Statement::Create(*table),
            Request::InsertFood { .. } => Statement::InsertFood,
            Request::ListFoods => Statement::ListFoods,
            Request::FindFood { .. } => Statement::FindFood,
            Request::InsertPantryItem { .. } => Statement::InsertPantryItem,
            Request::FindRecipe { .. } => Statement::FindRecipe,
            Request::InsertRecipe { .. } => Statement::InsertRecipe,
            Request::AddRecipeIngredient { .. } => Statement::AddRecipeIngredient,
            Request::InsertEntry { .. } => Statement::InsertEntry,
            Request::AddEntryFood { .. } => Statement::AddEntryFood,
        }
    }

    /// The values that the statement of the request is run with, in the
    /// order of its placeholders.
    pub fn values(&self) -> (values: Vec<Bound>)
        ensures
            values.deep_view() == self@.values(),
    {
        let mut values: Vec<Bound> = Vec::new();
        match self {
            Request::EnforceForeignKeys => {},
            Request::CreateTable { .. } => {},
            Request::InsertFood { record } => {
                let mut i: usize = 0;
                while i < record.len()
                    invariant
                        i <= record.len(),
                        values@.len() == i,
                        forall|j: int|
                            0 <= j < i ==> (#[trigger] values@[j])@ == bound_of(record@[j]@),
                    decreases record.len() - i,
                {
                    let bound = match &record[i] {
                        Field::Null => Bound::Null,
                        Field::Number(amount) => Bound::Number(*amount),
                        Field::Text(text) => Bound::Text(text.clone()),
                        Field::Blob => Bound::Blob,
                    };
                    values.push(bound);
                    i += 1;
                }
            },
            Request::ListFoods => {},
            Request::FindFood { name } => {
                values.push(Bound::Text(name.clone()));
            },
            Request::InsertPantryItem { item } => {
                values.push(Bound::Id(item.food_id));
                values.push(Bound::Number(item.weight_grams));
                values.push(Bound::Number(item.weight_grams_remaining));
            },
            Request::FindRecipe { name } => {
                values.push(Bound::Text(name.clone()));
            },
            Request::InsertRecipe { name } => {
                values.push(Bound::Text(name.clone()));
            },
            Request::AddRecipeIngredient { ingredient } => {
                values.push(Bound::Id(ingredient.recipe_id));
                values.push(Bound::Id(ingredient.food_id));
                values.push(Bound::Number(ingredient.weight_grams));
            },
            Request::InsertEntry { timestamp } => {
                values.push(Bound::Text(timestamp.clone()));
            },
            Request::AddEntryFood { entry_food } => {
                values.push(Bound::Id(entry_food.entry_id));
                values.push(Bound::Id(entry_food.food_id));
                values.push(Bound::Number(entry_food.weight_grams));
            },
        }
        proof {
            assert(values.deep_view() =~= self@.values());
        }
        values
    }
}

/// What came back from the store for one request.
#[derive(Clone, Debug, PartialEq, Eq)]
pub enum Reply {
    /// The statement ran, and gives nothing back.
    Done,
    /// The row was written, under this id.
    Written { row_id: i64 },
    /// The lookup ran: the id of the row of that name, if there is one.
    Found { id: Option<i64> },
    /// The rows of the food table, each as the fields of `Statement::ListFoods`.
    Listed { rows: Vec<Vec<Field>> },
    /// The store refused the statement, with this extended result code.
    Refused { code: i32 },
    /// The store could not be opened or created.
    Unavailable,
}

/// The request that is sent first whenever the store is opened: it makes
/// the store refuse a row that refers to a row that is not there.
pub fn enforce_foreign_keys() -> (request: Request)
    ensures
        request@ == RequestView::EnforceForeignKeys,
{
    Request::EnforceForeignKeys
}

/// The requests that make the tables of the store, in the order in which
/// they are to be sent. Each leaves a table that is already there as it is,
/// so they can be sent at every start.
pub fn create_database() -> (requests: Vec<Request>)
    ensures
        requests@.len() == schema().len(),
        forall|i: int|
            0 <= i < schema().len() ==> (#[trigger] requests@[i])@ == (RequestView::CreateTable {
                table: schema()[i],
            }),
{
    let tables = tables();
    let mut requests: Vec<Request> = Vec::new();
    let mut i: usize = 0;
    while i < tables.len()
        invariant
            i <= tables.len(),
            tables@ == schema(),
            requests@.len() == i,
            forall|j: int|
                0 <= j < i ==> (#[trigger] requests@[j])@ == (RequestView::CreateTable {
                    table: schema()[j],
                }),
        decreases tables.len() - i,
    {
        requests.push(Request::CreateTable { table: tables[i] });
        i += 1;
    }
    requests
}

/// The request that stores `food`: its record, with zero for each catalog
/// nutrient that the food does not report.
pub fn insert_food(food: &Food) -> (request: Request)
    ensures
        request@ == (RequestView::InsertFood {
            record: record_of(food@.name, food@.weight_grams, food@.nutrients),
        }),
{
    Request::InsertFood {
        record: to_record(food.name.as_str(), food.weight_grams, &food.nutrients),
    }
}

/// The request that lists the stored foods.
pub fn list_foods() -> (request: Request)
    ensures
        request@ == RequestView::ListFoods,
{
    Request::ListFoods
}

/// The request that looks up the id of the food of exactly this name.
pub fn find_food_id(name: &str) -> (request: Request)
    ensures
        request@ == (RequestView::FindFood { name: name@ }),
{
    Request::FindFood { name: name.to_owned() }
}

/// The request that stores a pantry item of `weight_grams` of a food, all
/// of which remains.
pub fn insert_pantry_item(food_id: i64, weight_grams: Amount) -> (request: Request)
    ensures
        request@ == (RequestView::InsertPantryItem {
            item: PantryItem { food_id, weight_grams, weight_grams_remaining: weight_grams },
        }),
{
    Request::InsertPantryItem { item: PantryItem::new(food_id, weight_grams) }
}

/// The request that looks up the id of the recipe of exactly this name.
pub fn find_recipe_id(name: &str) -> (request: Request)
    ensures
        request@ == (RequestView::FindRecipe { name: name@ }),
{
    Request::FindRecipe { name: name.to_owned() }
}

/// The request that stores a recipe without ingredients.
pub fn insert_recipe(name: &str) -> (request: Request)
    ensures
        request@ == (RequestView::InsertRecipe { name: name@ }),
{
    Request::InsertRecipe { name: name.to_owned() }
}

/// The request that adds a food to a recipe.
pub fn add_recipe_ingredient(recipe_id: i64, food_id: i64, weight_grams: Amount) -> (request:
    Request)
    ensures
        request@ == (RequestView::AddRecipeIngredient {
            ingredient: Ingredient { recipe_id, food_id, weight_grams },
        }),
{
    Request::AddRecipeIngredient { ingredient: Ingredient { recipe_id, food_id, weight_grams } }
}

/// The request that stores a diary entry made at `timestamp`.
pub fn insert_entry(timestamp: &str) -> (request: Request)
    ensures
        request@ == (RequestView::InsertEntry { timestamp: timestamp@ }),
{
    Request::InsertEntry { timestamp: timestamp.to_owned() }
}

/// The request that adds a food to a diary entry.
pub fn add_entry_food(entry_id: i64, food_id: i64, weight_grams: Amount) -> (request: Request)
    ensures
        request@ == (RequestView::AddEntryFood {
            entry_food: EntryFood { entry_id, food_id, weight_grams },
        }),
{
    Request::AddEntryFood { entry_food: EntryFood { entry_id, food_id, weight_grams } }
}

/// The requests that store the candidates of the external source as foods,
/// one for each candidate and in their order. They are sent one by one, and
/// `add_food_items_next` says after each reply whether to go on.
pub fn add_food_items(foods: &Vec<ApiFood>) -> (requests: Vec<Request>)
    ensures
        requests@.len() == foods@.len(),
        forall|i: int|
            0 <= i < foods@.len() ==> (#[trigger] requests@[i])@ == (RequestView::InsertFood {
                record: record_of(
                    food_of(foods@[i]).name,
                    food_of(foods@[i]).weight_grams,
                    food_of(foods@[i]).nutrients,
                ),
            }),
{
    let mut requests: Vec<Request> = Vec::new();
    let mut i: usize = 0;
    while i < foods.len()
        invariant
            i <= foods.len(),
            requests@.len() == i,
            forall|j: int|
                0 <= j < i ==> (#[trigger] requests@[j])@ == (RequestView::InsertFood {
                    record: record_of(
                        food_of(foods@[j]).name,
                        food_of(foods@[j]).weight_grams,
                        food_of(foods@[j]).nutrients,
                    ),
                }),
        decreases foods.len() - i,
    {
        let food = Food::from_api(&foods[i]);
        requests.push(insert_food(&food));
        i += 1;
    }
    requests
}

/// Whether to go on after one of the requests of `add_food_items` was
/// answered: `sent` requests were answered before it, of `total`. A reply
/// that is no row written ends the run with its error, so that the foods
/// before are stored and the foods after are not; a row written asks for
/// the next request, if there is one.
pub fn add_food_items_next(sent: usize, total: usize, reply: &Reply) -> (next: Result<
    bool,
    StoreError,
>)
    requires
        sent < total,
    ensures
        next == match write_outcome(Statement::InsertFood, *reply) {
            Ok(_) => Ok::<bool, StoreError>(sent + 1 < total),
            Err(error) => Err::<bool, StoreError>(error),
        },
{
    match written(Statement::InsertFood, reply) {
        Ok(_) => Ok(sent + 1 < total),
        Err(error) => Err(error),
    }
}

/// The error that a refusal with `code` means for `statement`: a repeated
/// unique value is a duplicate name for a food or a recipe and a duplicate
/// ingredient for a food of a recipe or of an entry; a missing row referred
/// to is a foreign-key violation; anything else is a storage error.
pub open spec fn refusal(statement: Statement, code: i32) -> StoreError {
    if code == UNIQUE_VIOLATION {
        if statement is InsertFood || statement is InsertRecipe {
            StoreError::DuplicateName
        } else if statement is AddRecipeIngredient || statement is AddEntryFood {
            StoreError::DuplicateIngredient
        } else {
            StoreError::StorageError
        }
    } else if code == FOREIGN_KEY_VIOLATION {
        StoreError::ForeignKeyViolation
    } else {
        StoreError::StorageError
    }
}

/// What a reply means for a statement that writes a row: the id of the new
/// row, or the error.
pub open spec fn write_outcome(statement: Statement, reply: Reply) -> Result<i64, StoreError> {
    match reply {
        Reply::Written { row_id } => Ok(row_id),
        Reply::Refused { code } => Err(refusal(statement, code)),
        Reply::Unavailable => Err(StoreError::StorageUnavailable),
        _ => Err(StoreError::StorageError),
    }
}

/// What a reply means for a statement that makes a table or sets the
/// store up: nothing, or the error.
pub open spec fn table_outcome(reply: Reply) -> Result<(), StoreError> {
    match reply {
        Reply::Done => Ok(()),
        Reply::Unavailable => Err(StoreError::StorageUnavailable),
        _ => Err(StoreError::StorageError),
    }
}

/// What a reply means for a lookup by name: the id if a row was found, no
/// id if none was, or the error.
pub open spec fn lookup_outcome(reply: Reply) -> Result<Option<i64>, StoreError> {
    match reply {
        Reply::Found { id } => Ok(id),
        Reply::Unavailable => Err(StoreError::StorageUnavailable),
        _ => Err(StoreError::StorageError),
    }
}

/// Reads the reply to a request that makes a table or sets the store up.
pub fn made(reply: &Reply) -> (outcome: Result<(), StoreError>)
    ensures
        outcome == table_outcome(*reply),
{
    match reply {
        Reply::Done => Ok(()),
        Reply::Unavailable => Err(StoreError::StorageUnavailable),
        _ => Err(StoreError::StorageError),
    }
}

/// Reads the reply to a request that writes a row.
pub fn written(statement: Statement, reply: &Reply) -> (outcome: Result<i64, StoreError>)
    ensures
        outcome == write_outcome(statement, *reply),
{
    match reply {
        Reply::Written { row_id } => Ok(*row_id),
        Reply::Refused { code } => {
            if *code == UNIQUE_VIOLATION {
                match statement {
                    Statement::InsertFood => Err(StoreError::DuplicateName),
                    Statement::InsertRecipe => Err(StoreError::DuplicateName),
                    Statement::AddRecipeIngredient => Err(StoreError::DuplicateIngredient),
                    Statement::AddEntryFood => Err(StoreError::DuplicateIngredient),
                    _ => Err(StoreError::StorageError),
                }
            } else if *code == FOREIGN_KEY_VIOLATION {
                Err(StoreError::ForeignKeyViolation)
            } else {
                Err(StoreError::StorageError)
            }
        },
        Reply::Unavailable => Err(StoreError::StorageUnavailable),
        _ => Err(StoreError::StorageError),
    }
}

/// Reads the reply to a lookup by name.
pub fn found(reply: &Reply) -> (outcome: Result<Option<i64>, StoreError>)
    ensures
        outcome == lookup_outcome(*reply),
{
    match reply {
        Reply::Found { id } => Ok(*id),
        Reply::Unavailable => Err(StoreError::StorageUnavailable),
        _ => Err(StoreError::StorageError),
    }
}

/// Reads the reply to a listing of the foods: the foods of the rows that
/// decode and the rows that do not, or the error. An empty store gives an
/// empty listing.
pub fn listed(reply: &Reply) -> (outcome: Result<Listing, StoreError>)
    ensures
        match outcome {
            Ok(listing) => {
                &&& *reply is Listed
                &&& listing.foods.deep_view() == decoded_foods(reply->rows.deep_view())
                &&& listing.rejected@ == rejected_rows(reply->rows.deep_view())
            },
            Err(error) => {
                &&& !(*reply is Listed)
                &&& error == if *reply is Unavailable {
                    StoreError::StorageUnavailable
                } else {
                    StoreError::StorageError
                }
            },
        },
{
    match reply {
        Reply::Listed { rows } => Ok(get_foods(rows)),
        Reply::Unavailable => Err(StoreError::StorageUnavailable),
        _ => Err(StoreError::StorageError),
    }
}

/// Every request that this module makes gives its statement as many
/// values as it takes; so does any request but one that stores a food whose
/// record has not the width of a record.
pub proof fn lemma_request_fits(request: RequestView)
    requires
        request is InsertFood ==> request->record.len() == crate::record::RECORD_WIDTH,
    ensures
        request.fits(),
{
}

} // verus!
