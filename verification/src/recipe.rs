//! The dialogue that adds a recipe and its ingredients.

use vstd::prelude::*;
use crate::session::{Action, ActionView, Event, EventView, Notice, Prompt};
use crate::sql::Statement;
use crate::store::{
    find_food_id, find_recipe_id, found, insert_recipe, lookup_outcome, write_outcome, written,
    Ingredient, Request, RequestView, StoreError,
};
use crate::text::{folded, is_word, lowercased, read_input, trimmed, DONE};

verus! {

/// Where the dialogue that adds a recipe stands.
#[derive(Debug, PartialEq, Eq)]
pub enum RecipeState {
    /// The user is asked for the name of the recipe.
    AwaitName,
    /// The store is asked whether it holds a recipe of that name.
    Checking { name: String },
    /// The store is asked to hold the recipe.
    Creating { name: String },
    /// The user is asked for the name of an ingredient.
    AwaitFood { recipe_id: i64 },
    /// The store is asked for the food of that name.
    FindingFood { recipe_id: i64, name: String },
    /// The user is asked for the weight of the ingredient.
    AwaitWeight { recipe_id: i64, food_id: i64 },
    /// The store is asked to hold the ingredient.
    Adding { ingredient: Ingredient },
    /// The dialogue is over.
    Done { result: Result<(), StoreError> },
}

/// What a `RecipeState` stands for.
pub enum RecipeStateView {
    AwaitName,
    Checking { name: Seq<char> },
    Creating { name: Seq<char> },
    AwaitFood { recipe_id: i64 },
    FindingFood { recipe_id: i64, name: Seq<char> },
    AwaitWeight { recipe_id: i64, food_id: i64 },
    Adding { ingredient: Ingredient },
    Done { result: Result<(), StoreError> },
}

impl DeepView for RecipeState {
    type V = RecipeStateView;

    open spec fn deep_view(&self) -> RecipeStateView {
        match self {
            RecipeState::AwaitName => RecipeStateView::AwaitName,
            RecipeState::Checking { name } => RecipeStateView::Checking { name: name@ },
            RecipeState::Creating { name } => RecipeStateView::Creating { name: name@ },
            RecipeState::AwaitFood { recipe_id } => RecipeStateView::AwaitFood {
                recipe_id: *recipe_id,
            },
            RecipeState::FindingFood { recipe_id, name } => RecipeStateView::FindingFood {
                recipe_id: *recipe_id,
                name: name@,
            },
            RecipeState::AwaitWeight { recipe_id, food_id } => RecipeStateView::AwaitWeight {
                recipe_id: *recipe_id,
                food_id: *food_id,
            },
            RecipeState::Adding { ingredient } => RecipeStateView::Adding {
                ingredient: *ingredient,
            },
            RecipeState::Done { result } => RecipeStateView::Done { result: *result },
        }
    }
}

impl View for RecipeState {
    type V = RecipeStateView;

    open spec fn view(&self) -> RecipeStateView {
        self.deep_view()
    }
}

/// One step of the dialogue: where it stands now, and what to tell the user
/// before going on.
pub struct RecipeStep {
    pub state: RecipeState,
    pub notice: Option<Notice>,
}

/// What the dialogue waits for in `state`.
pub open spec fn recipe_pending(state: RecipeStateView) -> ActionView {
    match state {
        RecipeStateView::AwaitName => ActionView::ReadLine { prompt: Prompt::RecipeName },
        RecipeStateView::Checking { name } => ActionView::Send {
            request: RequestView::FindRecipe { name },
        },
        RecipeStateView::Creating { name } => ActionView::Send {
            request: RequestView::InsertRecipe { name },
        },
        RecipeStateView::AwaitFood { .. } => ActionView::ReadLine {
            prompt: Prompt::IngredientName,
        },
        RecipeStateView::FindingFood { name, .. } => ActionView::Send {
            request: RequestView::FindFood { name },
        },
        RecipeStateView::AwaitWeight { .. } => ActionView::ReadWeight {
            prompt: Prompt::WeightGrams,
        },
        RecipeStateView::Adding { ingredient } => ActionView::Send {
            request: RequestView::AddRecipeIngredient { ingredient },
        },
        RecipeStateView::Done { result } => ActionView::Finish { result },
    }
}

/// Where the dialogue goes once the user has named an ingredient of the
/// recipe `recipe_id`: `name` is the input and `key` its trimmed lower-case
/// form. The word `done` finishes the recipe; any other name is looked up.
pub open spec fn recipe_food_named(recipe_id: i64, name: Seq<char>, key: Seq<char>) -> (
    RecipeStateView,
    Option<Notice>,
) {
    if key == DONE@ {
        (RecipeStateView::Done { result: Ok(()) }, Some(Notice::RecipeAdded))
    } else {
        (RecipeStateView::FindingFood { recipe_id, name }, None)
    }
}

/// Where the dialogue goes from `state` on `event`, and what it tells the
/// user.
///
/// A recipe whose name the store already holds is not made again: the
/// dialogue ends with `StoreError::DuplicateName`. A new one is stored, and
/// ingredients are then taken one by one until the user says `done`: a food
/// that the store does not hold is asked for again, and so is a weight that
/// is no number. A store that is unavailable, or that refuses a lookup, the
/// recipe or an ingredient, ends the dialogue with the error: a second
/// ingredient of the same food with `StoreError::DuplicateIngredient`. An
/// event that the state does not wait for changes nothing.
pub open spec fn recipe_next(state: RecipeStateView, event: EventView) -> (
    RecipeStateView,
    Option<Notice>,
) {
    match (state, event) {
        (RecipeStateView::AwaitName, EventView::Line(line)) => (
            RecipeStateView::Checking { name: trimmed(line) },
            None,
        ),
        (RecipeStateView::Checking { name }, EventView::Reply(reply)) => match lookup_outcome(
            reply,
        ) {
            Ok(Some(_)) => (
                RecipeStateView::Done { result: Err(StoreError::DuplicateName) },
                Some(Notice::RecipeExists),
            ),
            Ok(None) => (RecipeStateView::Creating { name }, None),
            Err(error) => (RecipeStateView::Done { result: Err(error) }, None),
        },
        (RecipeStateView::Creating { .. }, EventView::Reply(reply)) => match write_outcome(
            Statement::InsertRecipe,
            reply,
        ) {
            Ok(recipe_id) => (RecipeStateView::AwaitFood { recipe_id }, None),
            Err(error) => (RecipeStateView::Done { result: Err(error) }, None),
        },
        (RecipeStateView::AwaitFood { recipe_id }, EventView::Line(line)) => recipe_food_named(
            recipe_id,
            trimmed(line),
            lowercased(trimmed(line)),
        ),
        (RecipeStateView::FindingFood { recipe_id, .. }, EventView::Reply(reply)) => {
            match lookup_outcome(reply) {
                Ok(Some(food_id)) => (RecipeStateView::AwaitWeight { recipe_id, food_id }, None),
                Ok(None) => (
                    RecipeStateView::AwaitFood { recipe_id },
                    Some(Notice::FoodItemNotFound),
                ),
                Err(error) => (RecipeStateView::Done { result: Err(error) }, None),
            }
        },
        (RecipeStateView::AwaitWeight { recipe_id, food_id }, EventView::Weight(weight)) => {
            match weight {
                Some(weight_grams) => (
                    RecipeStateView::Adding {
                        ingredient: Ingredient { recipe_id, food_id, weight_grams },
                    },
                    None,
                ),
                None => (state, Some(Notice::InvalidWeightAgain)),
            }
        },
        (RecipeStateView::Adding { ingredient }, EventView::Reply(reply)) => match write_outcome(
            Statement::AddRecipeIngredient,
            reply,
        ) {
            Ok(_) => (
                RecipeStateView::AwaitFood { recipe_id: ingredient.recipe_id },
                Some(Notice::IngredientAdded),
            ),
            Err(error) => (RecipeStateView::Done { result: Err(error) }, None),
        },
        _ => (state, None),
    }
}

/// The state in which the dialogue begins.
pub fn add_recipe_start() -> (state: RecipeState)
    ensures
        state@ == RecipeStateView::AwaitName,
{
    RecipeState::AwaitName
}

/// What the dialogue waits for in `state`.
pub fn recipe_action(state: &RecipeState) -> (action: Action)
    ensures
        action@ == recipe_pending(state@),
{
    match state {
        RecipeState::AwaitName => Action::ReadLine { prompt: Prompt::RecipeName },
        RecipeState::Checking { name } => Action::Send { request: find_recipe_id(name.as_str()) },
        RecipeState::Creating { name } => Action::Send { request: insert_recipe(name.as_str()) },
        RecipeState::AwaitFood { .. } => Action::ReadLine { prompt: Prompt::IngredientName },
        RecipeState::FindingFood { name, .. } => Action::Send {
            request: find_food_id(name.as_str()),
        },
        RecipeState::AwaitWeight { .. } => Action::ReadWeight { prompt: Prompt::WeightGrams },
        RecipeState::Adding { ingredient } => Action::Send {
            request: Request::AddRecipeIngredient { ingredient: *ingredient },
        },
        RecipeState::Done { result } => Action::Finish { result: *result },
    }
}

/// The step that follows the naming of an ingredient: `name` is the input
/// and `key` its trimmed lower-case form.
pub fn recipe_food_entered(recipe_id: i64, name: String, key: &str) -> (step: RecipeStep)
    ensures
        (step.state@, step.notice) == recipe_food_named(recipe_id, name@, key@),
{
    if is_word(key, DONE) {
        RecipeStep {
            state: RecipeState::Done { result: Ok(()) },
            notice: Some(Notice::RecipeAdded),
        }
    } else {
        RecipeStep { state: RecipeState::FindingFood { recipe_id, name }, notice: None }
    }
}

/// One step of the dialogue that adds a recipe and its ingredients: takes
/// the state and what happened, and gives the next state and what to tell
/// the user.
pub fn add_recipe(state: RecipeState, event: Event) -> (step: RecipeStep)
    ensures
        (step.state@, step.notice) == recipe_next(state@, event@),
{
    match state {
        RecipeState::AwaitName => match event {
            Event::Line(line) => RecipeStep {
                state: RecipeState::Checking { name: read_input(line.as_str()) },
                notice: None,
            },
            _ => RecipeStep { state: RecipeState::AwaitName, notice: None },
        },
        RecipeState::Checking { name } => match event {
            Event::Reply(reply) => match found(&reply) {
                Ok(Some(_)) => RecipeStep {
                    state: RecipeState::Done { result: Err(StoreError::DuplicateName) },
                    notice: Some(Notice::RecipeExists),
                },
                Ok(None) => RecipeStep { state: RecipeState::Creating { name }, notice: None },
                Err(error) => RecipeStep {
                    state: RecipeState::Done { result: Err(error) },
                    notice: None,
                },
            },
            _ => RecipeStep { state: RecipeState::Checking { name }, notice: None },
        },
        RecipeState::Creating { name } => match event {
            Event::Reply(reply) => match written(Statement::InsertRecipe, &reply) {
                Ok(recipe_id) => RecipeStep {
                    state: RecipeState::AwaitFood { recipe_id },
                    notice: None,
                },
                Err(error) => RecipeStep {
                    state: RecipeState::Done { result: Err(error) },
                    notice: None,
                },
            },
            _ => RecipeStep { state: RecipeState::Creating { name }, notice: None },
        },
        RecipeState::AwaitFood { recipe_id } => match event {
            Event::Line(line) => {
                let name = read_input(line.as_str());
                let key = folded(line.as_str());
                recipe_food_entered(recipe_id, name, key.as_str())
            },
            _ => RecipeStep { state: RecipeState::AwaitFood { recipe_id }, notice: None },
        },
        RecipeState::FindingFood { recipe_id, name } => match event {
            Event::Reply(reply) => match found(&reply) {
                Ok(Some(food_id)) => RecipeStep {
                    state: RecipeState::AwaitWeight { recipe_id, food_id },
                    notice: None,
                },
                Ok(None) => RecipeStep {
                    state: RecipeState::AwaitFood { recipe_id },
                    notice: Some(Notice::FoodItemNotFound),
                },
                Err(error) => RecipeStep {
                    state: RecipeState::Done { result: Err(error) },
                    notice: None,
                },
            },
            _ => RecipeStep { state: RecipeState::FindingFood { recipe_id, name }, notice: None },
        },
        RecipeState::AwaitWeight { recipe_id, food_id } => match event {
            Event::Weight(Some(weight_grams)) => RecipeStep {
                state: RecipeState::Adding {
                    ingredient: Ingredient { recipe_id, food_id, weight_grams },
                },
                notice: None,
            },
            Event::Weight(None) => RecipeStep {
                state: RecipeState::AwaitWeight { recipe_id, food_id },
                notice: Some(Notice::InvalidWeightAgain),
            },
            _ => RecipeStep {
                state: RecipeState::AwaitWeight { recipe_id, food_id },
                notice: None,
            },
        },
        RecipeState::Adding { ingredient } => match event {
            Event::Reply(reply) => match written(Statement::AddRecipeIngredient, &reply) {
                Ok(_) => RecipeStep {
                    state: RecipeState::AwaitFood { recipe_id: ingredient.recipe_id },
                    notice: Some(Notice::IngredientAdded),
                },
                Err(error) => RecipeStep {
                    state: RecipeState::Done { result: Err(error) },
                    notice: None,
                },
            },
            _ => RecipeStep { state: RecipeState::Adding { ingredient }, notice: None },
        },
        RecipeState::Done { result } => RecipeStep {
            state: RecipeState::Done { result },
            notice: None,
        },
    }
}

} // verus!
