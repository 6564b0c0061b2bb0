//! What the dialogues with the store have in common: what they ask and
//! tell the user, what they wait for, and what they are told.

use vstd::prelude::*;
use crate::amount::Amount;
use crate::store::{Reply, Request, RequestView, StoreError};

verus! {

// What the dialogues ask the user for.

pub const ASK_PANTRY_FOOD: &'static str = "Enter food name (or type 'exit' to cancel): ";

pub const ASK_PANTRY_WEIGHT: &'static str = "Weight grams: ";

pub const ASK_RECIPE_NAME: &'static str = "Enter recipe name: ";

pub const ASK_INGREDIENT: &'static str = "Enter food name for ingredient (or 'done' to finish): ";

pub const ASK_ENTRY_FOOD: &'static str = "Enter food name for entry (or 'done' to finish): ";

pub const ASK_WEIGHT: &'static str = "Enter weight in grams: ";

pub const ASK_QUERY: &'static str = "Enter a food item (or type 'exit' to quit): ";

// What the dialogues tell the user.

pub const CANCELLED: &'static str = "Operation cancelled by the user.";

pub const FOOD_NAME_NOT_FOUND: &'static str = "Food name not found. Please try again.";

pub const INVALID_WEIGHT: &'static str = "Invalid input for weight grams.";

pub const PANTRY_ITEM_ADDED: &'static str = "Pantry item added.";

pub const RECIPE_EXISTS: &'static str =
    "Recipe name already exists. Please enter a different name.";

pub const FOOD_ITEM_NOT_FOUND: &'static str = "Food item not found. Please try again.";

pub const INVALID_WEIGHT_AGAIN: &'static str =
    "Invalid input for weight grams. Please enter a valid number.";

pub const INGREDIENT_ADDED: &'static str = "Ingredient added.";

pub const RECIPE_ADDED: &'static str = "Recipe added.";

pub const INVALID_ENTRY_WEIGHT: &'static str = "Please enter a valid number for weight.";

pub const ENTRY_ADDED: &'static str = "Entry added.";

pub const FOOD_NOT_IN_DATABASE: &'static str = "Food not found in Nutritionix database.";

/// What a dialogue asks the user for.
#[derive(Clone, Copy, Debug, PartialEq, Eq, Structural)]
pub enum Prompt {
    PantryFoodName,
    PantryWeight,
    RecipeName,
    IngredientName,
    EntryFoodName,
    WeightGrams,
    FoodQuery,
}

impl Prompt {
    /// The words of the prompt.
    pub open spec fn words(self) -> Seq<char> {
        match self {
            Prompt::PantryFoodName => ASK_PANTRY_FOOD@,
            Prompt::PantryWeight => ASK_PANTRY_WEIGHT@,
            Prompt::RecipeName => ASK_RECIPE_NAME@,
            Prompt::IngredientName => ASK_INGREDIENT@,
            Prompt::EntryFoodName => ASK_ENTRY_FOOD@,
            Prompt::WeightGrams => ASK_WEIGHT@,
            Prompt::FoodQuery => ASK_QUERY@,
        }
    }

    /// The words of the prompt.
    pub fn text(self) -> (text: &'static str)
        ensures
            text@ == self.words(),
    {
        match self {
            Prompt::PantryFoodName => ASK_PANTRY_FOOD,
            Prompt::PantryWeight => ASK_PANTRY_WEIGHT,
            Prompt::RecipeName => ASK_RECIPE_NAME,
            Prompt::IngredientName => ASK_INGREDIENT,
            Prompt::EntryFoodName => ASK_ENTRY_FOOD,
            Prompt::WeightGrams => ASK_WEIGHT,
            Prompt::FoodQuery => ASK_QUERY,
        }
    }
}

/// What a dialogue tells the user.
#[derive(Clone, Copy, Debug, PartialEq, Eq, Structural)]
pub enum Notice {
    Cancelled,
    FoodNameNotFound,
    InvalidWeight,
    PantryItemAdded,
    RecipeExists,
    FoodItemNotFound,
    InvalidWeightAgain,
    IngredientAdded,
    RecipeAdded,
    InvalidEntryWeight,
    EntryAdded,
    FoodNotInDatabase,
}

impl Notice {
    /// The words of the notice.
    pub open spec fn words(self) -> Seq<char> {
        match self {
            Notice::Cancelled => CANCELLED@,
            Notice::FoodNameNotFound => FOOD_NAME_NOT_FOUND@,
            Notice::InvalidWeight => INVALID_WEIGHT@,
            Notice::PantryItemAdded => PANTRY_ITEM_ADDED@,
            Notice::RecipeExists => RECIPE_EXISTS@,
            Notice::FoodItemNotFound => FOOD_ITEM_NOT_FOUND@,
            Notice::InvalidWeightAgain => INVALID_WEIGHT_AGAIN@,
            Notice::IngredientAdded => INGREDIENT_ADDED@,
            Notice::RecipeAdded => RECIPE_ADDED@,
            Notice::InvalidEntryWeight => INVALID_ENTRY_WEIGHT@,
            Notice::EntryAdded => ENTRY_ADDED@,
            Notice::FoodNotInDatabase => FOOD_NOT_IN_DATABASE@,
        }
    }

    /// The words of the notice.
    pub fn text(self) -> (text: &'static str)
        ensures
            text@ == self.words(),
    {
        match self {
            Notice::Cancelled => CANCELLED,
            Notice::FoodNameNotFound => FOOD_NAME_NOT_FOUND,
            Notice::InvalidWeight => INVALID_WEIGHT,
            Notice::PantryItemAdded => PANTRY_ITEM_ADDED,
            Notice::RecipeExists => RECIPE_EXISTS,
            Notice::FoodItemNotFound => FOOD_ITEM_NOT_FOUND,
            Notice::InvalidWeightAgain => INVALID_WEIGHT_AGAIN,
            Notice::IngredientAdded => INGREDIENT_ADDED,
            Notice::RecipeAdded => RECIPE_ADDED,
            Notice::InvalidEntryWeight => INVALID_ENTRY_WEIGHT,
            Notice::EntryAdded => ENTRY_ADDED,
            Notice::FoodNotInDatabase => FOOD_NOT_IN_DATABASE,
        }
    }
}

/// What happened outside a dialogue with the store since its last step.
#[derive(Clone, Debug, PartialEq, Eq)]
pub enum Event {
    /// The user entered this line.
    Line(String),
    /// The user entered a weight: the number that the line reads as, if it
    /// reads as one.
    Weight(Option<Amount>),
    /// The store replied.
    Reply(Reply),
}

/// What an `Event` stands for.
pub enum EventView {
    Line(Seq<char>),
    Weight(Option<Amount>),
    Reply(Reply),
}

impl DeepView for Event {
    type V = EventView;

    open spec fn deep_view(&self) -> EventView {
        match self {
            Event::Line(line) => EventView::Line(line@),
            Event::Weight(weight) => EventView::Weight(*weight),
            Event::Reply(reply) => EventView::Reply(*reply),
        }
    }
}

impl View for Event {
    type V = EventView;

    open spec fn view(&self) -> EventView {
        self.deep_view()
    }
}

/// What a dialogue with the store waits for: the one who runs it does this
/// and hands back the event that comes of it.
#[derive(Debug, PartialEq, Eq)]
pub enum Action {
    /// Show the prompt and read a line: `Event::Line`.
    ReadLine { prompt: Prompt },
    /// Show the prompt, read a line and read it as a number: `Event::Weight`.
    ReadWeight { prompt: Prompt },
    /// Send the request to the store: `Event::Reply`.
    Send { request: Request },
    /// The dialogue is over, with this result.
    Finish { result: Result<(), StoreError> },
}

/// What an `Action` stands for.
pub enum ActionView {
    ReadLine { prompt: Prompt },
    ReadWeight { prompt: Prompt },
    Send { request: RequestView },
    Finish { result: Result<(), StoreError> },
}

impl DeepView for Action {
    type V = ActionView;

    open spec fn deep_view(&self) -> ActionView {
        match self {
            Action::ReadLine { prompt } => ActionView::ReadLine { prompt: *prompt },
            Action::ReadWeight { prompt } => ActionView::ReadWeight { prompt: *prompt },
            Action::Send { request } => ActionView::Send { request: request@ },
            Action::Finish { result } => ActionView::Finish { result: *result },
        }
    }
}

impl View for Action {
    type V = ActionView;

    open spec fn view(&self) -> ActionView {
        self.deep_view()
    }
}

} // verus!
