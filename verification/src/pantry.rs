//! The dialogue that adds a pantry item.

use vstd::prelude::*;
use crate::session::{Action, ActionView, Event, EventView, Notice, Prompt};
use crate::sql::Statement;
use crate::store::{
    find_food_id, found, lookup_outcome, write_outcome, written, PantryItem, Request, RequestView,
    StoreError,
};
use crate::text::{folded, is_word, lowercased, read_input, trimmed, EXIT};

verus! {

/// Where the dialogue that adds a pantry item stands.
#[derive(Debug, PartialEq, Eq)]
pub enum PantryState {
    /// The user is asked for the name of a food.
    AwaitName,
    /// The store is asked for the food of that name.
    FindingFood { name: String },
    /// The user is asked for the weight acquired of the food.
    AwaitWeight { food_id: i64 },
    /// The store is asked to hold the item.
    Storing { item: PantryItem },
    /// The dialogue is over.
    Done { result: Result<(), StoreError> },
}

/// What a `PantryState` stands for.
pub enum PantryStateView {
    AwaitName,
    FindingFood { name: Seq<char> },
    AwaitWeight { food_id: i64 },
    Storing { item: PantryItem },
    Done { result: Result<(), StoreError> },
}

impl DeepView for PantryState {
    type V = PantryStateView;

    open spec fn deep_view(&self) -> PantryStateView {
        match self {
            PantryState::AwaitName => PantryStateView::AwaitName,
            PantryState::FindingFood { name } => PantryStateView::FindingFood { name: name@ },
            PantryState::AwaitWeight { food_id } => PantryStateView::AwaitWeight {
                food_id: *food_id,
            },
            PantryState::Storing { item } => PantryStateView::Storing { item: *item },
            PantryState::Done { result } => PantryStateView::Done { result: *result },
        }
    }
}

impl View for PantryState {
    type V = PantryStateView;

    open spec fn view(&self) -> PantryStateView {
        self.deep_view()
    }
}

/// One step of the dialogue: where it stands now, and what to tell the user
/// before going on.
pub struct PantryStep {
    pub state: PantryState,
    pub notice: Option<Notice>,
}

/// What the dialogue waits for in `state`.
pub open spec fn pantry_pending(state: PantryStateView) -> ActionView {
    match state {
        PantryStateView::AwaitName => ActionView::ReadLine { prompt: Prompt::PantryFoodName },
        PantryStateView::FindingFood { name } => ActionView::Send {
            request: RequestView::FindFood { name },
        },
        PantryStateView::AwaitWeight { .. } => ActionView::ReadWeight {
            prompt: Prompt::PantryWeight,
        },
        PantryStateView::Storing { item } => ActionView::Send {
            request: RequestView::InsertPantryItem { item },
        },
        PantryStateView::Done { result } => ActionView::Finish { result },
    }
}

/// Where the dialogue goes once the user has named a food: `name` is the
/// input and `key` its trimmed lower-case form. The word `exit` cancels;
/// any other name is looked up.
pub open spec fn pantry_named(name: Seq<char>, key: Seq<char>) -> (
    PantryStateView,
    Option<Notice>,
) {
    if key == EXIT@ {
        (PantryStateView::Done { result: Ok(()) }, Some(Notice::Cancelled))
    } else {
        (PantryStateView::FindingFood { name }, None)
    }
}

/// Where the dialogue goes from `state` on `event`, and what it tells the
/// user.
///
/// A name that is not `exit` is looked up; a food that the store does not
/// hold is asked for again, and so is a weight that is no number; a weight
/// that is one is stored as an item of which all remains. A store that is
/// unavailable, or that refuses the lookup or the item, ends the dialogue
/// with the error. An event that the state does not wait for changes
/// nothing.
pub open spec fn pantry_next(state: PantryStateView, event: EventView) -> (
    PantryStateView,
    Option<Notice>,
) {
    match (state, event) {
        (PantryStateView::AwaitName, EventView::Line(line)) => pantry_named(
            trimmed(line),
            lowercased(trimmed(line)),
        ),
        (PantryStateView::FindingFood { .. }, EventView::Reply(reply)) => match lookup_outcome(
            reply,
        ) {
            Ok(Some(food_id)) => (PantryStateView::AwaitWeight { food_id }, None),
            Ok(None) => (PantryStateView::AwaitName, Some(Notice::FoodNameNotFound)),
            Err(error) => (PantryStateView::Done { result: Err(error) }, None),
        },
        (PantryStateView::AwaitWeight { food_id }, EventView::Weight(weight)) => match weight {
            Some(weight_grams) => (
                PantryStateView::Storing {
                    item: PantryItem {
                        food_id,
                        weight_grams,
                        weight_grams_remaining: weight_grams,
                    },
                },
                None,
            ),
            None => (state, Some(Notice::InvalidWeight)),
        },
        (PantryStateView::Storing { .. }, EventView::Reply(reply)) => match write_outcome(
            Statement::InsertPantryItem,
            reply,
        ) {
            Ok(_) => (PantryStateView::Done { result: Ok(()) }, Some(Notice::PantryItemAdded)),
            Err(error) => (PantryStateView::Done { result: Err(error) }, None),
        },
        _ => (state, None),
    }
}

/// The state in which the dialogue begins.
pub fn add_pantry_item_start() -> (state: PantryState)
    ensures
        state@ == PantryStateView::AwaitName,
{
    PantryState::AwaitName
}

/// What the dialogue waits for in `state`.
pub fn pantry_action(state: &PantryState) -> (action: Action)
    ensures
        action@ == pantry_pending(state@),
{
    match state {
        PantryState::AwaitName => Action::ReadLine { prompt: Prompt::PantryFoodName },
        PantryState::FindingFood { name } => Action::Send { request: find_food_id(name.as_str()) },
        PantryState::AwaitWeight { .. } => Action::ReadWeight { prompt: Prompt::PantryWeight },
        PantryState::Storing { item } => Action::Send {
            request: Request::InsertPantryItem { item: *item },
        },
        PantryState::Done { result } => Action::Finish { result: *result },
    }
}

/// The step that follows the naming of a food: `name` is the input and
/// `key` its trimmed lower-case form.
pub fn pantry_name_entered(name: String, key: &str) -> (step: PantryStep)
    ensures
        (step.state@, step.notice) == pantry_named(name@, key@),
{
    if is_word(key, EXIT) {
        PantryStep { state: PantryState::Done { result: Ok(()) }, notice: Some(Notice::Cancelled) }
    } else {
        PantryStep { state: PantryState::FindingFood { name }, notice: None }
    }
}

/// One step of the dialogue that adds a pantry item: takes the state and
/// what happened, and gives the next state and what to tell the user.
pub fn add_pantry_item(state: PantryState, event: Event) -> (step: PantryStep)
    ensures
        (step.state@, step.notice) == pantry_next(state@, event@),
{
    match state {
        PantryState::AwaitName => match event {
            Event::Line(line) => {
                let name = read_input(line.as_str());
                let key = folded(line.as_str());
                pantry_name_entered(name, key.as_str())
            },
            _ => PantryStep { state: PantryState::AwaitName, notice: None },
        },
        PantryState::FindingFood { name } => match event {
            Event::Reply(reply) => match found(&reply) {
                Ok(Some(food_id)) => PantryStep {
                    state: PantryState::AwaitWeight { food_id },
                    notice: None,
                },
                Ok(None) => PantryStep {
                    state: PantryState::AwaitName,
                    notice: Some(Notice::FoodNameNotFound),
                },
                Err(error) => PantryStep {
                    state: PantryState::Done { result: Err(error) },
                    notice: None,
                },
            },
            _ => PantryStep { state: PantryState::FindingFood { name }, notice: None },
        },
        PantryState::AwaitWeight { food_id } => match event {
            Event::Weight(Some(weight_grams)) => PantryStep {
                state: PantryState::Storing { item: PantryItem::new(food_id, weight_grams) },
                notice: None,
            },
            Event::Weight(None) => PantryStep {
                state: PantryState::AwaitWeight { food_id },
                notice: Some(Notice::InvalidWeight),
            },
            _ => PantryStep { state: PantryState::AwaitWeight { food_id }, notice: None },
        },
        PantryState::Storing { item } => match event {
            Event::Reply(reply) => match written(Statement::InsertPantryItem, &reply) {
                Ok(_) => PantryStep {
                    state: PantryState::Done { result: Ok(()) },
                    notice: Some(Notice::PantryItemAdded),
                },
                Err(error) => PantryStep {
                    state: PantryState::Done { result: Err(error) },
                    notice: None,
                },
            },
            _ => PantryStep { state: PantryState::Storing { item }, notice: None },
        },
        PantryState::Done { result } => PantryStep {
            state: PantryState::Done { result },
            notice: None,
        },
    }
}

} // verus!
