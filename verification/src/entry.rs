//! The dialogue that adds a diary entry and its foods.

use vstd::prelude::*;
use crate::clock::{is_timestamp, moment_text, timestamp_at, LAST_SECOND, TIMESTAMP_PATTERN};
use crate::session::{Action, ActionView, Event, EventView, Notice, Prompt};
use crate::sql::Statement;
use crate::store::{
    find_food_id, found, insert_entry, lookup_outcome, write_outcome, written, EntryFood, Request,
    RequestView, StoreError,
};
use crate::text::{folded, is_word, lowercased, read_input, trimmed, DONE};

verus! {

/// Where the dialogue that adds a diary entry stands.
#[derive(Debug, PartialEq, Eq)]
pub enum EntryState {
    /// The store is asked to hold the entry.
    Creating { timestamp: String },
    /// The user is asked for the name of a food.
    AwaitFood { entry_id: i64 },
    /// The store is asked for the food of that name.
    FindingFood { entry_id: i64, name: String },
    /// The user is asked for the weight eaten of the food.
    AwaitWeight { entry_id: i64, food_id: i64 },
    /// The store is asked to hold the food of the entry.
    Adding { entry_food: EntryFood },
    /// The dialogue is over.
    Done { result: Result<(), StoreError> },
}

/// What an `EntryState` stands for.
pub enum EntryStateView {
    Creating { timestamp: Seq<char> },
    AwaitFood { entry_id: i64 },
    FindingFood { entry_id: i64, name: Seq<char> },
    AwaitWeight { entry_id: i64, food_id: i64 },
    Adding { entry_food: EntryFood },
    Done { result: Result<(), StoreError> },
}

impl DeepView for EntryState {
    type V = EntryStateView;

    open spec fn deep_view(&self) -> EntryStateView {
        match self {
            EntryState::Creating { timestamp } => EntryStateView::Creating {
                timestamp: timestamp@,
            },
            EntryState::AwaitFood { entry_id } => EntryStateView::AwaitFood {
                entry_id: *entry_id,
            },
            EntryState::FindingFood { entry_id, name } => EntryStateView::FindingFood {
                entry_id: *entry_id,
                name: name@,
            },
            EntryState::AwaitWeight { entry_id, food_id } => EntryStateView::AwaitWeight {
                entry_id: *entry_id,
                food_id: *food_id,
            },
            EntryState::Adding { entry_food } => EntryStateView::Adding {
                entry_food: *entry_food,
            },
            EntryState::Done { result } => EntryStateView::Done { result: *result },
        }
    }
}

impl View for EntryState {
    type V = EntryStateView;

    open spec fn view(&self) -> EntryStateView {
        self.deep_view()
    }
}

/// One step of the dialogue: where it stands now, and what to tell the user
/// before going on.
pub struct EntryStep {
    pub state: EntryState,
    pub notice: Option<Notice>,
}

/// What the dialogue waits for in `state`.
pub open spec fn entry_pending(state: EntryStateView) -> ActionView {
    match state {
        EntryStateView::Creating { timestamp } => ActionView::Send {
            request: RequestView::InsertEntry { timestamp },
        },
        EntryStateView::AwaitFood { .. } => ActionView::ReadLine {
            prompt: Prompt::EntryFoodName,
        },
        EntryStateView::FindingFood { name, .. } => ActionView::Send {
            request: RequestView::FindFood { name },
        },
        EntryStateView::AwaitWeight { .. } => ActionView::ReadWeight {
            prompt: Prompt::WeightGrams,
        },
        EntryStateView::Adding { entry_food } => ActionView::Send {
            request: RequestView::AddEntryFood { entry_food },
        },
        EntryStateView::Done { result } => ActionView::Finish { result },
    }
}

/// Where the dialogue goes once the user has named a food of the entry
/// `entry_id`: `name` is the input and `key` its trimmed lower-case form.
/// The word `done` finishes the entry; any other name is looked up.
pub open spec fn entry_food_named(entry_id: i64, name: Seq<char>, key: Seq<char>) -> (
    EntryStateView,
    Option<Notice>,
) {
    if key == DONE@ {
        (EntryStateView::Done { result: Ok(()) }, Some(Notice::EntryAdded))
    } else {
        (EntryStateView::FindingFood { entry_id, name }, None)
    }
}

/// Where the dialogue goes from `state` on `event`, and what it tells the
/// user.
///
/// The entry is stored, and its foods are then taken one by one until the
/// user says `done`: a food that the store does not hold is asked for
/// again, and so is a weight that is no number. A store that is
/// unavailable, or that refuses a lookup, the entry or a food, ends the
/// dialogue with the error: a food that the entry already holds with
/// `StoreError::DuplicateIngredient`. An event that the state does not wait
/// for changes nothing.
pub open spec fn entry_next(state: EntryStateView, event: EventView) -> (
    EntryStateView,
    Option<Notice>,
) {
    match (state, event) {
        (EntryStateView::Creating { .. }, EventView::Reply(reply)) => match write_outcome(
            Statement::InsertEntry,
            reply,
        ) {
            Ok(entry_id) => (EntryStateView::AwaitFood { entry_id }, None),
            Err(error) => (EntryStateView::Done { result: Err(error) }, None),
        },
        (EntryStateView::AwaitFood { entry_id }, EventView::Line(line)) => entry_food_named(
            entry_id,
            trimmed(line),
            lowercased(trimmed(line)),
        ),
        (EntryStateView::FindingFood { entry_id, .. }, EventView::Reply(reply)) => {
            match lookup_outcome(reply) {
                Ok(Some(food_id)) => (EntryStateView::AwaitWeight { entry_id, food_id }, None),
                Ok(None) => (
                    EntryStateView::AwaitFood { entry_id },
                    Some(Notice::FoodItemNotFound),
                ),
                Err(error) => (EntryStateView::Done { result: Err(error) }, None),
            }
        },
        (EntryStateView::AwaitWeight { entry_id, food_id }, EventView::Weight(weight)) => {
            match weight {
                Some(weight_grams) => (
                    EntryStateView::Adding {
                        entry_food: EntryFood { entry_id, food_id, weight_grams },
                    },
                    None,
                ),
                None => (state, Some(Notice::InvalidEntryWeight)),
            }
        },
        (EntryStateView::Adding { entry_food }, EventView::Reply(reply)) => match write_outcome(
            Statement::AddEntryFood,
            reply,
        ) {
            Ok(_) => (
                EntryStateView::AwaitFood { entry_id: entry_food.entry_id },
                Some(Notice::IngredientAdded),
            ),
            Err(error) => (EntryStateView::Done { result: Err(error) }, None),
        },
        _ => (state, None),
    }
}

/// The state in which the dialogue for an entry made at `timestamp` begins.
pub fn add_entry_at(timestamp: String) -> (state: EntryState)
    ensures
        state@ == (EntryStateView::Creating { timestamp: timestamp@ }),
{
    EntryState::Creating { timestamp }
}

/// The state in which the dialogue begins for an entry made at the moment
/// that the clock reads as `seconds` since the beginning of 1970, in
/// universal time. There is none where the calendar does not reach that
/// moment; it reaches every moment up to the end of the year 9999.
pub fn add_entry_start(seconds: i64) -> (state: Option<EntryState>)
    ensures
        match state {
            Some(begun) => {
                &&& begun@ is Creating
                &&& moment_text(seconds, TIMESTAMP_PATTERN@) == Some(begun@->timestamp)
                &&& is_timestamp(begun@->timestamp)
            },
            None => moment_text(seconds, TIMESTAMP_PATTERN@) is None,
        },
        0 <= seconds <= LAST_SECOND ==> state is Some,
{
    match timestamp_at(seconds) {
        Some(timestamp) => Some(add_entry_at(timestamp)),
        None => None,
    }
}

/// What the dialogue waits for in `state`.
pub fn entry_action(state: &EntryState) -> (action: Action)
    ensures
        action@ == entry_pending(state@),
{
    match state {
        EntryState::Creating { timestamp } => Action::Send {
            request: insert_entry(timestamp.as_str()),
        },
        EntryState::AwaitFood { .. } => Action::ReadLine { prompt: Prompt::EntryFoodName },
        EntryState::FindingFood { name, .. } => Action::Send {
            request: find_food_id(name.as_str()),
        },
        EntryState::AwaitWeight { .. } => Action::ReadWeight { prompt: Prompt::WeightGrams },
        EntryState::Adding { entry_food } => Action::Send {
            request: Request::AddEntryFood { entry_food: *entry_food },
        },
        EntryState::Done { result } => Action::Finish { result: *result },
    }
}

/// The step that follows the naming of a food: `name` is the input and
/// `key` its trimmed lower-case form.
pub fn entry_food_entered(entry_id: i64, name: String, key: &str) -> (step: EntryStep)
    ensures
        (step.state@, step.notice) == entry_food_named(entry_id, name@, key@),
{
    if is_word(key, DONE) {
        EntryStep {
            state: EntryState::Done { result: Ok(()) },
            notice: Some(Notice::EntryAdded),
        }
    } else {
        EntryStep { state: EntryState::FindingFood { entry_id, name }, notice: None }
    }
}

/// One step of the dialogue that adds a diary entry and its foods: takes
/// the state and what happened, and gives the next state and what to tell
/// the user.
pub fn add_entry(state: EntryState, event: Event) -> (step: EntryStep)
    ensures
        (step.state@, step.notice) == entry_next(state@, event@),
{
    match state {
        EntryState::Creating { timestamp } => match event {
            Event::Reply(reply) => match written(Statement::InsertEntry, &reply) {
                Ok(entry_id) => EntryStep {
                    state: EntryState::AwaitFood { entry_id },
                    notice: None,
                },
                Err(error) => EntryStep {
                    state: EntryState::Done { result: Err(error) },
                    notice: None,
                },
            },
            _ => EntryStep { state: EntryState::Creating { timestamp }, notice: None },
        },
        EntryState::AwaitFood { entry_id } => match event {
            Event::Line(line) => {
                let name = read_input(line.as_str());
                let key = folded(line.as_str());
                entry_food_entered(entry_id, name, key.as_str())
            },
            _ => EntryStep { state: EntryState::AwaitFood { entry_id }, notice: None },
        },
        EntryState::FindingFood { entry_id, name } => match event {
            Event::Reply(reply) => match found(&reply) {
                Ok(Some(food_id)) => EntryStep {
                    state: EntryState::AwaitWeight { entry_id, food_id },
                    notice: None,
                },
                Ok(None) => EntryStep {
                    state: EntryState::AwaitFood { entry_id },
                    notice: Some(Notice::FoodItemNotFound),
                },
                Err(error) => EntryStep {
                    state: EntryState::Done { result: Err(error) },
                    notice: None,
                },
            },
            _ => EntryStep { state: EntryState::FindingFood { entry_id, name }, notice: None },
        },
        EntryState::AwaitWeight { entry_id, food_id } => match event {
            Event::Weight(Some(weight_grams)) => EntryStep {
                state: EntryState::Adding {
                    entry_food: EntryFood { entry_id, food_id, weight_grams },
                },
                notice: None,
            },
            Event::Weight(None) => EntryStep {
                state: EntryState::AwaitWeight { entry_id, food_id },
                notice: Some(Notice::InvalidEntryWeight),
            },
            _ => EntryStep { state: EntryState::AwaitWeight { entry_id, food_id }, notice: None },
        },
        EntryState::Adding { entry_food } => match event {
            Event::Reply(reply) => match written(Statement::AddEntryFood, &reply) {
                Ok(_) => EntryStep {
                    state: EntryState::AwaitFood { entry_id: entry_food.entry_id },
                    notice: Some(Notice::IngredientAdded),
                },
                Err(error) => EntryStep {
                    state: EntryState::Done { result: Err(error) },
                    notice: None,
                },
            },
            _ => EntryStep { state: EntryState::Adding { entry_food }, notice: None },
        },
        EntryState::Done { result } => EntryStep {
            state: EntryState::Done { result },
            notice: None,
        },
    }
}

} // verus!
