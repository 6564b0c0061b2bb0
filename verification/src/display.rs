//! Texts that are shown for foods.

use vstd::prelude::*;
use vstd::string::StringExecFns;
use crate::food::Food;

verus! {

/// What comes before the name of the food that is chosen.
pub const SELECTED_FOOD: &'static str = "Selected food: ";

/// What is shown where no food is chosen.
pub const NO_FOOD_SELECTED: &'static str = "No food selected";

/// What is shown for the food chosen from a list: its name, or that none is
/// chosen where `index` is past the end of the list.
pub open spec fn selection_label(foods: Seq<Food>, index: int) -> Seq<char> {
    if 0 <= index < foods.len() {
        SELECTED_FOOD@ + foods[index].name@
    } else {
        NO_FOOD_SELECTED@
    }
}

/// The label for the food at `index` of a list of foods.
pub fn selected_food_label(foods: &Vec<Food>, index: usize) -> (label: String)
    ensures
        label@ == selection_label(foods@, index as int),
{
    if index < foods.len() {
        let mut label = String::from_str(SELECTED_FOOD);
        label.append(foods[index].name.as_str());
        label
    } else {
        String::from_str(NO_FOOD_SELECTED)
    }
}

} // verus!
