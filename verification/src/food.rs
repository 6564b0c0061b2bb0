//! Foods and recipes.

use vstd::prelude::*;
use crate::amount::Amount;
use crate::nutrients::{resolve_external_nutrients, resolved, ApiFood, NutrientMap};
use crate::store::StoreError;

verus! {

/// A food item: its unique name, its reference serving weight in grams, and
/// the amount of each nutrient in one serving.
pub struct Food {
    pub name: String,
    pub weight_grams: Amount,
    pub nutrients: NutrientMap,
}

/// What a `Food` stands for.
pub struct FoodView {
    pub name: Seq<char>,
    pub weight_grams: Amount,
    pub nutrients: Map<Seq<char>, Amount>,
}

impl DeepView for Food {
    type V = FoodView;

    open spec fn deep_view(&self) -> FoodView {
        FoodView { name: self.name@, weight_grams: self.weight_grams, nutrients: self.nutrients@ }
    }
}

impl View for Food {
    type V = FoodView;

    open spec fn view(&self) -> FoodView {
        self.deep_view()
    }
}

impl Food {
    /// A food with the given name, serving weight and nutrients.
    pub fn new(name: &str, weight_grams: Amount, nutrients: NutrientMap) -> (food: Food)
        ensures
            food@ == (FoodView { name: name@, weight_grams, nutrients: nutrients@ }),
    {
        Food { name: name.to_owned(), weight_grams, nutrients }
    }
}

/// What a candidate of the external source stands for as a food: its name,
/// its serving weight, and the sparse mapping that its facts resolve to.
pub open spec fn food_of(candidate: ApiFood) -> FoodView {
    FoodView {
        name: candidate.food_name@,
        weight_grams: candidate.serving_weight_grams,
        nutrients: resolved(candidate.full_nutrients@),
    }
}

impl Food {
    /// The food that a candidate of the external source describes. Facts
    /// whose code the catalog does not know are dropped.
    pub fn from_api(candidate: &ApiFood) -> (food: Food)
        ensures
            food@ == food_of(*candidate),
    {
        Food {
            name: candidate.food_name.clone(),
            weight_grams: candidate.serving_weight_grams,
            nutrients: resolve_external_nutrients(&candidate.full_nutrients),
        }
    }
}

impl Default for Food {
    /// The food without a name, a weight or nutrients.
    fn default() -> (food: Food)
        ensures
            food@ == (FoodView {
                name: Seq::<char>::empty(),
                weight_grams: Amount::zero(),
                nutrients: Map::<Seq<char>, Amount>::empty(),
            }),
    {
        Food { name: String::new(), weight_grams: Amount::zero(), nutrients: NutrientMap::new() }
    }
}

/// A recipe: its unique name and its ingredients in the order in which
/// they were added, each a food and the weight of it in grams.
pub struct Recipe {
    pub name: String,
    pub foods: Vec<Food>,
    pub weights: Vec<Amount>,
}

impl Recipe {
    /// Whether the recipe is well formed: every food has its weight, and no
    /// food is an ingredient twice.
    pub open spec fn wf(&self) -> bool {
        &&& self.foods@.len() == self.weights@.len()
        &&& forall|i: int, j: int|
            0 <= i < j < self.foods@.len() ==> self.foods@[i].name@ != self.foods@[j].name@
    }

    /// Whether the food of this name is an ingredient of the recipe.
    pub open spec fn holds(&self, food_name: Seq<char>) -> bool {
        exists|i: int| 0 <= i < self.foods@.len() && self.foods@[i].name@ == food_name
    }

    /// The recipe of this name without ingredients.
    pub fn new(name: &str) -> (recipe: Recipe)
        ensures
            recipe.wf(),
            recipe.name@ == name@,
            recipe.foods@.len() == 0,
    {
        Recipe { name: name.to_owned(), foods: Vec::new(), weights: Vec::new() }
    }

    /// The number of ingredients.
    pub fn len(&self) -> (n: usize)
        ensures
            n == self.foods@.len(),
    {
        self.foods.len()
    }

    /// Adds `weight_grams` of `food` as the last ingredient. A food that is
    /// an ingredient already is rejected, and the recipe stays as it is.
    pub fn add_ingredient(&mut self, food: Food, weight_grams: Amount) -> (added: Result<
        (),
        StoreError,
    >)
        requires
            old(self).wf(),
        ensures
            final(self).wf(),
            final(self).name == old(self).name,
            match added {
                Ok(_) => {
                    &&& !old(self).holds(food.name@)
                    &&& final(self).foods@ == old(self).foods@.push(food)
                    &&& final(self).weights@ == old(self).weights@.push(weight_grams)
                },
                Err(error) => {
                    &&& error == StoreError::DuplicateIngredient
                    &&& old(self).holds(food.name@)
                    &&& final(self).foods@ == old(self).foods@
                    &&& final(self).weights@ == old(self).weights@
                },
            },
    {
        let mut i: usize = 0;
        while i < self.foods.len()
            invariant
                i <= self.foods@.len(),
                *self == *old(self),
                self.wf(),
                forall|j: int| 0 <= j < i ==> self.foods@[j].name@ != food.name@,
            decreases self.foods@.len() - i,
        {
            if self.foods[i].name == food.name {
                return Err(StoreError::DuplicateIngredient);
            }
            i += 1;
        }
        self.foods.push(food);
        self.weights.push(weight_grams);
        Ok(())
    }
}

} // verus!
