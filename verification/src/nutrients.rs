//! Nutrient mappings, and the facts of the external nutrient source that
//! they are made from.

use vstd::prelude::*;
use vstd::hash_map::StringHashMap;
use crate::amount::Amount;
use crate::catalog::{code_to_name, is_catalog_name, name_of_code};

verus! {

/// A mapping from nutrient name to amount per serving. It is sparse where it
/// holds only the nutrients that were reported, and dense where it holds
/// every catalog nutrient.
pub struct NutrientMap {
    amounts: StringHashMap<Amount>,
}

impl View for NutrientMap {
    type V = Map<Seq<char>, Amount>;

    closed spec fn view(&self) -> Map<Seq<char>, Amount> {
        self.amounts@
    }
}

/// The amount that a mapping gives for `name`: the one it holds, or zero
/// where it holds none.
pub open spec fn amount_or_zero(amounts: Map<Seq<char>, Amount>, name: Seq<char>) -> Amount {
    if amounts.contains_key(name) {
        amounts[name]
    } else {
        Amount::zero()
    }
}

/// Whether a mapping holds an amount for every catalog nutrient and for
/// nothing else.
pub open spec fn is_dense(amounts: Map<Seq<char>, Amount>) -> bool {
    forall|name: Seq<char>| amounts.contains_key(name) <==> is_catalog_name(name)
}

impl NutrientMap {
    /// The empty mapping.
    pub fn new() -> (map: NutrientMap)
        ensures
            map@ == Map::<Seq<char>, Amount>::empty(),
    {
        NutrientMap { amounts: StringHashMap::new() }
    }

    /// Sets the amount of `name`, replacing an earlier one.
    pub fn insert(&mut self, name: &str, amount: Amount)
        ensures
            final(self)@ == old(self)@.insert(name@, amount),
    {
        self.amounts.insert(name.to_owned(), amount);
    }

    /// The amount held for `name`, if any.
    pub fn get(&self, name: &str) -> (found: Option<Amount>)
        ensures
            found == if self@.contains_key(name@) {
                Some(self@[name@])
            } else {
                None::<Amount>
            },
    {
        match self.amounts.get(name) {
            Some(amount) => Some(*amount),
            None => None,
        }
    }

    /// The amount held for `name`, or zero where none is held.
    pub fn get_or_zero(&self, name: &str) -> (amount: Amount)
        ensures
            amount == amount_or_zero(self@, name@),
    {
        match self.amounts.get(name) {
            Some(amount) => *amount,
            None => Amount::zero(),
        }
    }

    /// Whether an amount is held for `name`.
    pub fn contains(&self, name: &str) -> (held: bool)
        ensures
            held == self@.contains_key(name@),
    {
        self.amounts.contains_key(name)
    }

    /// The number of nutrients held.
    pub fn len(&self) -> (n: usize)
        ensures
            n == self@.len(),
    {
        self.amounts.len()
    }
}

/// One nutrient fact as the external source reports it: the source's numeric
/// code and the amount per serving.
#[derive(Clone, Copy, Debug)]
pub struct Nutrient {
    pub attr_id: u32,
    pub value: Amount,
}

/// One candidate food as the external source reports it.
#[derive(Clone, Debug)]
pub struct ApiFood {
    pub food_name: String,
    pub serving_weight_grams: Amount,
    pub full_nutrients: Vec<Nutrient>,
}

/// The external source's answer to one query.
#[derive(Clone, Debug)]
pub struct NutritionxResponse {
    pub foods: Vec<ApiFood>,
}

/// The mapping that a list of reported facts resolves to: each fact with a
/// known code sets the amount of the nutrient it names, a later fact
/// replacing an earlier one; a fact with an unknown code sets nothing.
pub open spec fn resolved(facts: Seq<Nutrient>) -> Map<Seq<char>, Amount>
    decreases facts.len(),
{
    if facts.len() == 0 {
        Map::empty()
    } else {
        let earlier = resolved(facts.drop_last());
        match name_of_code(facts.last().attr_id) {
            Some(name) => earlier.insert(name, facts.last().value),
            None => earlier,
        }
    }
}

/// A name is in the resolved mapping exactly if some fact's code resolves to
/// it, and every name in it is a catalog name.
pub proof fn lemma_resolved_names(facts: Seq<Nutrient>, name: Seq<char>)
    ensures
        resolved(facts).contains_key(name) <==> exists|i: int|
            0 <= i < facts.len() && name_of_code(#[trigger] facts[i].attr_id) == Some(name),
        resolved(facts).contains_key(name) ==> is_catalog_name(name),
    decreases facts.len(),
{
    if facts.len() > 0 {
        let earlier = facts.drop_last();
        lemma_resolved_names(earlier, name);
        if resolved(facts).contains_key(name) {
            if name_of_code(facts.last().attr_id) == Some(name) {
                assert(name_of_code(facts[facts.len() - 1].attr_id) == Some(name));
            } else {
                let i = choose|i: int|
                    0 <= i < earlier.len() && name_of_code(#[trigger] earlier[i].attr_id) == Some(
                        name,
                    );
                assert(name_of_code(facts[i].attr_id) == Some(name));
            }
        }
        if exists|i: int|
            0 <= i < facts.len() && name_of_code(#[trigger] facts[i].attr_id) == Some(name) {
            let i = choose|i: int|
                0 <= i < facts.len() && name_of_code(#[trigger] facts[i].attr_id) == Some(name);
            if i < facts.len() - 1 {
                assert(name_of_code(earlier[i].attr_id) == Some(name));
            }
        }
    }
}

/// The resolved mapping gives each name the amount of the last fact whose
/// code resolves to it.
pub proof fn lemma_resolved_amount(facts: Seq<Nutrient>, i: int)
    requires
        0 <= i < facts.len(),
        name_of_code(facts[i].attr_id) is Some,
        forall|j: int|
            i < j < facts.len() ==> name_of_code(#[trigger] facts[j].attr_id) != name_of_code(
                facts[i].attr_id,
            ),
    ensures
        resolved(facts).contains_key(name_of_code(facts[i].attr_id)->0),
        resolved(facts)[name_of_code(facts[i].attr_id)->0] == facts[i].value,
    decreases facts.len(),
{
    let earlier = facts.drop_last();
    if i < facts.len() - 1 {
        assert(earlier[i] == facts[i]);
        assert forall|j: int| i < j < earlier.len() implies name_of_code(
            #[trigger] earlier[j].attr_id,
        ) != name_of_code(earlier[i].attr_id) by {
            assert(earlier[j] == facts[j]);
        }
        lemma_resolved_amount(earlier, i);
        assert(name_of_code(facts[facts.len() - 1].attr_id) != name_of_code(facts[i].attr_id));
    }
}

/// The codes that the catalog does not know among those of the facts, in
/// the order of the facts and as often as they occur.
pub open spec fn unknown(facts: Seq<Nutrient>) -> Seq<u32>
    decreases facts.len(),
{
    if facts.len() == 0 {
        Seq::empty()
    } else {
        let earlier = unknown(facts.drop_last());
        if name_of_code(facts.last().attr_id) is None {
            earlier.push(facts.last().attr_id)
        } else {
            earlier
        }
    }
}

/// The mapping holds at most one nutrient for each fact that is not
/// dropped.
pub proof fn lemma_resolved_size(facts: Seq<Nutrient>)
    ensures
        resolved(facts).dom().finite(),
        resolved(facts).len() + unknown(facts).len() <= facts.len(),
    decreases facts.len(),
{
    if facts.len() > 0 {
        lemma_resolved_size(facts.drop_last());
    }
}

/// The codes of the facts that `resolve_external_nutrients` drops, so that
/// what is dropped can be counted and looked into.
pub fn unknown_codes(facts: &Vec<Nutrient>) -> (codes: Vec<u32>)
    ensures
        codes@ == unknown(facts@),
{
    let mut codes: Vec<u32> = Vec::new();
    let mut i: usize = 0;
    while i < facts.len()
        invariant
            i <= facts.len(),
            codes@ == unknown(facts@.take(i as int)),
        decreases facts.len() - i,
    {
        proof {
            assert(facts@.take(i + 1).drop_last() == facts@.take(i as int));
        }
        if code_to_name(facts[i].attr_id).is_none() {
            codes.push(facts[i].attr_id);
        }
        i += 1;
    }
    proof {
        assert(facts@.take(facts.len() as int) == facts@);
    }
    codes
}

/// Turns the facts of the external source into a sparse nutrient mapping:
/// each code is resolved through the catalog, and a fact whose code the
/// catalog does not know is dropped.
pub fn resolve_external_nutrients(facts: &Vec<Nutrient>) -> (nutrients: NutrientMap)
    ensures
        nutrients@ == resolved(facts@),
{
    let mut nutrients = NutrientMap::new();
    let mut i: usize = 0;
    while i < facts.len()
        invariant
            i <= facts.len(),
            nutrients@ == resolved(facts@.take(i as int)),
        decreases facts.len() - i,
    {
        proof {
            assert(facts@.take(i + 1).drop_last() == facts@.take(i as int));
        }
        match code_to_name(facts[i].attr_id) {
            Some(name) => {
                nutrients.insert(name, facts[i].value);
            },
            None => {},
        }
        i += 1;
    }
    proof {
        assert(facts@.take(facts.len() as int) == facts@);
    }
    nutrients
}

} // verus!
