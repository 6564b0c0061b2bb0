//! The mapping between a food and the fixed-width record that the store
//! holds of it.

use vstd::prelude::*;
use crate::amount::Amount;
use crate::catalog::{
    is_catalog_name, lemma_position_of_name, name_at, nutrient_name, position_of_name,
    NUTRIENT_COUNT,
};
use crate::food::{Food, FoodView};
use crate::nutrients::{amount_or_zero, is_dense, NutrientMap};

verus! {

/// Number of fields of a food record: the name, the serving weight and one
/// amount for each catalog nutrient.
pub const RECORD_WIDTH: usize = NUTRIENT_COUNT + 2;

/// One field of a stored row, by the storage class the store gave it.
#[derive(Clone, Debug, PartialEq, Eq)]
pub enum Field {
    Null,
    Number(Amount),
    Text(String),
    Blob,
}

/// What a `Field` stands for.
pub enum FieldView {
    Null,
    Number(Amount),
    Text(Seq<char>),
    Blob,
}

impl DeepView for Field {
    type V = FieldView;

    open spec fn deep_view(&self) -> FieldView {
        match self {
            Field::Null => FieldView::Null,
            Field::Number(amount) => FieldView::Number(*amount),
            Field::Text(text) => FieldView::Text(text@),
            Field::Blob => FieldView::Blob,
        }
    }
}

impl View for Field {
    type V = FieldView;

    open spec fn view(&self) -> FieldView {
        self.deep_view()
    }
}

/// Why a stored row is not a food record.
#[derive(Clone, Copy, Debug, PartialEq, Eq, Structural)]
pub enum DecodeError {
    /// The row has `found` fields, which is not `RECORD_WIDTH`.
    FieldCount { found: usize },
    /// The first field, the name, is not text.
    NameNotText,
    /// The field at `index`, the weight or a nutrient amount, is not a
    /// number; every field from 1 up to it is.
    NotNumeric { index: usize },
}

/// The record of a food: its name, its serving weight, then for each catalog
/// nutrient in catalog order the amount that `amounts` holds for it, or zero.
pub open spec fn record_of(
    name: Seq<char>,
    weight_grams: Amount,
    amounts: Map<Seq<char>, Amount>,
) -> Seq<FieldView> {
    Seq::new(
        RECORD_WIDTH as nat,
        |i: int|
            if i == 0 {
                FieldView::Text(name)
            } else if i == 1 {
                FieldView::Number(weight_grams)
            } else {
                FieldView::Number(amount_or_zero(amounts, name_at(i - 2)))
            },
    )
}

/// Whether every field of `row` after the first is a number.
pub open spec fn all_numbers(row: Seq<FieldView>) -> bool {
    forall|i: int| 1 <= i < row.len() ==> #[trigger] row[i] is Number
}

/// The first position after the name whose field is not a number,
/// meaningful where `!all_numbers(row)`.
pub open spec fn first_non_number(row: Seq<FieldView>) -> int {
    choose|i: int|
        1 <= i < row.len() && !(#[trigger] row[i] is Number) && forall|j: int|
            1 <= j < i ==> #[trigger] row[j] is Number
}

/// The dense mapping that a row of numbers holds: each catalog nutrient
/// with the amount at its catalog position, two fields in.
pub open spec fn dense_map(row: Seq<FieldView>) -> Map<Seq<char>, Amount> {
    Map::new(
        |name: Seq<char>| is_catalog_name(name),
        |name: Seq<char>| row[position_of_name(name) + 2]->Number_0,
    )
}

/// What a stored row decodes to: the food it records, or the reason why it
/// records none.
pub open spec fn decode(row: Seq<FieldView>) -> Result<FoodView, DecodeError> {
    if row.len() != RECORD_WIDTH {
        Err(DecodeError::FieldCount { found: row.len() as usize })
    } else if !(row[0] is Text) {
        Err(DecodeError::NameNotText)
    } else if !all_numbers(row) {
        Err(DecodeError::NotNumeric { index: first_non_number(row) as usize })
    } else {
        Ok(
            FoodView {
                name: row[0]->Text_0,
                weight_grams: row[1]->Number_0,
                nutrients: dense_map(row),
            },
        )
    }
}

/// A sparse mapping filled up to a dense one: every catalog nutrient, with
/// zero for each that `amounts` does not hold.
pub open spec fn completed(amounts: Map<Seq<char>, Amount>) -> Map<Seq<char>, Amount> {
    Map::new(
        |name: Seq<char>| is_catalog_name(name),
        |name: Seq<char>| amount_or_zero(amounts, name),
    )
}

/// Writes a food out as the fixed-width record that the store holds: the
/// name, the serving weight, and for each catalog nutrient in catalog order
/// its amount, zero where `nutrients` holds none.
pub fn to_record(name: &str, weight_grams: Amount, nutrients: &NutrientMap) -> (record: Vec<Field>)
    ensures
        record@.len() == NUTRIENT_COUNT + 2,
        record.deep_view() == record_of(name@, weight_grams, nutrients@),
{
    let mut record: Vec<Field> = Vec::new();
    record.push(Field::Text(name.to_owned()));
    record.push(Field::Number(weight_grams));
    let mut i: usize = 0;
    while i < NUTRIENT_COUNT
        invariant
            i <= NUTRIENT_COUNT,
            record@.len() == i + 2,
            record@[0]@ == FieldView::Text(name@),
            record@[1]@ == FieldView::Number(weight_grams),
            forall|j: int|
                0 <= j < i ==> (#[trigger] record@[j + 2])@ == FieldView::Number(
                    amount_or_zero(nutrients@, name_at(j)),
                ),
        decreases NUTRIENT_COUNT - i,
    {
        let amount = nutrients.get_or_zero(nutrient_name(i));
        record.push(Field::Number(amount));
        i += 1;
    }
    proof {
        let expected = record_of(name@, weight_grams, nutrients@);
        assert forall|k: int| 0 <= k < record@.len() implies record.deep_view()[k]
            == expected[k] by {
            if k >= 2 {
                assert(record@[(k - 2) + 2]@ == FieldView::Number(
                    amount_or_zero(nutrients@, name_at(k - 2)),
                ));
            }
        }
        assert(record.deep_view() =~= expected);
    }
    record
}

/// Reads a stored row back as a food with a dense nutrient mapping. The row
/// must have `RECORD_WIDTH` fields, a text first and numbers after it; the
/// error names the first thing that is wrong with it.
pub fn from_record(row: &Vec<Field>) -> (decoded: Result<Food, DecodeError>)
    ensures
        match decoded {
            Ok(food) => decode(row.deep_view()) == Ok::<FoodView, DecodeError>(food@),
            Err(error) => decode(row.deep_view()) == Err::<FoodView, DecodeError>(error),
        },
{
    let ghost fields = row.deep_view();
    if row.len() != RECORD_WIDTH {
        return Err(DecodeError::FieldCount { found: row.len() });
    }
    let name = match &row[0] {
        Field::Text(text) => text.clone(),
        _ => {
            return Err(DecodeError::NameNotText);
        },
    };
    let weight_grams = match &row[1] {
        Field::Number(amount) => *amount,
        _ => {
            proof {
                lemma_first_non_number(fields, 1);
            }
            return Err(DecodeError::NotNumeric { index: 1 });
        },
    };
    let mut nutrients = NutrientMap::new();
    let mut i: usize = 0;
    while i < NUTRIENT_COUNT
        invariant
            i <= NUTRIENT_COUNT,
            fields == row.deep_view(),
            row@.len() == RECORD_WIDTH,
            fields[0] is Text,
            forall|j: int| 1 <= j < i + 2 ==> #[trigger] fields[j] is Number,
            forall|n: Seq<char>|
                nutrients@.contains_key(n) <==> exists|k: int| 0 <= k < i && name_at(k) == n,
            forall|k: int|
                0 <= k < i ==> nutrients@[#[trigger] name_at(k)] == fields[k + 2]->Number_0,
        decreases NUTRIENT_COUNT - i,
    {
        match &row[i + 2] {
            Field::Number(amount) => {
                proof {
                    assert forall|k: int| 0 <= k < i implies name_at(k) != name_at(i as int) by {
                        if name_at(k) == name_at(i as int) {
                            crate::catalog::lemma_names_distinct(k, i as int);
                        }
                    }
                    assert(fields[i + 2] == row@[i + 2]@);
                }
                nutrients.insert(nutrient_name(i), *amount);
            },
            _ => {
                proof {
                    assert(fields[i + 2] == row@[i + 2]@);
                    lemma_first_non_number(fields, i + 2);
                }
                return Err(DecodeError::NotNumeric { index: i + 2 });
            },
        }
        i += 1;
    }
    proof {
        assert(fields[0] == row@[0]@);
        assert(fields[1] == row@[1]@);
        assert(all_numbers(fields));
        assert forall|n: Seq<char>| is_catalog_name(n) implies nutrients@[n] == fields[
            position_of_name(n) + 2]->Number_0 by {
            let k = position_of_name(n);
            assert(nutrients@[name_at(k)] == fields[k + 2]->Number_0);
        }
        assert(nutrients@ =~= dense_map(fields));
    }
    Ok(Food { name, weight_grams, nutrients })
}

/// A position whose field is not a number, with numbers everywhere between
/// the name and it, is the first such position.
proof fn lemma_first_non_number(row: Seq<FieldView>, i: int)
    requires
        1 <= i < row.len(),
        !(row[i] is Number),
        forall|j: int| 1 <= j < i ==> #[trigger] row[j] is Number,
    ensures
        !all_numbers(row),
        first_non_number(row) == i,
{
    let f = first_non_number(row);
    assert(1 <= f < row.len() && !(row[f] is Number) && forall|j: int|
        1 <= j < f ==> #[trigger] row[j] is Number);
    if f < i {
        assert(row[f] is Number);
    }
    if i < f {
        assert(row[i] is Number);
    }
}

/// Every record that `record_of` describes decodes, and gives back the name
/// and the weight it was made from, with the mapping filled up to a dense
/// one: each nutrient that was reported keeps its amount, and every other
/// catalog nutrient is zero.
pub proof fn lemma_decode_record(
    name: Seq<char>,
    weight_grams: Amount,
    amounts: Map<Seq<char>, Amount>,
)
    ensures
        decode(record_of(name, weight_grams, amounts)) == Ok::<FoodView, DecodeError>(
            FoodView { name, weight_grams, nutrients: completed(amounts) },
        ),
        is_dense(completed(amounts)),
{
    let row = record_of(name, weight_grams, amounts);
    assert(all_numbers(row));
    assert forall|n: Seq<char>| is_catalog_name(n) implies dense_map(row)[n] == completed(
        amounts,
    )[n] by {
        let k = position_of_name(n);
        assert(row[k + 2] == FieldView::Number(amount_or_zero(amounts, name_at(k))));
    }
    assert(dense_map(row) =~= completed(amounts));
}

/// Round trip: a food whose mapping is dense is read back unchanged from
/// the record it was written to.
pub proof fn lemma_round_trip(food: FoodView)
    requires
        is_dense(food.nutrients),
    ensures
        decode(record_of(food.name, food.weight_grams, food.nutrients)) == Ok::<
            FoodView,
            DecodeError,
        >(food),
{
    lemma_decode_record(food.name, food.weight_grams, food.nutrients);
    assert(completed(food.nutrients) =~= food.nutrients);
}

/// Whatever decodes has a dense mapping, and writing it out again gives the
/// row it was decoded from.
pub proof fn lemma_decoded_is_dense(row: Seq<FieldView>)
    requires
        decode(row) is Ok,
    ensures
        is_dense(decode(row)->Ok_0.nutrients),
        record_of(
            decode(row)->Ok_0.name,
            decode(row)->Ok_0.weight_grams,
            decode(row)->Ok_0.nutrients,
        ) == row,
{
    let food = decode(row)->Ok_0;
    let again = record_of(food.name, food.weight_grams, food.nutrients);
    assert forall|i: int| 0 <= i < row.len() implies again[i] == row[i] by {
        if i >= 2 {
            lemma_position_of_name(i - 2);
            assert(row[i] is Number);
        } else if i == 1 {
            assert(row[i] is Number);
        }
    }
    assert(again =~= row);
}

/// A stored row that is not a food record: its position among the rows
/// read, and what is wrong with it.
#[derive(Clone, Copy, Debug, PartialEq, Eq, Structural)]
pub struct RejectedRow {
    pub row: usize,
    pub error: DecodeError,
}

/// What a listing of the stored foods gives: the foods of the rows that
/// decode, and the rows that do not.
pub struct Listing {
    pub foods: Vec<Food>,
    pub rejected: Vec<RejectedRow>,
}

/// The foods of those rows that decode, in the order of the rows.
pub open spec fn decoded_foods(rows: Seq<Seq<FieldView>>) -> Seq<FoodView>
    decreases rows.len(),
{
    if rows.len() == 0 {
        Seq::empty()
    } else {
        let earlier = decoded_foods(rows.drop_last());
        match decode(rows.last()) {
            Ok(food) => earlier.push(food),
            Err(_) => earlier,
        }
    }
}

/// Those rows that do not decode, in the order of the rows, each with its
/// position and its error.
pub open spec fn rejected_rows(rows: Seq<Seq<FieldView>>) -> Seq<RejectedRow>
    decreases rows.len(),
{
    if rows.len() == 0 {
        Seq::empty()
    } else {
        let earlier = rejected_rows(rows.drop_last());
        match decode(rows.last()) {
            Ok(_) => earlier,
            Err(error) => earlier.push(RejectedRow { row: (rows.len() - 1) as usize, error }),
        }
    }
}

/// Every row is either decoded or rejected.
pub proof fn lemma_listing_is_complete(rows: Seq<Seq<FieldView>>)
    ensures
        decoded_foods(rows).len() + rejected_rows(rows).len() == rows.len(),
    decreases rows.len(),
{
    if rows.len() > 0 {
        lemma_listing_is_complete(rows.drop_last());
    }
}

/// Where every row decodes, the listing holds one food for each row, in
/// order, and rejects nothing.
pub proof fn lemma_listing_of_sound_rows(rows: Seq<Seq<FieldView>>)
    requires
        forall|i: int| 0 <= i < rows.len() ==> decode(#[trigger] rows[i]) is Ok,
    ensures
        rejected_rows(rows).len() == 0,
        decoded_foods(rows).len() == rows.len(),
        forall|i: int|
            0 <= i < rows.len() ==> decode(rows[i]) == Ok::<FoodView, DecodeError>(
                #[trigger] decoded_foods(rows)[i],
            ),
    decreases rows.len(),
{
    if rows.len() > 0 {
        let earlier = rows.drop_last();
        assert forall|i: int| 0 <= i < earlier.len() implies decode(
            #[trigger] earlier[i],
        ) is Ok by {
            assert(earlier[i] == rows[i]);
        }
        lemma_listing_of_sound_rows(earlier);
        assert(decode(rows[rows.len() - 1]) is Ok);
        assert forall|i: int| 0 <= i < rows.len() implies decode(rows[i]) == Ok::<
            FoodView,
            DecodeError,
        >(#[trigger] decoded_foods(rows)[i]) by {
            if i < rows.len() - 1 {
                assert(earlier[i] == rows[i]);
                assert(decoded_foods(rows)[i] == decoded_foods(earlier)[i]);
            }
        }
    }
}

/// Decodes the rows read from the store's food table. A row that does not
/// decode is set aside with its position and its error, and the rows after
/// it are still read.
pub fn get_foods(rows: &Vec<Vec<Field>>) -> (listing: Listing)
    ensures
        listing.foods.deep_view() == decoded_foods(rows.deep_view()),
        listing.rejected@ == rejected_rows(rows.deep_view()),
{
    let mut foods: Vec<Food> = Vec::new();
    let mut rejected: Vec<RejectedRow> = Vec::new();
    let ghost all = rows.deep_view();
    let mut i: usize = 0;
    while i < rows.len()
        invariant
            i <= rows.len(),
            all == rows.deep_view(),
            foods.deep_view() == decoded_foods(all.take(i as int)),
            rejected@ == rejected_rows(all.take(i as int)),
        decreases rows.len() - i,
    {
        proof {
            assert(all.take(i + 1).drop_last() == all.take(i as int));
            assert(all.take(i + 1).last() == rows@[i as int].deep_view());
        }
        let ghost before = foods.deep_view();
        match from_record(&rows[i]) {
            Ok(food) => {
                let ghost view = food@;
                foods.push(food);
                proof {
                    assert(foods.deep_view() =~= before.push(view));
                }
            },
            Err(error) => {
                rejected.push(RejectedRow { row: i, error });
            },
        }
        i += 1;
    }
    proof {
        assert(all.take(rows.len() as int) == all);
    }
    Listing { foods, rejected }
}

} // verus!
