use std::collections::HashSet;

use nutrition_tracker::catalog::{
    catalog, code_to_name, get_nutrient_name_map, nutrient_code, nutrient_name, NUTRIENT_COUNT,
};

#[test]
fn catalog_has_ninety_nine_names_in_column_order() {
    let names = catalog();
    assert_eq!(NUTRIENT_COUNT, 99);
    assert_eq!(names.len(), 99);
    assert_eq!(names[0], "calcium_ca");
    assert_eq!(names[1], "carbohydrates");
    assert_eq!(names[3], "energy");
    assert_eq!(names[11], "protein");
    assert_eq!(names[93], "water");
    assert_eq!(names[98], "tocotrienol_delta");
}

#[test]
fn catalog_agrees_with_name_by_position() {
    let names = catalog();
    for i in 0..NUTRIENT_COUNT {
        assert_eq!(names[i], nutrient_name(i));
    }
}

#[test]
fn catalog_names_are_distinct() {
    let names: HashSet<&str> = catalog().into_iter().collect();
    assert_eq!(names.len(), 99);
}

#[test]
fn catalog_codes_are_distinct() {
    let codes: HashSet<u32> = (0..NUTRIENT_COUNT).map(nutrient_code).collect();
    assert_eq!(codes.len(), 99);
}

#[test]
fn catalog_names_are_plain_column_names() {
    for name in catalog() {
        assert!(!name.is_empty());
        assert!(name.chars().next().unwrap().is_ascii_lowercase());
        assert!(name.chars().all(|c| c.is_ascii_lowercase() || c.is_ascii_digit() || c == '_'));
    }
}

#[test]
fn known_codes_resolve_to_their_names() {
    assert_eq!(code_to_name(301), Some("calcium_ca"));
    assert_eq!(code_to_name(205), Some("carbohydrates"));
    assert_eq!(code_to_name(208), Some("energy"));
    assert_eq!(code_to_name(203), Some("protein"));
    assert_eq!(code_to_name(255), Some("water"));
    assert_eq!(code_to_name(347), Some("tocotrienol_delta"));
}

#[test]
fn unknown_codes_resolve_to_nothing() {
    assert_eq!(code_to_name(0), None);
    assert_eq!(code_to_name(1), None);
    assert_eq!(code_to_name(206), None);
    assert_eq!(code_to_name(999), None);
    assert_eq!(code_to_name(u32::MAX), None);
}

#[test]
fn every_position_resolves_from_its_own_code() {
    for i in 0..NUTRIENT_COUNT {
        assert_eq!(code_to_name(nutrient_code(i)), Some(nutrient_name(i)));
    }
}

#[test]
fn name_map_has_one_entry_for_each_nutrient() {
    let map = get_nutrient_name_map();
    assert_eq!(map.len(), 99);
    for i in 0..NUTRIENT_COUNT {
        assert_eq!(map.get(&nutrient_code(i)), Some(&nutrient_name(i)));
    }
}

#[test]
fn name_map_agrees_with_code_to_name() {
    let map = get_nutrient_name_map();
    for code in 0..1000u32 {
        assert_eq!(map.get(&code).copied(), code_to_name(code));
    }
}

#[test]
fn name_map_holds_only_catalog_names() {
    let names: HashSet<&str> = catalog().into_iter().collect();
    for name in get_nutrient_name_map().values() {
        assert!(names.contains(name));
    }
}

#[test]
fn name_map_holds_the_table_of_the_source() {
    let map = get_nutrient_name_map();
    assert_eq!(map.get(&601), Some(&"cholesterol"));
    assert_eq!(map.get(&606), Some(&"fatty_acids_saturated"));
    assert_eq!(map.get(&204), Some(&"total_lipid_fat"));
    assert_eq!(map.get(&291), Some(&"fiber_dietary"));
    assert_eq!(map.get(&307), Some(&"sodium_na"));
    assert_eq!(map.get(&269), Some(&"sugars_total"));
    assert_eq!(map.get(&401), Some(&"vitamin_c_total_ascorbic_acid"));
    assert_eq!(map.get(&695), Some(&"fatty_acids_transpolyenoic"));
    assert_eq!(map.get(&2), None);
}
