//! The nutrient catalog: the names of the nutrients in column order, the
//! code of each in the external nutrient source, and the laws that the
//! rest of the crate builds on.

use std::collections::HashMap;
use vstd::prelude::*;

verus! {

/// Number of nutrients in the catalog.
pub const NUTRIENT_COUNT: usize = 99;

/// Name of the nutrient at position `i` of the catalog. The order is that
/// of the nutrient columns of the `food_items` table.
pub open spec fn name_at(i: int) -> Seq<char> {
    if i == 0 {
        "calcium_ca"@
    } else if i == 1 {
        "carbohydrates"@
    } else if i == 2 {
        "cholesterol"@
    } else if i == 3 {
        "energy"@
    } else if i == 4 {
        "fatty_acids_saturated"@
    } else if i == 5 {
        "total_lipid_fat"@
    } else if i == 6 {
        "fatty_acids_trans"@
    } else if i == 7 {
        "iron_fe"@
    } else if i == 8 {
        "fiber_dietary"@
    } else if i == 9 {
        "potassium_k"@
    } else if i == 10 {
        "sodium_na"@
    } else if i == 11 {
        "protein"@
    } else if i == 12 {
        "sugars_total"@
    } else if i == 13 {
        "sugars_added"@
    } else if i == 14 {
        "vitamin_d"@
    } else if i == 15 {
        "alanine"@
    } else if i == 16 {
        "alcohol_ethyl"@
    } else if i == 17 {
        "arginine"@
    } else if i == 18 {
        "ash"@
    } else if i == 19 {
        "aspartic_acid"@
    } else if i == 20 {
        "betaine"@
    } else if i == 21 {
        "caffeine"@
    } else if i == 22 {
        "campesterol"@
    } else if i == 23 {
        "carotene_alpha"@
    } else if i == 24 {
        "carotene_beta"@
    } else if i == 25 {
        "vitamin_d3"@
    } else if i == 26 {
        "choline_total"@
    } else if i == 27 {
        "cryptoxanthin_beta"@
    } else if i == 28 {
        "copper_cu"@
    } else if i == 29 {
        "cystine"@
    } else if i == 30 {
        "energy_kj"@
    } else if i == 31 {
        "vitamin_d2"@
    } else if i == 32 {
        "fatty_acids_monounsaturated"@
    } else if i == 33 {
        "fatty_acids_polyunsaturated"@
    } else if i == 34 {
        "fatty_acids_transmonoenoic"@
    } else if i == 35 {
        "fatty_acids_transpolyenoic"@
    } else if i == 36 {
        "fluoride_f"@
    } else if i == 37 {
        "folate_total"@
    } else if i == 38 {
        "folic_acid"@
    } else if i == 39 {
        "folate_dfe"@
    } else if i == 40 {
        "folate_food"@
    } else if i == 41 {
        "fructose"@
    } else if i == 42 {
        "galactose"@
    } else if i == 43 {
        "glutamic_acid"@
    } else if i == 44 {
        "glucose_dextrose"@
    } else if i == 45 {
        "glycine"@
    } else if i == 46 {
        "histidine"@
    } else if i == 47 {
        "hydroxyproline"@
    } else if i == 48 {
        "isoleucine"@
    } else if i == 49 {
        "lactose"@
    } else if i == 50 {
        "leucine"@
    } else if i == 51 {
        "lutein_zeaxanthin"@
    } else if i == 52 {
        "lycopene"@
    } else if i == 53 {
        "lysine"@
    } else if i == 54 {
        "maltose"@
    } else if i == 55 {
        "methionine"@
    } else if i == 56 {
        "magnesium_mg"@
    } else if i == 57 {
        "menaquinone"@
    } else if i == 58 {
        "manganese_mn"@
    } else if i == 59 {
        "niacin"@
    } else if i == 60 {
        "vitamin_e_added"@
    } else if i == 61 {
        "vitamin_b_added"@
    } else if i == 62 {
        "adjusted_protein"@
    } else if i == 63 {
        "phosphorus_p"@
    } else if i == 64 {
        "pantothenic_acid"@
    } else if i == 65 {
        "phenylalanine"@
    } else if i == 66 {
        "phytosterols"@
    } else if i == 67 {
        "proline"@
    } else if i == 68 {
        "retinol"@
    } else if i == 69 {
        "riboflavin"@
    } else if i == 70 {
        "selenium_se"@
    } else if i == 71 {
        "serine"@
    } else if i == 72 {
        "betasitosterol"@
    } else if i == 73 {
        "starch"@
    } else if i == 74 {
        "stigmasterol"@
    } else if i == 75 {
        "sucrose"@
    } else if i == 76 {
        "theobromine"@
    } else if i == 77 {
        "thiamin"@
    } else if i == 78 {
        "threonine"@
    } else if i == 79 {
        "vitamin_e_alphatocopherol"@
    } else if i == 80 {
        "tocopherol_beta"@
    } else if i == 81 {
        "tocopherol_delta"@
    } else if i == 82 {
        "tocopherol_gamma"@
    } else if i == 83 {
        "tryptophan"@
    } else if i == 84 {
        "tyrosine"@
    } else if i == 85 {
        "valine"@
    } else if i == 86 {
        "vitamin_a_iu"@
    } else if i == 87 {
        "vitamin_a_rae"@
    } else if i == 88 {
        "vitamin_b12"@
    } else if i == 89 {
        "vitamin_b6"@
    } else if i == 90 {
        "vitamin_c_total_ascorbic_acid"@
    } else if i == 91 {
        "vitamin_k_phylloquinone"@
    } else if i == 92 {
        "dihydrophylloquinone"@
    } else if i == 93 {
        "water"@
    } else if i == 94 {
        "zinc_zn"@
    } else if i == 95 {
        "tocotrienol_alpha"@
    } else if i == 96 {
        "tocotrienol_beta"@
    } else if i == 97 {
        "tocotrienol_gamma"@
    } else {
        "tocotrienol_delta"@
    }
}

/// Code under which the external nutrient source reports the nutrient at
/// position `i` of the catalog.
pub open spec fn code_at(i: int) -> u32 {
    if i == 0 {
        301
    } else if i == 1 {
        205
    } else if i == 2 {
        601
    } else if i == 3 {
        208
    } else if i == 4 {
        606
    } else if i == 5 {
        204
    } else if i == 6 {
        605
    } else if i == 7 {
        303
    } else if i == 8 {
        291
    } else if i == 9 {
        306
    } else if i == 10 {
        307
    } else if i == 11 {
        203
    } else if i == 12 {
        269
    } else if i == 13 {
        539
    } else if i == 14 {
        324
    } else if i == 15 {
        513
    } else if i == 16 {
        221
    } else if i == 17 {
        511
    } else if i == 18 {
        207
    } else if i == 19 {
        514
    } else if i == 20 {
        454
    } else if i == 21 {
        262
    } else if i == 22 {
        639
    } else if i == 23 {
        322
    } else if i == 24 {
        321
    } else if i == 25 {
        326
    } else if i == 26 {
        421
    } else if i == 27 {
        334
    } else if i == 28 {
        312
    } else if i == 29 {
        507
    } else if i == 30 {
        268
    } else if i == 31 {
        325
    } else if i == 32 {
        645
    } else if i == 33 {
        646
    } else if i == 34 {
        693
    } else if i == 35 {
        695
    } else if i == 36 {
        313
    } else if i == 37 {
        417
    } else if i == 38 {
        431
    } else if i == 39 {
        435
    } else if i == 40 {
        432
    } else if i == 41 {
        212
    } else if i == 42 {
        287
    } else if i == 43 {
        515
    } else if i == 44 {
        211
    } else if i == 45 {
        516
    } else if i == 46 {
        512
    } else if i == 47 {
        521
    } else if i == 48 {
        503
    } else if i == 49 {
        213
    } else if i == 50 {
        504
    } else if i == 51 {
        338
    } else if i == 52 {
        337
    } else if i == 53 {
        505
    } else if i == 54 {
        214
    } else if i == 55 {
        506
    } else if i == 56 {
        304
    } else if i == 57 {
        428
    } else if i == 58 {
        315
    } else if i == 59 {
        406
    } else if i == 60 {
        573
    } else if i == 61 {
        578
    } else if i == 62 {
        257
    } else if i == 63 {
        305
    } else if i == 64 {
        410
    } else if i == 65 {
        508
    } else if i == 66 {
        636
    } else if i == 67 {
        517
    } else if i == 68 {
        319
    } else if i == 69 {
        405
    } else if i == 70 {
        317
    } else if i == 71 {
        518
    } else if i == 72 {
        641
    } else if i == 73 {
        209
    } else if i == 74 {
        638
    } else if i == 75 {
        210
    } else if i == 76 {
        263
    } else if i == 77 {
        404
    } else if i == 78 {
        502
    } else if i == 79 {
        323
    } else if i == 80 {
        341
    } else if i == 81 {
        343
    } else if i == 82 {
        342
    } else if i == 83 {
        501
    } else if i == 84 {
        509
    } else if i == 85 {
        510
    } else if i == 86 {
        318
    } else if i == 87 {
        320
    } else if i == 88 {
        418
    } else if i == 89 {
        415
    } else if i == 90 {
        401
    } else if i == 91 {
        430
    } else if i == 92 {
        429
    } else if i == 93 {
        255
    } else if i == 94 {
        309
    } else if i == 95 {
        344
    } else if i == 96 {
        345
    } else if i == 97 {
        346
    } else {
        347
    }
}

/// The catalog as a sequence of names.
pub open spec fn catalog_names() -> Seq<Seq<char>> {
    Seq::new(NUTRIENT_COUNT as nat, |i: int| name_at(i))
}

/// Whether `name` is the name of a catalog nutrient.
pub open spec fn is_catalog_name(name: Seq<char>) -> bool {
    exists|i: int| 0 <= i < NUTRIENT_COUNT && name_at(i) == name
}

/// The catalog position of `name`, meaningful where `is_catalog_name(name)`.
pub open spec fn position_of_name(name: Seq<char>) -> int {
    choose|i: int| 0 <= i < NUTRIENT_COUNT && name_at(i) == name
}

/// Whether the external source's `code` stands for a catalog nutrient.
pub open spec fn is_known_code(code: u32) -> bool {
    exists|i: int| 0 <= i < NUTRIENT_COUNT && code_at(i) == code
}

/// The catalog position of `code`, meaningful where `is_known_code(code)`.
pub open spec fn position_of_code(code: u32) -> int {
    choose|i: int| 0 <= i < NUTRIENT_COUNT && code_at(i) == code
}

/// The name that an external code resolves to, if it is known.
pub open spec fn name_of_code(code: u32) -> Option<Seq<char>> {
    if is_known_code(code) {
        Some(name_at(position_of_code(code)))
    } else {
        None
    }
}

/// Whether `c` may stand in the name of a column: a small letter, a digit
/// or an underscore.
pub open spec fn is_column_char(c: char) -> bool {
    ('a' <= c <= 'z') || ('0' <= c <= '9') || c == '_'
}

/// Whether `name` can be written into a statement as the name of a column,
/// as it stands: it begins with a small letter and goes on with small
/// letters, digits and underscores.
pub open spec fn is_column_name(name: Seq<char>) -> bool {
    &&& name.len() > 0
    &&& 'a' <= name[0] <= 'z'
    &&& forall|k: int| 0 <= k < name.len() ==> is_column_char(#[trigger] name[k])
}

/// The name of the nutrient at position `i` of the catalog.
pub fn nutrient_name(i: usize) -> (name: &'static str)
    requires
        i < NUTRIENT_COUNT,
    ensures
        name@ == name_at(i as int),
{
    match i {
        0 => "calcium_ca",
        1 => "carbohydrates",
        2 => "cholesterol",
        3 => "energy",
        4 => "fatty_acids_saturated",
        5 => "total_lipid_fat",
        6 => "fatty_acids_trans",
        7 => "iron_fe",
        8 => "fiber_dietary",
        9 => "potassium_k",
        10 => "sodium_na",
        11 => "protein",
        12 => "sugars_total",
        13 => "sugars_added",
        14 => "vitamin_d",
        15 => "alanine",
        16 => "alcohol_ethyl",
        17 => "arginine",
        18 => "ash",
        19 => "aspartic_acid",
        20 => "betaine",
        21 => "caffeine",
        22 => "campesterol",
        23 => "carotene_alpha",
        24 => "carotene_beta",
        25 => "vitamin_d3",
        26 => "choline_total",
        27 => "cryptoxanthin_beta",
        28 => "copper_cu",
        29 => "cystine",
        30 => "energy_kj",
        31 => "vitamin_d2",
        32 => "fatty_acids_monounsaturated",
        33 => "fatty_acids_polyunsaturated",
        34 => "fatty_acids_transmonoenoic",
        35 => "fatty_acids_transpolyenoic",
        36 => "fluoride_f",
        37 => "folate_total",
        38 => "folic_acid",
        39 => "folate_dfe",
        40 => "folate_food",
        41 => "fructose",
        42 => "galactose",
        43 => "glutamic_acid",
        44 => "glucose_dextrose",
        45 => "glycine",
        46 => "histidine",
        47 => "hydroxyproline",
        48 => "isoleucine",
        49 => "lactose",
        50 => "leucine",
        51 => "lutein_zeaxanthin",
        52 => "lycopene",
        53 => "lysine",
        54 => "maltose",
        55 => "methionine",
        56 => "magnesium_mg",
        57 => "menaquinone",
        58 => "manganese_mn",
        59 => "niacin",
        60 => "vitamin_e_added",
        61 => "vitamin_b_added",
        62 => "adjusted_protein",
        63 => "phosphorus_p",
        64 => "pantothenic_acid",
        65 => "phenylalanine",
        66 => "phytosterols",
        67 => "proline",
        68 => "retinol",
        69 => "riboflavin",
        70 => "selenium_se",
        71 => "serine",
        72 => "betasitosterol",
        73 => "starch",
        74 => "stigmasterol",
        75 => "sucrose",
        76 => "theobromine",
        77 => "thiamin",
        78 => "threonine",
        79 => "vitamin_e_alphatocopherol",
        80 => "tocopherol_beta",
        81 => "tocopherol_delta",
        82 => "tocopherol_gamma",
        83 => "tryptophan",
        84 => "tyrosine",
        85 => "valine",
        86 => "vitamin_a_iu",
        87 => "vitamin_a_rae",
        88 => "vitamin_b12",
        89 => "vitamin_b6",
        90 => "vitamin_c_total_ascorbic_acid",
        91 => "vitamin_k_phylloquinone",
        92 => "dihydrophylloquinone",
        93 => "water",
        94 => "zinc_zn",
        95 => "tocotrienol_alpha",
        96 => "tocotrienol_beta",
        97 => "tocotrienol_gamma",
        _ => "tocotrienol_delta",
    }
}

/// The external code of the nutrient at position `i` of the catalog.
pub fn nutrient_code(i: usize) -> (code: u32)
    requires
        i < NUTRIENT_COUNT,
    ensures
        code == code_at(i as int),
{
    match i {
        0 => 301,
        1 => 205,
        2 => 601,
        3 => 208,
        4 => 606,
        5 => 204,
        6 => 605,
        7 => 303,
        8 => 291,
        9 => 306,
        10 => 307,
        11 => 203,
        12 => 269,
        13 => 539,
        14 => 324,
        15 => 513,
        16 => 221,
        17 => 511,
        18 => 207,
        19 => 514,
        20 => 454,
        21 => 262,
        22 => 639,
        23 => 322,
        24 => 321,
        25 => 326,
        26 => 421,
        27 => 334,
        28 => 312,
        29 => 507,
        30 => 268,
        31 => 325,
        32 => 645,
        33 => 646,
        34 => 693,
        35 => 695,
        36 => 313,
        37 => 417,
        38 => 431,
        39 => 435,
        40 => 432,
        41 => 212,
        42 => 287,
        43 => 515,
        44 => 211,
        45 => 516,
        46 => 512,
        47 => 521,
        48 => 503,
        49 => 213,
        50 => 504,
        51 => 338,
        52 => 337,
        53 => 505,
        54 => 214,
        55 => 506,
        56 => 304,
        57 => 428,
        58 => 315,
        59 => 406,
        60 => 573,
        61 => 578,
        62 => 257,
        63 => 305,
        64 => 410,
        65 => 508,
        66 => 636,
        67 => 517,
        68 => 319,
        69 => 405,
        70 => 317,
        71 => 518,
        72 => 641,
        73 => 209,
        74 => 638,
        75 => 210,
        76 => 263,
        77 => 404,
        78 => 502,
        79 => 323,
        80 => 341,
        81 => 343,
        82 => 342,
        83 => 501,
        84 => 509,
        85 => 510,
        86 => 318,
        87 => 320,
        88 => 418,
        89 => 415,
        90 => 401,
        91 => 430,
        92 => 429,
        93 => 255,
        94 => 309,
        95 => 344,
        96 => 345,
        97 => 346,
        _ => 347,
    }
}

/// Length of every catalog name and its characters at a few positions,
/// enough to tell any two names apart.
proof fn lemma_name_marks()
    ensures
        name_at(0).len() == 10 && name_at(0)[0] == 'c' && name_at(0)[3] == 'c' && name_at(0)[8] == 'c' && name_at(0)[9] == 'a',
        name_at(1).len() == 13 && name_at(1)[0] == 'c' && name_at(1)[3] == 'b' && name_at(1)[8] == 'r' && name_at(1)[9] == 'a' && name_at(1)[12] == 's',
        name_at(2).len() == 11 && name_at(2)[0] == 'c' && name_at(2)[3] == 'l' && name_at(2)[8] == 'r' && name_at(2)[9] == 'o',
        name_at(3).len() == 6 && name_at(3)[0] == 'e' && name_at(3)[3] == 'r',
        name_at(4).len() == 21 && name_at(4)[0] == 'f' && name_at(4)[3] == 't' && name_at(4)[8] == 'i' && name_at(4)[9] == 'd' && name_at(4)[12] == 's' && name_at(4)[17] == 'a',
        name_at(5).len() == 15 && name_at(5)[0] == 't' && name_at(5)[3] == 'a' && name_at(5)[8] == 'p' && name_at(5)[9] == 'i' && name_at(5)[12] == 'f',
        name_at(6).len() == 17 && name_at(6)[0] == 'f' && name_at(6)[3] == 't' && name_at(6)[8] == 'i' && name_at(6)[9] == 'd' && name_at(6)[12] == 't',
        name_at(7).len() == 7 && name_at(7)[0] == 'i' && name_at(7)[3] == 'n',
        name_at(8).len() == 13 && name_at(8)[0] == 'f' && name_at(8)[3] == 'e' && name_at(8)[8] == 'e' && name_at(8)[9] == 't' && name_at(8)[12] == 'y',
        name_at(9).len() == 11 && name_at(9)[0] == 'p' && name_at(9)[3] == 'a' && name_at(9)[8] == 'm' && name_at(9)[9] == '_',
        name_at(10).len() == 9 && name_at(10)[0] == 's' && name_at(10)[3] == 'i' && name_at(10)[8] == 'a',
        name_at(11).len() == 7 && name_at(11)[0] == 'p' && name_at(11)[3] == 't',
        name_at(12).len() == 12 && name_at(12)[0] == 's' && name_at(12)[3] == 'a' && name_at(12)[8] == 'o' && name_at(12)[9] == 't',
        name_at(13).len() == 12 && name_at(13)[0] == 's' && name_at(13)[3] == 'a' && name_at(13)[8] == 'd' && name_at(13)[9] == 'd',
        name_at(14).len() == 9 && name_at(14)[0] == 'v' && name_at(14)[3] == 'a' && name_at(14)[8] == 'd',
        name_at(15).len() == 7 && name_at(15)[0] == 'a' && name_at(15)[3] == 'n',
        name_at(16).len() == 13 && name_at(16)[0] == 'a' && name_at(16)[3] == 'o' && name_at(16)[8] == 'e' && name_at(16)[9] == 't' && name_at(16)[12] == 'l',
        name_at(17).len() == 8 && name_at(17)[0] == 'a' && name_at(17)[3] == 'i',
        name_at(18).len() == 3 && name_at(18)[0] == 'a',
        name_at(19).len() == 13 && name_at(19)[0] == 'a' && name_at(19)[3] == 'a' && name_at(19)[8] == '_' && name_at(19)[9] == 'a' && name_at(19)[12] == 'd',
        name_at(20).len() == 7 && name_at(20)[0] == 'b' && name_at(20)[3] == 'a',
        name_at(21).len() == 8 && name_at(21)[0] == 'c' && name_at(21)[3] == 'f',
        name_at(22).len() == 11 && name_at(22)[0] == 'c' && name_at(22)[3] == 'p' && name_at(22)[8] == 'r' && name_at(22)[9] == 'o',
        name_at(23).len() == 14 && name_at(23)[0] == 'c' && name_at(23)[3] == 'o' && name_at(23)[8] == '_' && name_at(23)[9] == 'a' && name_at(23)[12] == 'h',
        name_at(24).len() == 13 && name_at(24)[0] == 'c' && name_at(24)[3] == 'o' && name_at(24)[8] == '_' && name_at(24)[9] == 'b' && name_at(24)[12] == 'a',
        name_at(25).len() == 10 && name_at(25)[0] == 'v' && name_at(25)[3] == 'a' && name_at(25)[8] == 'd' && name_at(25)[9] == '3',
        name_at(26).len() == 13 && name_at(26)[0] == 'c' && name_at(26)[3] == 'l' && name_at(26)[8] == 't' && name_at(26)[9] == 'o' && name_at(26)[12] == 'l',
        name_at(27).len() == 18 && name_at(27)[0] == 'c' && name_at(27)[3] == 'p' && name_at(27)[8] == 'n' && name_at(27)[9] == 't' && name_at(27)[12] == 'n' && name_at(27)[17] == 'a',
        name_at(28).len() == 9 && name_at(28)[0] == 'c' && name_at(28)[3] == 'p' && name_at(28)[8] == 'u',
        name_at(29).len() == 7 && name_at(29)[0] == 'c' && name_at(29)[3] == 't',
        name_at(30).len() == 9 && name_at(30)[0] == 'e' && name_at(30)[3] == 'r' && name_at(30)[8] == 'j',
        name_at(31).len() == 10 && name_at(31)[0] == 'v' && name_at(31)[3] == 'a' && name_at(31)[8] == 'd' && name_at(31)[9] == '2',
        name_at(32).len() == 27 && name_at(32)[0] == 'f' && name_at(32)[3] == 't' && name_at(32)[8] == 'i' && name_at(32)[9] == 'd' && name_at(32)[12] == 'm' && name_at(32)[17] == 'n',
        name_at(33).len() == 27 && name_at(33)[0] == 'f' && name_at(33)[3] == 't' && name_at(33)[8] == 'i' && name_at(33)[9] == 'd' && name_at(33)[12] == 'p' && name_at(33)[17] == 'n',
        name_at(34).len() == 26 && name_at(34)[0] == 'f' && name_at(34)[3] == 't' && name_at(34)[8] == 'i' && name_at(34)[9] == 'd' && name_at(34)[12] == 't' && name_at(34)[17] == 'm',
        name_at(35).len() == 26 && name_at(35)[0] == 'f' && name_at(35)[3] == 't' && name_at(35)[8] == 'i' && name_at(35)[9] == 'd' && name_at(35)[12] == 't' && name_at(35)[17] == 'p',
        name_at(36).len() == 10 && name_at(36)[0] == 'f' && name_at(36)[3] == 'o' && name_at(36)[8] == '_' && name_at(36)[9] == 'f',
        name_at(37).len() == 12 && name_at(37)[0] == 'f' && name_at(37)[3] == 'a' && name_at(37)[8] == 'o' && name_at(37)[9] == 't',
        name_at(38).len() == 10 && name_at(38)[0] == 'f' && name_at(38)[3] == 'i' && name_at(38)[8] == 'i' && name_at(38)[9] == 'd',
        name_at(39).len() == 10 && name_at(39)[0] == 'f' && name_at(39)[3] == 'a' && name_at(39)[8] == 'f' && name_at(39)[9] == 'e',
        name_at(40).len() == 11 && name_at(40)[0] == 'f' && name_at(40)[3] == 'a' && name_at(40)[8] == 'o' && name_at(40)[9] == 'o',
        name_at(41).len() == 8 && name_at(41)[0] == 'f' && name_at(41)[3] == 'c',
        name_at(42).len() == 9 && name_at(42)[0] == 'g' && name_at(42)[3] == 'a' && name_at(42)[8] == 'e',
        name_at(43).len() == 13 && name_at(43)[0] == 'g' && name_at(43)[3] == 't' && name_at(43)[8] == '_' && name_at(43)[9] == 'a' && name_at(43)[12] == 'd',
        name_at(44).len() == 16 && name_at(44)[0] == 'g' && name_at(44)[3] == 'c' && name_at(44)[8] == 'd' && name_at(44)[9] == 'e' && name_at(44)[12] == 'r',
        name_at(45).len() == 7 && name_at(45)[0] == 'g' && name_at(45)[3] == 'c',
        name_at(46).len() == 9 && name_at(46)[0] == 'h' && name_at(46)[3] == 't' && name_at(46)[8] == 'e',
        name_at(47).len() == 14 && name_at(47)[0] == 'h' && name_at(47)[3] == 'r' && name_at(47)[8] == 'r' && name_at(47)[9] == 'o' && name_at(47)[12] == 'n',
        name_at(48).len() == 10 && name_at(48)[0] == 'i' && name_at(48)[3] == 'l' && name_at(48)[8] == 'n' && name_at(48)[9] == 'e',
        name_at(49).len() == 7 && name_at(49)[0] == 'l' && name_at(49)[3] == 't',
        name_at(50).len() == 7 && name_at(50)[0] == 'l' && name_at(50)[3] == 'c',
        name_at(51).len() == 17 && name_at(51)[0] == 'l' && name_at(51)[3] == 'e' && name_at(51)[8] == 'e' && name_at(51)[9] == 'a' && name_at(51)[12] == 'n',
        name_at(52).len() == 8 && name_at(52)[0] == 'l' && name_at(52)[3] == 'o',
        name_at(53).len() == 6 && name_at(53)[0] == 'l' && name_at(53)[3] == 'i',
        name_at(54).len() == 7 && name_at(54)[0] == 'm' && name_at(54)[3] == 't',
        name_at(55).len() == 10 && name_at(55)[0] == 'm' && name_at(55)[3] == 'h' && name_at(55)[8] == 'n' && name_at(55)[9] == 'e',
        name_at(56).len() == 12 && name_at(56)[0] == 'm' && name_at(56)[3] == 'n' && name_at(56)[8] == 'm' && name_at(56)[9] == '_',
        name_at(57).len() == 11 && name_at(57)[0] == 'm' && name_at(57)[3] == 'a' && name_at(57)[8] == 'o' && name_at(57)[9] == 'n',
        name_at(58).len() == 12 && name_at(58)[0] == 'm' && name_at(58)[3] == 'g' && name_at(58)[8] == 'e' && name_at(58)[9] == '_',
        name_at(59).len() == 6 && name_at(59)[0] == 'n' && name_at(59)[3] == 'c',
        name_at(60).len() == 15 && name_at(60)[0] == 'v' && name_at(60)[3] == 'a' && name_at(60)[8] == 'e' && name_at(60)[9] == '_' && name_at(60)[12] == 'd',
        name_at(61).len() == 15 && name_at(61)[0] == 'v' && name_at(61)[3] == 'a' && name_at(61)[8] == 'b' && name_at(61)[9] == '_' && name_at(61)[12] == 'd',
        name_at(62).len() == 16 && name_at(62)[0] == 'a' && name_at(62)[3] == 'u' && name_at(62)[8] == '_' && name_at(62)[9] == 'p' && name_at(62)[12] == 't',
        name_at(63).len() == 12 && name_at(63)[0] == 'p' && name_at(63)[3] == 's' && name_at(63)[8] == 'u' && name_at(63)[9] == 's',
        name_at(64).len() == 16 && name_at(64)[0] == 'p' && name_at(64)[3] == 't' && name_at(64)[8] == 'n' && name_at(64)[9] == 'i' && name_at(64)[12] == 'a',
        name_at(65).len() == 13 && name_at(65)[0] == 'p' && name_at(65)[3] == 'n' && name_at(65)[8] == 'a' && name_at(65)[9] == 'n' && name_at(65)[12] == 'e',
        name_at(66).len() == 12 && name_at(66)[0] == 'p' && name_at(66)[3] == 't' && name_at(66)[8] == 'r' && name_at(66)[9] == 'o',
        name_at(67).len() == 7 && name_at(67)[0] == 'p' && name_at(67)[3] == 'l',
        name_at(68).len() == 7 && name_at(68)[0] == 'r' && name_at(68)[3] == 'i',
        name_at(69).len() == 10 && name_at(69)[0] == 'r' && name_at(69)[3] == 'o' && name_at(69)[8] == 'i' && name_at(69)[9] == 'n',
        name_at(70).len() == 11 && name_at(70)[0] == 's' && name_at(70)[3] == 'e' && name_at(70)[8] == '_' && name_at(70)[9] == 's',
        name_at(71).len() == 6 && name_at(71)[0] == 's' && name_at(71)[3] == 'i',
        name_at(72).len() == 14 && name_at(72)[0] == 'b' && name_at(72)[3] == 'a' && name_at(72)[8] == 's' && name_at(72)[9] == 't' && name_at(72)[12] == 'o',
        name_at(73).len() == 6 && name_at(73)[0] == 's' && name_at(73)[3] == 'r',
        name_at(74).len() == 12 && name_at(74)[0] == 's' && name_at(74)[3] == 'g' && name_at(74)[8] == 'e' && name_at(74)[9] == 'r',
        name_at(75).len() == 7 && name_at(75)[0] == 's' && name_at(75)[3] == 'r',
        name_at(76).len() == 11 && name_at(76)[0] == 't' && name_at(76)[3] == 'o' && name_at(76)[8] == 'i' && name_at(76)[9] == 'n',
        name_at(77).len() == 7 && name_at(77)[0] == 't' && name_at(77)[3] == 'a',
        name_at(78).len() == 9 && name_at(78)[0] == 't' && name_at(78)[3] == 'e' && name_at(78)[8] == 'e',
        name_at(79).len() == 25 && name_at(79)[0] == 'v' && name_at(79)[3] == 'a' && name_at(79)[8] == 'e' && name_at(79)[9] == '_' && name_at(79)[12] == 'p' && name_at(79)[17] == 'c',
        name_at(80).len() == 15 && name_at(80)[0] == 't' && name_at(80)[3] == 'o' && name_at(80)[8] == 'o' && name_at(80)[9] == 'l' && name_at(80)[12] == 'e',
        name_at(81).len() == 16 && name_at(81)[0] == 't' && name_at(81)[3] == 'o' && name_at(81)[8] == 'o' && name_at(81)[9] == 'l' && name_at(81)[12] == 'e',
        name_at(82).len() == 16 && name_at(82)[0] == 't' && name_at(82)[3] == 'o' && name_at(82)[8] == 'o' && name_at(82)[9] == 'l' && name_at(82)[12] == 'a',
        name_at(83).len() == 10 && name_at(83)[0] == 't' && name_at(83)[3] == 'p' && name_at(83)[8] == 'a' && name_at(83)[9] == 'n',
        name_at(84).len() == 8 && name_at(84)[0] == 't' && name_at(84)[3] == 'o',
        name_at(85).len() == 6 && name_at(85)[0] == 'v' && name_at(85)[3] == 'i',
        name_at(86).len() == 12 && name_at(86)[0] == 'v' && name_at(86)[3] == 'a' && name_at(86)[8] == 'a' && name_at(86)[9] == '_',
        name_at(87).len() == 13 && name_at(87)[0] == 'v' && name_at(87)[3] == 'a' && name_at(87)[8] == 'a' && name_at(87)[9] == '_' && name_at(87)[12] == 'e',
        name_at(88).len() == 11 && name_at(88)[0] == 'v' && name_at(88)[3] == 'a' && name_at(88)[8] == 'b' && name_at(88)[9] == '1',
        name_at(89).len() == 10 && name_at(89)[0] == 'v' && name_at(89)[3] == 'a' && name_at(89)[8] == 'b' && name_at(89)[9] == '6',
        name_at(90).len() == 29 && name_at(90)[0] == 'v' && name_at(90)[3] == 'a' && name_at(90)[8] == 'c' && name_at(90)[9] == '_' && name_at(90)[12] == 't' && name_at(90)[17] == 's',
        name_at(91).len() == 23 && name_at(91)[0] == 'v' && name_at(91)[3] == 'a' && name_at(91)[8] == 'k' && name_at(91)[9] == '_' && name_at(91)[12] == 'y' && name_at(91)[17] == 'u',
        name_at(92).len() == 20 && name_at(92)[0] == 'd' && name_at(92)[3] == 'y' && name_at(92)[8] == 'h' && name_at(92)[9] == 'y' && name_at(92)[12] == 'o' && name_at(92)[17] == 'o',
        name_at(93).len() == 5 && name_at(93)[0] == 'w' && name_at(93)[3] == 'e',
        name_at(94).len() == 7 && name_at(94)[0] == 'z' && name_at(94)[3] == 'c',
        name_at(95).len() == 17 && name_at(95)[0] == 't' && name_at(95)[3] == 'o' && name_at(95)[8] == 'n' && name_at(95)[9] == 'o' && name_at(95)[12] == 'a',
        name_at(96).len() == 16 && name_at(96)[0] == 't' && name_at(96)[3] == 'o' && name_at(96)[8] == 'n' && name_at(96)[9] == 'o' && name_at(96)[12] == 'b',
        name_at(97).len() == 17 && name_at(97)[0] == 't' && name_at(97)[3] == 'o' && name_at(97)[8] == 'n' && name_at(97)[9] == 'o' && name_at(97)[12] == 'g',
        name_at(98).len() == 17 && name_at(98)[0] == 't' && name_at(98)[3] == 'o' && name_at(98)[8] == 'n' && name_at(98)[9] == 'o' && name_at(98)[12] == 'd',
{
    reveal_strlit("calcium_ca");
    reveal_strlit("carbohydrates");
    reveal_strlit("cholesterol");
    reveal_strlit("energy");
    reveal_strlit("fatty_acids_saturated");
    reveal_strlit("total_lipid_fat");
    reveal_strlit("fatty_acids_trans");
    reveal_strlit("iron_fe");
    reveal_strlit("fiber_dietary");
    reveal_strlit("potassium_k");
    reveal_strlit("sodium_na");
    reveal_strlit("protein");
    reveal_strlit("sugars_total");
    reveal_strlit("sugars_added");
    reveal_strlit("vitamin_d");
    reveal_strlit("alanine");
    reveal_strlit("alcohol_ethyl");
    reveal_strlit("arginine");
    reveal_strlit("ash");
    reveal_strlit("aspartic_acid");
    reveal_strlit("betaine");
    reveal_strlit("caffeine");
    reveal_strlit("campesterol");
    reveal_strlit("carotene_alpha");
    reveal_strlit("carotene_beta");
    reveal_strlit("vitamin_d3");
    reveal_strlit("choline_total");
    reveal_strlit("cryptoxanthin_beta");
    reveal_strlit("copper_cu");
    reveal_strlit("cystine");
    reveal_strlit("energy_kj");
    reveal_strlit("vitamin_d2");
    reveal_strlit("fatty_acids_monounsaturated");
    reveal_strlit("fatty_acids_polyunsaturated");
    reveal_strlit("fatty_acids_transmonoenoic");
    reveal_strlit("fatty_acids_transpolyenoic");
    reveal_strlit("fluoride_f");
    reveal_strlit("folate_total");
    reveal_strlit("folic_acid");
    reveal_strlit("folate_dfe");
    reveal_strlit("folate_food");
    reveal_strlit("fructose");
    reveal_strlit("galactose");
    reveal_strlit("glutamic_acid");
    reveal_strlit("glucose_dextrose");
    reveal_strlit("glycine");
    reveal_strlit("histidine");
    reveal_strlit("hydroxyproline");
    reveal_strlit("isoleucine");
    reveal_strlit("lactose");
    reveal_strlit("leucine");
    reveal_strlit("lutein_zeaxanthin");
    reveal_strlit("lycopene");
    reveal_strlit("lysine");
    reveal_strlit("maltose");
    reveal_strlit("methionine");
    reveal_strlit("magnesium_mg");
    reveal_strlit("menaquinone");
    reveal_strlit("manganese_mn");
    reveal_strlit("niacin");
    reveal_strlit("vitamin_e_added");
    reveal_strlit("vitamin_b_added");
    reveal_strlit("adjusted_protein");
    reveal_strlit("phosphorus_p");
    reveal_strlit("pantothenic_acid");
    reveal_strlit("phenylalanine");
    reveal_strlit("phytosterols");
    reveal_strlit("proline");
    reveal_strlit("retinol");
    reveal_strlit("riboflavin");
    reveal_strlit("selenium_se");
    reveal_strlit("serine");
    reveal_strlit("betasitosterol");
    reveal_strlit("starch");
    reveal_strlit("stigmasterol");
    reveal_strlit("sucrose");
    reveal_strlit("theobromine");
    reveal_strlit("thiamin");
    reveal_strlit("threonine");
    reveal_strlit("vitamin_e_alphatocopherol");
    reveal_strlit("tocopherol_beta");
    reveal_strlit("tocopherol_delta");
    reveal_strlit("tocopherol_gamma");
    reveal_strlit("tryptophan");
    reveal_strlit("tyrosine");
    reveal_strlit("valine");
    reveal_strlit("vitamin_a_iu");
    reveal_strlit("vitamin_a_rae");
    reveal_strlit("vitamin_b12");
    reveal_strlit("vitamin_b6");
    reveal_strlit("vitamin_c_total_ascorbic_acid");
    reveal_strlit("vitamin_k_phylloquinone");
    reveal_strlit("dihydrophylloquinone");
    reveal_strlit("water");
    reveal_strlit("zinc_zn");
    reveal_strlit("tocotrienol_alpha");
    reveal_strlit("tocotrienol_beta");
    reveal_strlit("tocotrienol_gamma");
    reveal_strlit("tocotrienol_delta");
}

/// The names at positions 0 to 10 are column names.
proof fn lemma_column_names_from_0(i: int)
    requires
        0 <= i < 11,
    ensures
        is_column_name(name_at(i)),
{
    reveal_strlit("calcium_ca");
    reveal_strlit("carbohydrates");
    reveal_strlit("cholesterol");
    reveal_strlit("energy");
    reveal_strlit("fatty_acids_saturated");
    reveal_strlit("total_lipid_fat");
    reveal_strlit("fatty_acids_trans");
    reveal_strlit("iron_fe");
    reveal_strlit("fiber_dietary");
    reveal_strlit("potassium_k");
    reveal_strlit("sodium_na");
}

/// The names at positions 11 to 21 are column names.
proof fn lemma_column_names_from_11(i: int)
    requires
        11 <= i < 22,
    ensures
        is_column_name(name_at(i)),
{
    reveal_strlit("protein");
    reveal_strlit("sugars_total");
    reveal_strlit("sugars_added");
    reveal_strlit("vitamin_d");
    reveal_strlit("alanine");
    reveal_strlit("alcohol_ethyl");
    reveal_strlit("arginine");
    reveal_strlit("ash");
    reveal_strlit("aspartic_acid");
    reveal_strlit("betaine");
    reveal_strlit("caffeine");
}

/// The names at positions 22 to 32 are column names.
proof fn lemma_column_names_from_22(i: int)
    requires
        22 <= i < 33,
    ensures
        is_column_name(name_at(i)),
{
    reveal_strlit("campesterol");
    reveal_strlit("carotene_alpha");
    reveal_strlit("carotene_beta");
    reveal_strlit("vitamin_d3");
    reveal_strlit("choline_total");
    reveal_strlit("cryptoxanthin_beta");
    reveal_strlit("copper_cu");
    reveal_strlit("cystine");
    reveal_strlit("energy_kj");
    reveal_strlit("vitamin_d2");
    reveal_strlit("fatty_acids_monounsaturated");
}

/// The names at positions 33 to 43 are column names.
proof fn lemma_column_names_from_33(i: int)
    requires
        33 <= i < 44,
    ensures
        is_column_name(name_at(i)),
{
    reveal_strlit("fatty_acids_polyunsaturated");
    reveal_strlit("fatty_acids_transmonoenoic");
    reveal_strlit("fatty_acids_transpolyenoic");
    reveal_strlit("fluoride_f");
    reveal_strlit("folate_total");
    reveal_strlit("folic_acid");
    reveal_strlit("folate_dfe");
    reveal_strlit("folate_food");
    reveal_strlit("fructose");
    reveal_strlit("galactose");
    reveal_strlit("glutamic_acid");
}

/// The names at positions 44 to 54 are column names.
proof fn lemma_column_names_from_44(i: int)
    requires
        44 <= i < 55,
    ensures
        is_column_name(name_at(i)),
{
    reveal_strlit("glucose_dextrose");
    reveal_strlit("glycine");
    reveal_strlit("histidine");
    reveal_strlit("hydroxyproline");
    reveal_strlit("isoleucine");
    reveal_strlit("lactose");
    reveal_strlit("leucine");
    reveal_strlit("lutein_zeaxanthin");
    reveal_strlit("lycopene");
    reveal_strlit("lysine");
    reveal_strlit("maltose");
}

/// The names at positions 55 to 65 are column names.
proof fn lemma_column_names_from_55(i: int)
    requires
        55 <= i < 66,
    ensures
        is_column_name(name_at(i)),
{
    reveal_strlit("methionine");
    reveal_strlit("magnesium_mg");
    reveal_strlit("menaquinone");
    reveal_strlit("manganese_mn");
    reveal_strlit("niacin");
    reveal_strlit("vitamin_e_added");
    reveal_strlit("vitamin_b_added");
    reveal_strlit("adjusted_protein");
    reveal_strlit("phosphorus_p");
    reveal_strlit("pantothenic_acid");
    reveal_strlit("phenylalanine");
}

/// The names at positions 66 to 76 are column names.
proof fn lemma_column_names_from_66(i: int)
    requires
        66 <= i < 77,
    ensures
        is_column_name(name_at(i)),
{
    reveal_strlit("phytosterols");
    reveal_strlit("proline");
    reveal_strlit("retinol");
    reveal_strlit("riboflavin");
    reveal_strlit("selenium_se");
    reveal_strlit("serine");
    reveal_strlit("betasitosterol");
    reveal_strlit("starch");
    reveal_strlit("stigmasterol");
    reveal_strlit("sucrose");
    reveal_strlit("theobromine");
}

/// The names at positions 77 to 87 are column names.
proof fn lemma_column_names_from_77(i: int)
    requires
        77 <= i < 88,
    ensures
        is_column_name(name_at(i)),
{
    reveal_strlit("thiamin");
    reveal_strlit("threonine");
    reveal_strlit("vitamin_e_alphatocopherol");
    reveal_strlit("tocopherol_beta");
    reveal_strlit("tocopherol_delta");
    reveal_strlit("tocopherol_gamma");
    reveal_strlit("tryptophan");
    reveal_strlit("tyrosine");
    reveal_strlit("valine");
    reveal_strlit("vitamin_a_iu");
    reveal_strlit("vitamin_a_rae");
}

/// The names at positions 88 to 98 are column names.
proof fn lemma_column_names_from_88(i: int)
    requires
        88 <= i < 99,
    ensures
        is_column_name(name_at(i)),
{
    reveal_strlit("vitamin_b12");
    reveal_strlit("vitamin_b6");
    reveal_strlit("vitamin_c_total_ascorbic_acid");
    reveal_strlit("vitamin_k_phylloquinone");
    reveal_strlit("dihydrophylloquinone");
    reveal_strlit("water");
    reveal_strlit("zinc_zn");
    reveal_strlit("tocotrienol_alpha");
    reveal_strlit("tocotrienol_beta");
    reveal_strlit("tocotrienol_gamma");
    reveal_strlit("tocotrienol_delta");
}

/// Every catalog name can be written into a statement as the name of a
/// column, as it stands.
pub proof fn lemma_names_are_column_names(i: int)
    requires
        0 <= i < NUTRIENT_COUNT,
    ensures
        is_column_name(name_at(i)),
{
    if i < 11 {
        lemma_column_names_from_0(i);
    } else if i < 22 {
        lemma_column_names_from_11(i);
    } else if i < 33 {
        lemma_column_names_from_22(i);
    } else if i < 44 {
        lemma_column_names_from_33(i);
    } else if i < 55 {
        lemma_column_names_from_44(i);
    } else if i < 66 {
        lemma_column_names_from_55(i);
    } else if i < 77 {
        lemma_column_names_from_66(i);
    } else if i < 88 {
        lemma_column_names_from_77(i);
    } else if i < 99 {
        lemma_column_names_from_88(i);
    }
}

/// No two positions of the catalog carry the same name.
pub proof fn lemma_names_distinct(i: int, j: int)
    requires
        0 <= i < NUTRIENT_COUNT,
        0 <= j < NUTRIENT_COUNT,
        name_at(i) == name_at(j),
    ensures
        i == j,
{
    lemma_name_marks();
}

/// No two positions of the catalog carry the same external code.
pub proof fn lemma_codes_distinct(i: int, j: int)
    requires
        0 <= i < NUTRIENT_COUNT,
        0 <= j < NUTRIENT_COUNT,
        code_at(i) == code_at(j),
    ensures
        i == j,
{
}

/// A catalog name is found again at its own position.
pub proof fn lemma_position_of_name(i: int)
    requires
        0 <= i < NUTRIENT_COUNT,
    ensures
        is_catalog_name(name_at(i)),
        position_of_name(name_at(i)) == i,
{
    lemma_names_distinct(position_of_name(name_at(i)), i);
}

/// A catalog code is found again at its own position, and resolves to the
/// name at that position.
pub proof fn lemma_position_of_code(i: int)
    requires
        0 <= i < NUTRIENT_COUNT,
    ensures
        is_known_code(code_at(i)),
        position_of_code(code_at(i)) == i,
        name_of_code(code_at(i)) == Some(name_at(i)),
{
    lemma_codes_distinct(position_of_code(code_at(i)), i);
}

/// Every name that an external code resolves to is a catalog name.
pub proof fn lemma_code_names_in_catalog(code: u32)
    requires
        name_of_code(code) is Some,
    ensures
        is_catalog_name(name_of_code(code)->0),
{
}

/// The catalog: every nutrient name, in column order.
pub fn catalog() -> (names: Vec<&'static str>)
    ensures
        names@.len() == NUTRIENT_COUNT,
        forall|i: int| 0 <= i < NUTRIENT_COUNT ==> (#[trigger] names@[i])@ == name_at(i),
{
    let mut names: Vec<&'static str> = Vec::new();
    let mut i: usize = 0;
    while i < NUTRIENT_COUNT
        invariant
            i <= NUTRIENT_COUNT,
            names@.len() == i,
            forall|j: int| 0 <= j < i ==> (#[trigger] names@[j])@ == name_at(j),
        decreases NUTRIENT_COUNT - i,
    {
        names.push(nutrient_name(i));
        i += 1;
    }
    names
}

/// Resolves a code of the external nutrient source to the catalog name it
/// stands for. A code that the catalog does not know gives `None`.
pub fn code_to_name(code: u32) -> (name: Option<&'static str>)
    ensures
        match name {
            Some(n) => name_of_code(code) == Some(n@),
            None => name_of_code(code) is None,
        },
{
    let mut i: usize = 0;
    while i < NUTRIENT_COUNT
        invariant
            i <= NUTRIENT_COUNT,
            forall|j: int| 0 <= j < i ==> code_at(j) != code,
        decreases NUTRIENT_COUNT - i,
    {
        if nutrient_code(i) == code {
            proof {
                lemma_position_of_code(i as int);
            }
            return Some(nutrient_name(i));
        }
        i += 1;
    }
    None
}

/// The code-to-name table as a hash map: one entry for each catalog
/// nutrient, from its external code to its name.
pub fn get_nutrient_name_map() -> (map: HashMap<u32, &'static str>)
    ensures
        forall|code: u32| map@.contains_key(code) <==> is_known_code(code),
        forall|code: u32| is_known_code(code) ==> name_of_code(code) == Some(map@[code]@),
        map@.len() == NUTRIENT_COUNT,
{
    let mut map: HashMap<u32, &'static str> = HashMap::new();
    let mut i: usize = 0;
    while i < NUTRIENT_COUNT
        invariant
            i <= NUTRIENT_COUNT,
            map@.dom().finite(),
            map@.len() == i,
            forall|code: u32|
                map@.contains_key(code) <==> exists|j: int| 0 <= j < i && code_at(j) == code,
            forall|j: int| 0 <= j < i ==> (#[trigger] map@[code_at(j)])@ == name_at(j),
        decreases NUTRIENT_COUNT - i,
    {
        let code = nutrient_code(i);
        let name = nutrient_name(i);
        proof {
            assert(!map@.contains_key(code)) by {
                if map@.contains_key(code) {
                    let j = choose|j: int| 0 <= j < i && code_at(j) == code;
                    lemma_codes_distinct(j, i as int);
                }
            }
            assert forall|j: int| 0 <= j < i implies code_at(j) != code by {
                if code_at(j) == code {
                    lemma_codes_distinct(j, i as int);
                }
            }
        }
        map.insert(code, name);
        i += 1;
    }
    proof {
        assert forall|code: u32| is_known_code(code) implies name_of_code(code) == Some(
            map@[code]@,
        ) by {
            let j = position_of_code(code);
            assert(map@[code_at(j)]@ == name_at(j));
        }
    }
    map
}

} // verus!
