use nutrition_tracker::amount::Amount;
use nutrition_tracker::clock::{timestamp_at, LAST_SECOND, TIMESTAMP_PATTERN};
use nutrition_tracker::display::selected_food_label;
use nutrition_tracker::food::Food;
use nutrition_tracker::nutrients::{unknown_codes, ApiFood, Nutrient, NutrientMap};
use nutrition_tracker::query::{
    named_nutrients, query_action, query_line_entered, query_nutritionx, query_nutritionx_cli,
    query_nutritionx_cli_start, unit_for, Answer, QueryAction, QueryError, QueryEvent, QuerySession,
    QueryState,
};
use nutrition_tracker::session::{Notice, Prompt};
use nutrition_tracker::text::{folded, is_word, read_input};

fn amount(value: f32) -> Amount {
    Amount::from_bits(value.to_bits())
}

fn apple() -> ApiFood {
    ApiFood {
        food_name: "apple".to_string(),
        serving_weight_grams: amount(182.0),
        full_nutrients: vec![
            Nutrient { attr_id: 203, value: amount(0.47) },
            Nutrient { attr_id: 1003, value: amount(0.3) },
            Nutrient { attr_id: 208, value: amount(94.64) },
            Nutrient { attr_id: 203, value: amount(0.5) },
        ],
    }
}

fn asking(query: &str) -> QuerySession {
    QuerySession { state: QueryState::Asking { query: query.to_string() }, collected: Vec::new() }
}

#[test]
fn input_is_the_line_without_the_space_around_it() {
    assert_eq!(read_input("  Apple pie \r\n"), "Apple pie");
    assert_eq!(read_input("Apple"), "Apple");
    assert_eq!(read_input("\t\n"), "");
    assert_eq!(read_input(""), "");
    assert_eq!(read_input("\u{2003}Apple\u{a0}"), "Apple");
    assert_eq!(read_input(" a  b "), "a  b");
}

#[test]
fn input_that_is_read_again_stays_as_it_is() {
    for line in ["  Apple pie \r\n", "Apple", " \t ", "", "\u{2003}a b\u{a0}"] {
        let once = read_input(line);
        assert_eq!(read_input(&once), once);
        assert!(once.chars().next().map_or(true, |c| !c.is_whitespace()));
        assert!(once.chars().last().map_or(true, |c| !c.is_whitespace()));
        assert!(line.contains(once.as_str()));
    }
}

#[test]
fn key_of_an_input_is_in_lower_case() {
    assert_eq!(folded("EXIT"), "exit");
    assert_eq!(folded(" Exit "), "exit");
    assert_eq!(folded("\u{a0}\u{2003}Grüße \u{3000}\n"), "grüße");
    assert_eq!(folded("  DoNe\n"), "done");
    assert_eq!(folded("done"), "done");
    assert!(is_word("done", "done"));
    assert!(!is_word("Done", "done"));
    assert!(!is_word("don", "done"));
}

#[test]
fn timestamp_is_month_day_year_and_time_of_the_second() {
    assert_eq!(TIMESTAMP_PATTERN, "%m-%d-%y %H:%M:%S");
    assert_eq!(timestamp_at(0).as_deref(), Some("01-01-70 00:00:00"));
    assert_eq!(timestamp_at(1).as_deref(), Some("01-01-70 00:00:01"));
    assert_eq!(timestamp_at(-1).as_deref(), Some("12-31-69 23:59:59"));
    assert_eq!(timestamp_at(1_431_648_000).as_deref(), Some("05-15-15 00:00:00"));
    assert_eq!(timestamp_at(1_710_009_000).as_deref(), Some("03-09-24 18:30:00"));
    assert_eq!(timestamp_at(951_782_399).as_deref(), Some("02-28-00 23:59:59"));
    assert_eq!(timestamp_at(951_782_400).as_deref(), Some("02-29-00 00:00:00"));
}

#[test]
fn timestamp_reaches_the_end_of_the_year_9999() {
    assert_eq!(LAST_SECOND, 253_402_300_799);
    assert_eq!(timestamp_at(LAST_SECOND).as_deref(), Some("12-31-99 23:59:59"));
    assert_eq!(timestamp_at(LAST_SECOND + 1).as_deref(), Some("01-01-00 00:00:00"));
}

#[test]
fn timestamp_has_its_form_wherever_there_is_one() {
    for seconds in [0, 59, 86_399, 86_400, -86_401, 1_000_000_007, LAST_SECOND, -62_198_755_200] {
        let stamp = timestamp_at(seconds).unwrap();
        assert_eq!(stamp.len(), 17);
        let number = |at: usize| stamp[at..at + 2].parse::<u32>().unwrap();
        assert!((1..=12).contains(&number(0)));
        assert_eq!(&stamp[2..3], "-");
        assert!((1..=31).contains(&number(3)));
        assert_eq!(&stamp[5..6], "-");
        assert!(number(6) <= 99);
        assert_eq!(&stamp[8..9], " ");
        assert!(number(9) <= 23);
        assert_eq!(&stamp[11..12], ":");
        assert!(number(12) <= 59);
        assert_eq!(&stamp[14..15], ":");
        assert!(number(15) <= 60);
    }
}

#[test]
fn timestamp_is_none_beyond_the_calendar() {
    assert_eq!(timestamp_at(i64::MAX), None);
    assert_eq!(timestamp_at(i64::MIN), None);
}

#[test]
fn answer_with_candidates_gives_them() {
    let outcome = query_nutritionx(Answer::Foods { foods: vec![apple()] }).unwrap();
    assert_eq!(outcome.len(), 1);
    assert_eq!(outcome[0].food_name, "apple");
    assert_eq!(outcome[0].serving_weight_grams, amount(182.0));
    assert_eq!(outcome[0].full_nutrients.len(), 4);
}

#[test]
fn answer_without_candidates_is_not_found() {
    assert_eq!(
        query_nutritionx(Answer::Foods { foods: Vec::new() }).err(),
        Some(QueryError::NotFound)
    );
    assert_eq!(query_nutritionx(Answer::Rejected).err(), Some(QueryError::NotFound));
}

#[test]
fn answer_that_cannot_be_read_is_a_network_error() {
    let answer = Answer::Unreachable { reason: "timed out".to_string() };
    assert_eq!(
        query_nutritionx(answer).err(),
        Some(QueryError::Network("timed out".to_string()))
    );
}

#[test]
fn query_errors_have_their_words() {
    assert_eq!(QueryError::NotFound.message(), "No results found for the given query");
    assert_eq!(
        QueryError::Network("timed out".to_string()).message(),
        "Network request failed: timed out"
    );
    assert_eq!(QueryError::Network(String::new()).message(), "Network request failed: ");
}

#[test]
fn nutrients_are_shown_under_their_names_in_the_order_reported() {
    let shown = named_nutrients(&apple().full_nutrients);
    let lines: Vec<(&str, Amount, &str)> =
        shown.iter().map(|line| (line.name, line.value, line.unit)).collect();
    assert_eq!(
        lines,
        [
            ("protein", amount(0.47), "g"),
            ("energy", amount(94.64), "g"),
            ("protein", amount(0.5), "g"),
        ]
    );
    assert!(named_nutrients(&Vec::new()).is_empty());
}

#[test]
fn every_fact_is_shown_or_dropped() {
    let facts = apple().full_nutrients;
    assert_eq!(named_nutrients(&facts).len() + unknown_codes(&facts).len(), facts.len());
    assert_eq!(unknown_codes(&facts), [1003]);
}

#[test]
fn unit_is_grams_but_for_the_name_energy_with_a_capital() {
    assert_eq!(unit_for("Energy"), "kcal");
    assert_eq!(unit_for("energy"), "g");
    assert_eq!(unit_for("protein"), "g");
    assert_eq!(unit_for(""), "g");
}

#[test]
fn query_dialogue_collects_what_the_source_gives() {
    let session = query_nutritionx_cli_start();
    assert_eq!(session.state, QueryState::AwaitQuery);
    assert!(session.collected.is_empty());
    assert_eq!(query_action(&session.state), QueryAction::ReadLine { prompt: Prompt::FoodQuery });

    let step = query_nutritionx_cli(session, QueryEvent::Line(" 1 apple \n".to_string()));
    assert_eq!(step.session.state, QueryState::Asking { query: "1 apple".to_string() });
    assert_eq!((step.notice, step.show_last), (None, false));
    assert_eq!(
        query_action(&step.session.state),
        QueryAction::Ask { query: "1 apple".to_string() }
    );

    let answer = Answer::Foods { foods: vec![apple()] };
    let step = query_nutritionx_cli(step.session, QueryEvent::Answer(answer));
    assert_eq!(step.session.state, QueryState::AwaitQuery);
    assert_eq!((step.notice, step.show_last), (None, true));
    assert_eq!(step.session.collected.len(), 1);
    assert_eq!(step.session.collected[0].foods[0].food_name, "apple");

    let step = query_nutritionx_cli(step.session, QueryEvent::Line("gravel".to_string()));
    let step = query_nutritionx_cli(step.session, QueryEvent::Answer(Answer::Rejected));
    assert_eq!(step.session.state, QueryState::AwaitQuery);
    assert_eq!((step.notice, step.show_last), (Some(Notice::FoodNotInDatabase), false));
    assert_eq!(step.session.collected.len(), 1);

    let step = query_nutritionx_cli(step.session, QueryEvent::Line("EXIT".to_string()));
    assert_eq!(step.session.state, QueryState::Done);
    assert_eq!(step.session.collected.len(), 1);
    assert_eq!(query_action(&step.session.state), QueryAction::Finish);
}

#[test]
fn query_dialogue_tells_of_an_answer_without_candidates() {
    let answer = Answer::Foods { foods: Vec::new() };
    let step = query_nutritionx_cli(asking("gravel"), QueryEvent::Answer(answer));
    assert_eq!(step.session.state, QueryState::AwaitQuery);
    assert_eq!((step.notice, step.show_last), (Some(Notice::FoodNotInDatabase), false));
    assert!(step.session.collected.is_empty());
}

#[test]
fn query_dialogue_tells_of_a_source_that_cannot_be_read_as_of_no_food() {
    let answer = Answer::Unreachable { reason: "no route".to_string() };
    let step = query_nutritionx_cli(asking("apple"), QueryEvent::Answer(answer));
    assert_eq!(step.session.state, QueryState::AwaitQuery);
    assert_eq!((step.notice, step.show_last), (Some(Notice::FoodNotInDatabase), false));
    assert!(step.session.collected.is_empty());
}

#[test]
fn query_dialogue_stays_over_once_it_is_over() {
    let session = QuerySession { state: QueryState::Done, collected: Vec::new() };
    let step = query_nutritionx_cli(session, QueryEvent::Line("apple".to_string()));
    assert_eq!((step.session.state, step.notice, step.show_last), (QueryState::Done, None, false));
}

#[test]
fn query_dialogue_ignores_what_it_does_not_wait_for() {
    let step =
        query_nutritionx_cli(query_nutritionx_cli_start(), QueryEvent::Answer(Answer::Rejected));
    assert_eq!((step.session.state, step.notice), (QueryState::AwaitQuery, None));
    let step = query_nutritionx_cli(asking("apple"), QueryEvent::Line("pear".to_string()));
    assert_eq!(step.session.state, QueryState::Asking { query: "apple".to_string() });
}

#[test]
fn query_is_asked_unless_its_key_is_exit() {
    assert_eq!(query_line_entered("Exit".to_string(), "exit"), QueryState::Done);
    assert_eq!(
        query_line_entered("exit".to_string(), "exits"),
        QueryState::Asking { query: "exit".to_string() }
    );
}

#[test]
fn label_names_the_food_chosen() {
    let foods = vec![
        Food::new("Apple", amount(182.0), NutrientMap::new()),
        Food::new("Pear", amount(170.0), NutrientMap::new()),
    ];
    assert_eq!(selected_food_label(&foods, 0), "Selected food: Apple");
    assert_eq!(selected_food_label(&foods, 1), "Selected food: Pear");
    assert_eq!(selected_food_label(&foods, 2), "No food selected");
    assert_eq!(selected_food_label(&Vec::new(), 0), "No food selected");
}
