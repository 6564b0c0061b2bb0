//! Queries to the external nutrient source: what an answer means, what is
//! shown of it, and the dialogue that asks food after food.

use vstd::prelude::*;
use vstd::string::StringExecFns;
use crate::amount::Amount;
use crate::catalog::{code_to_name, name_of_code};
use crate::nutrients::{unknown, ApiFood, Nutrient, NutritionxResponse};
use crate::session::{Notice, Prompt};
use crate::text::{folded, is_word, lowercased, read_input, trimmed, EXIT};

verus! {

/// What comes before the reason of a network error, in words.
pub const NETWORK_FAILED: &'static str = "Network request failed: ";

/// That the source knows no food for the query, in words.
pub const NO_RESULTS: &'static str = "No results found for the given query";

/// The one name whose amount is shown in kilocalories.
pub const ENERGY: &'static str = "Energy";

/// The unit of `ENERGY`.
pub const KILOCALORIES: &'static str = "kcal";

/// The unit of every other nutrient.
pub const GRAMS: &'static str = "g";

/// Why a query to the external nutrient source gave no foods.
#[derive(Clone, Debug, PartialEq, Eq)]
pub enum QueryError {
    /// The source could not be reached, did not answer in time, or answered
    /// what cannot be read.
    Network(String),
    /// The source knows no food for the query.
    NotFound,
}

/// What a `QueryError` stands for.
pub enum QueryErrorView {
    Network(Seq<char>),
    NotFound,
}

impl QueryErrorView {
    /// The error in words.
    pub open spec fn message(self) -> Seq<char> {
        match self {
            QueryErrorView::Network(reason) => NETWORK_FAILED@ + reason,
            QueryErrorView::NotFound => NO_RESULTS@,
        }
    }
}

impl DeepView for QueryError {
    type V = QueryErrorView;

    open spec fn deep_view(&self) -> QueryErrorView {
        match self {
            QueryError::Network(reason) => QueryErrorView::Network(reason@),
            QueryError::NotFound => QueryErrorView::NotFound,
        }
    }
}

impl View for QueryError {
    type V = QueryErrorView;

    open spec fn view(&self) -> QueryErrorView {
        self.deep_view()
    }
}

impl QueryError {
    /// The error in words.
    pub fn message(&self) -> (text: String)
        ensures
            text@ == self@.message(),
    {
        match self {
            QueryError::Network(reason) => {
                let mut text = String::from_str(NETWORK_FAILED);
                text.append(reason.as_str());
                text
            },
            QueryError::NotFound => String::from_str(NO_RESULTS),
        }
    }
}

/// What came of one request to the external nutrient source.
#[derive(Clone, Debug)]
pub enum Answer {
    /// No answer that can be read: the request failed, ran out of time, or
    /// its answer was malformed.
    Unreachable { reason: String },
    /// The source answered with a status that is not a success.
    Rejected,
    /// The source answered with these candidates.
    Foods { foods: Vec<ApiFood> },
}

/// Reads the answer of the external nutrient source to a query: its
/// candidates where it gave at least one, `QueryError::NotFound` where it
/// gave none or did not answer with a success, and `QueryError::Network`
/// where no answer could be read.
pub fn query_nutritionx(answer: Answer) -> (outcome: Result<Vec<ApiFood>, QueryError>)
    ensures
        match answer {
            Answer::Unreachable { reason } => outcome is Err && outcome->Err_0@
                == QueryErrorView::Network(reason@),
            Answer::Rejected => outcome is Err && outcome->Err_0@ == QueryErrorView::NotFound,
            Answer::Foods { foods } => if foods@.len() == 0 {
                outcome is Err && outcome->Err_0@ == QueryErrorView::NotFound
            } else {
                outcome == Ok::<Vec<ApiFood>, QueryError>(foods)
            },
        },
{
    match answer {
        Answer::Unreachable { reason } => Err(QueryError::Network(reason)),
        Answer::Rejected => Err(QueryError::NotFound),
        Answer::Foods { foods } => {
            if foods.len() == 0 {
                Err(QueryError::NotFound)
            } else {
                Ok(foods)
            }
        },
    }
}

/// One nutrient of a candidate as it is shown to the user: the catalog name
/// of the nutrient, the amount and the unit.
#[derive(Clone, Copy, Debug)]
pub struct NamedAmount {
    pub name: &'static str,
    pub value: Amount,
    pub unit: &'static str,
}

/// What a `NamedAmount` stands for.
pub struct NamedAmountView {
    pub name: Seq<char>,
    pub value: Amount,
    pub unit: Seq<char>,
}

impl DeepView for NamedAmount {
    type V = NamedAmountView;

    open spec fn deep_view(&self) -> NamedAmountView {
        NamedAmountView { name: self.name@, value: self.value, unit: self.unit@ }
    }
}

impl View for NamedAmount {
    type V = NamedAmountView;

    open spec fn view(&self) -> NamedAmountView {
        self.deep_view()
    }
}

/// The unit in which the amount of the nutrient `name` is shown: `kcal` for
/// `Energy`, `g` for every other name.
pub open spec fn unit_of(name: Seq<char>) -> Seq<char> {
    if name == ENERGY@ {
        KILOCALORIES@
    } else {
        GRAMS@
    }
}

/// The facts whose code the catalog knows, in their order, each under the
/// name that its code resolves to and with its unit.
pub open spec fn named_amounts(facts: Seq<Nutrient>) -> Seq<NamedAmountView>
    decreases facts.len(),
{
    if facts.len() == 0 {
        Seq::empty()
    } else {
        let earlier = named_amounts(facts.drop_last());
        match name_of_code(facts.last().attr_id) {
            Some(name) => earlier.push(
                NamedAmountView { name, value: facts.last().value, unit: unit_of(name) },
            ),
            None => earlier,
        }
    }
}

/// Every fact is either shown or dropped.
pub proof fn lemma_shown_or_dropped(facts: Seq<Nutrient>)
    ensures
        named_amounts(facts).len() + unknown(facts).len() == facts.len(),
    decreases facts.len(),
{
    if facts.len() > 0 {
        lemma_shown_or_dropped(facts.drop_last());
    }
}

/// The unit in which the amount of the nutrient `name` is shown.
pub fn unit_for(name: &str) -> (unit: &'static str)
    ensures
        unit@ == unit_of(name@),
{
    if is_word(name, ENERGY) {
        KILOCALORIES
    } else {
        GRAMS
    }
}

/// The nutrients of a candidate that are shown to the user: those whose
/// code the catalog knows, in the order in which the source reports them.
pub fn named_nutrients(facts: &Vec<Nutrient>) -> (shown: Vec<NamedAmount>)
    ensures
        shown.deep_view() == named_amounts(facts@),
{
    let mut shown: Vec<NamedAmount> = Vec::new();
    let mut i: usize = 0;
    while i < facts.len()
        invariant
            i <= facts.len(),
            shown.deep_view() == named_amounts(facts@.take(i as int)),
        decreases facts.len() - i,
    {
        proof {
            assert(facts@.take(i + 1).drop_last() == facts@.take(i as int));
        }
        let ghost before = shown.deep_view();
        match code_to_name(facts[i].attr_id) {
            Some(name) => {
                let line = NamedAmount { name, value: facts[i].value, unit: unit_for(name) };
                shown.push(line);
                proof {
                    assert(shown.deep_view() =~= before.push(line@));
                }
            },
            None => {},
        }
        i += 1;
    }
    proof {
        assert(facts@.take(facts.len() as int) == facts@);
    }
    shown
}

/// Where the dialogue that queries the external nutrient source stands.
#[derive(Clone, Debug, PartialEq, Eq)]
pub enum QueryState {
    /// The user is asked for a food.
    AwaitQuery,
    /// The source is asked for that food.
    Asking { query: String },
    /// The dialogue is over.
    Done,
}

/// What a `QueryState` stands for.
pub enum QueryStateView {
    AwaitQuery,
    Asking { query: Seq<char> },
    Done,
}

impl DeepView for QueryState {
    type V = QueryStateView;

    open spec fn deep_view(&self) -> QueryStateView {
        match self {
            QueryState::AwaitQuery => QueryStateView::AwaitQuery,
            QueryState::Asking { query } => QueryStateView::Asking { query: query@ },
            QueryState::Done => QueryStateView::Done,
        }
    }
}

impl View for QueryState {
    type V = QueryStateView;

    open spec fn view(&self) -> QueryStateView {
        self.deep_view()
    }
}

/// What happened outside the dialogue since its last step.
#[derive(Clone, Debug)]
pub enum QueryEvent {
    /// The user entered this line.
    Line(String),
    /// The source answered.
    Answer(Answer),
}

/// What the dialogue waits for: the one who runs it does this and hands
/// back the event that comes of it.
#[derive(Clone, Debug, PartialEq, Eq)]
pub enum QueryAction {
    /// Show the prompt and read a line: `QueryEvent::Line`.
    ReadLine { prompt: Prompt },
    /// Show the query and send it to the source: `QueryEvent::Answer`.
    Ask { query: String },
    /// The dialogue is over: what was collected is its result.
    Finish,
}

/// What a `QueryAction` stands for.
pub enum QueryActionView {
    ReadLine { prompt: Prompt },
    Ask { query: Seq<char> },
    Finish,
}

impl DeepView for QueryAction {
    type V = QueryActionView;

    open spec fn deep_view(&self) -> QueryActionView {
        match self {
            QueryAction::ReadLine { prompt } => QueryActionView::ReadLine { prompt: *prompt },
            QueryAction::Ask { query } => QueryActionView::Ask { query: query@ },
            QueryAction::Finish => QueryActionView::Finish,
        }
    }
}

impl View for QueryAction {
    type V = QueryActionView;

    open spec fn view(&self) -> QueryActionView {
        self.deep_view()
    }
}

/// The dialogue that queries the external nutrient source, food after food:
/// where it stands, and the answers collected so far.
pub struct QuerySession {
    pub state: QueryState,
    pub collected: Vec<NutritionxResponse>,
}

/// One step of the dialogue: the dialogue after it, what to tell the user,
/// and whether the answer collected last is new and to be shown.
pub struct QueryStep {
    pub session: QuerySession,
    pub notice: Option<Notice>,
    pub show_last: bool,
}

/// What the dialogue waits for in `state`.
pub open spec fn query_pending(state: QueryStateView) -> QueryActionView {
    match state {
        QueryStateView::AwaitQuery => QueryActionView::ReadLine { prompt: Prompt::FoodQuery },
        QueryStateView::Asking { query } => QueryActionView::Ask { query },
        QueryStateView::Done => QueryActionView::Finish,
    }
}

/// Where the dialogue goes once the user has entered a query: `query` is
/// the input and `key` its trimmed lower-case form. The word `exit` ends
/// the dialogue; anything else is asked of the source.
pub open spec fn query_entered(query: Seq<char>, key: Seq<char>) -> QueryStateView {
    if key == EXIT@ {
        QueryStateView::Done
    } else {
        QueryStateView::Asking { query }
    }
}

/// The dialogue as it begins: the user is asked for a food, and nothing is
/// collected.
pub fn query_nutritionx_cli_start() -> (session: QuerySession)
    ensures
        session.state@ == QueryStateView::AwaitQuery,
        session.collected@.len() == 0,
{
    QuerySession { state: QueryState::AwaitQuery, collected: Vec::new() }
}

/// What the dialogue waits for in `state`.
pub fn query_action(state: &QueryState) -> (action: QueryAction)
    ensures
        action@ == query_pending(state@),
{
    match state {
        QueryState::AwaitQuery => QueryAction::ReadLine { prompt: Prompt::FoodQuery },
        QueryState::Asking { query } => QueryAction::Ask { query: query.clone() },
        QueryState::Done => QueryAction::Finish,
    }
}

/// The state that follows the entering of a query: `query` is the input and
/// `key` its trimmed lower-case form.
pub fn query_line_entered(query: String, key: &str) -> (state: QueryState)
    ensures
        state@ == query_entered(query@, key@),
{
    if is_word(key, EXIT) {
        QueryState::Done
    } else {
        QueryState::Asking { query }
    }
}

/// One step of the dialogue that queries the external nutrient source:
/// takes the dialogue and what happened, and gives the dialogue after it,
/// what to tell the user and what to show.
///
/// A line that is not `exit` is asked of the source. Candidates that the
/// source gives are added to what is collected, and are to be shown. Where
/// it gives none, or cannot be read, the user is told that the food was not
/// found, and is asked again. An event that the state does not wait for
/// changes nothing.
pub fn query_nutritionx_cli(session: QuerySession, event: QueryEvent) -> (step: QueryStep)
    ensures
        match (session.state@, event) {
            (QueryStateView::AwaitQuery, QueryEvent::Line(line)) => {
                &&& step.session.state@ == query_entered(
                    trimmed(line@),
                    lowercased(trimmed(line@)),
                )
                &&& step.session.collected == session.collected
                &&& step.notice is None
                &&& !step.show_last
            },
            (QueryStateView::Asking { .. }, QueryEvent::Answer(Answer::Foods { foods })) => {
                &&& step.session.state@ == QueryStateView::AwaitQuery
                &&& if foods@.len() == 0 {
                    &&& step.session.collected == session.collected
                    &&& step.notice == Some(Notice::FoodNotInDatabase)
                    &&& !step.show_last
                } else {
                    &&& step.session.collected@ == session.collected@.push(
                        NutritionxResponse { foods },
                    )
                    &&& step.notice is None
                    &&& step.show_last
                }
            },
            (QueryStateView::Asking { .. }, QueryEvent::Answer(_)) => {
                &&& step.session.state@ == QueryStateView::AwaitQuery
                &&& step.session.collected == session.collected
                &&& step.notice == Some(Notice::FoodNotInDatabase)
                &&& !step.show_last
            },
            _ => {
                &&& step.session.state@ == session.state@
                &&& step.session.collected == session.collected
                &&& step.notice is None
                &&& !step.show_last
            },
        },
{
    let QuerySession { state, collected } = session;
    let mut collected = collected;
    match state {
        QueryState::AwaitQuery => match event {
            QueryEvent::Line(line) => {
                let query = read_input(line.as_str());
                let key = folded(line.as_str());
                QueryStep {
                    session: QuerySession {
                        state: query_line_entered(query, key.as_str()),
                        collected,
                    },
                    notice: None,
                    show_last: false,
                }
            },
            _ => QueryStep {
                session: QuerySession { state: QueryState::AwaitQuery, collected },
                notice: None,
                show_last: false,
            },
        },
        QueryState::Asking { query } => match event {
            QueryEvent::Answer(answer) => match query_nutritionx(answer) {
                Ok(foods) => {
                    collected.push(NutritionxResponse { foods });
                    QueryStep {
                        session: QuerySession { state: QueryState::AwaitQuery, collected },
                        notice: None,
                        show_last: true,
                    }
                },
                Err(_) => QueryStep {
                    session: QuerySession { state: QueryState::AwaitQuery, collected },
                    notice: Some(Notice::FoodNotInDatabase),
                    show_last: false,
                },
            },
            _ => QueryStep {
                session: QuerySession { state: QueryState::Asking { query }, collected },
                notice: None,
                show_last: false,
            },
        },
        QueryState::Done => QueryStep {
            session: QuerySession { state: QueryState::Done, collected },
            notice: None,
            show_last: false,
        },
    }
}

} // verus!
