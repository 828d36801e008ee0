//! Turning a message into a transaction candidate, by one of two strategies:
//! comma-delimited fields, or the entities an extraction service found.
use vstd::prelude::*;
use crate::text::{split_commas, split_fields, strings_view, trimmed, trim, is_decimal_magnitude, decimal_magnitude, is_digit};
use crate::telegram::{Transaction, TransactionView};
use crate::wit::WitMessageResponse;

verus! {

/// Why a message did not give a transaction.
#[derive(Clone, Copy, Debug, PartialEq, Eq, Structural)]
pub enum ParseError {
    /// Fewer than four comma-separated fields, or a transaction with an empty
    /// field or an amount that is not a decimal magnitude.
    MalformedInput,
    /// The service recognised no intent in the message.
    NoIntentDetected,
    MissingAmount,
    MissingAccount,
    MissingFlow,
}

/// The parsing strategy a deployment runs with.
#[derive(Clone, Copy, Debug, PartialEq, Eq, Structural)]
pub enum Strategy {
    Delimited,
    Nlu,
}

/// What a strategy reads: the message text, or the service's answer for it.
pub enum ParserInput {
    Delimited(String),
    Nlu(WitMessageResponse),
}

pub open spec fn withdrawal() -> Seq<char> {
    "withdrawal"@
}

/// What a transaction needs before it goes to the ledger: a type, a
/// description and both accounts, and a decimal magnitude as amount.
pub open spec fn fields_complete(t: TransactionView) -> bool {
    &&& is_decimal_magnitude(t.amount)
    &&& t.kind.len() > 0
    &&& t.description.len() > 0
    &&& t.source.len() > 0
    &&& t.destination.len() > 0
}

/// A candidate is accepted only when its fields are complete.
pub open spec fn checked(t: TransactionView) -> Result<TransactionView, ParseError> {
    if fields_complete(t) { Ok(t) } else { Err(ParseError::MalformedInput) }
}

/// The withdrawal made of four already trimmed fields.
pub open spec fn delimited_fields_spec(
    amount: Seq<char>,
    description: Seq<char>,
    source: Seq<char>,
    destination: Seq<char>,
    date: Seq<char>,
) -> Result<TransactionView, ParseError> {
    checked(TransactionView { kind: withdrawal(), description, date, amount, source, destination })
}

/// `amount, description, source, destination[, ...]`: the first four fields,
/// trimmed, make a withdrawal dated `date`.
pub open spec fn delimited_spec(text: Seq<char>, date: Seq<char>) -> Result<TransactionView, ParseError> {
    let fields = split_commas(text);
    if fields.len() < 4 {
        Err(ParseError::MalformedInput)
    } else {
        delimited_fields_spec(trimmed(fields[0]), trimmed(fields[1]), trimmed(fields[2]), trimmed(fields[3]), date)
    }
}

/// The description: the first deed found, else the whole message.
pub open spec fn deed_text(r: WitMessageResponse) -> Seq<char> {
    match r.entities.deed {
        Some(deeds) => if deeds@.len() > 0 { deeds@[0].value@ } else { r.text@ },
        None => r.text@,
    }
}

/// The first entity of each kind makes the transaction; later ones are ignored.
pub open spec fn nlu_spec(r: WitMessageResponse, date: Seq<char>) -> Result<TransactionView, ParseError> {
    if r.intents@.len() == 0 {
        Err(ParseError::NoIntentDetected)
    } else if r.entities.amount_of_money@.len() == 0 {
        Err(ParseError::MissingAmount)
    } else if r.entities.origin@.len() == 0 || r.entities.destination@.len() == 0 {
        Err(ParseError::MissingAccount)
    } else if r.traits.flow@.len() == 0 {
        Err(ParseError::MissingFlow)
    } else {
        checked(TransactionView {
            kind: r.traits.flow@[0].value@,
            description: deed_text(r),
            date,
            amount: r.entities.amount_of_money@[0].value@,
            source: r.entities.origin@[0].value@,
            destination: r.entities.destination@[0].value@,
        })
    }
}

pub open spec fn parse_spec(input: ParserInput, date: Seq<char>) -> Result<TransactionView, ParseError> {
    match input {
        ParserInput::Delimited(text) => delimited_spec(text@, date),
        ParserInput::Nlu(r) => nlu_spec(r, date),
    }
}

pub open spec fn candidate_view(r: Result<Transaction, ParseError>) -> Result<TransactionView, ParseError> {
    match r {
        Ok(t) => Ok(t@),
        Err(e) => Err(e),
    }
}

/// Reads a withdrawal from comma-separated fields.
pub fn parse_delimited(text: &str, date: &str) -> (r: Result<Transaction, ParseError>)
    ensures
        candidate_view(r) == delimited_spec(text@, date@),
{
    let fields = split_fields(text);
    if fields.len() < 4 {
        return Err(ParseError::MalformedInput);
    }
    proof {
        assert(strings_view(fields@)[0] == fields@[0]@);
        assert(strings_view(fields@)[1] == fields@[1]@);
        assert(strings_view(fields@)[2] == fields@[2]@);
        assert(strings_view(fields@)[3] == fields@[3]@);
    }
    let amount = trim(fields[0].as_str());
    let description = trim(fields[1].as_str());
    let source_name = trim(fields[2].as_str());
    let destination_name = trim(fields[3].as_str());
    delimited_from_fields(amount, description, source_name, destination_name, date)
}

/// Whether `t` may go to the ledger.
pub fn is_complete(t: &Transaction) -> (r: bool)
    ensures
        r == fields_complete(t@),
{
    decimal_magnitude(t.amount.as_str()) && !t.transact_type.as_str().is_empty()
        && !t.description.as_str().is_empty() && !t.source_name.as_str().is_empty()
        && !t.destination_name.as_str().is_empty()
}

fn check(t: Transaction) -> (r: Result<Transaction, ParseError>)
    ensures
        candidate_view(r) == checked(t@),
{
    if is_complete(&t) { Ok(t) } else { Err(ParseError::MalformedInput) }
}

/// Makes a withdrawal of four trimmed fields.
pub fn delimited_from_fields(
    amount: String,
    description: String,
    source_name: String,
    destination_name: String,
    date: &str,
) -> (r: Result<Transaction, ParseError>)
    ensures
        candidate_view(r) == delimited_fields_spec(amount@, description@, source_name@, destination_name@, date@),
{
    check(Transaction {
        transact_type: "withdrawal".to_string(),
        description,
        date: date.to_string(),
        amount,
        source_name,
        destination_name,
    })
}

/// Reads a transaction from the entities the extraction service found.
pub fn parse_nlu(response: &WitMessageResponse, date: &str) -> (r: Result<Transaction, ParseError>)
    ensures
        candidate_view(r) == nlu_spec(*response, date@),
{
    if response.intents.len() == 0 {
        return Err(ParseError::NoIntentDetected);
    }
    let entities = &response.entities;
    if entities.amount_of_money.len() == 0 {
        return Err(ParseError::MissingAmount);
    }
    if entities.origin.len() == 0 || entities.destination.len() == 0 {
        return Err(ParseError::MissingAccount);
    }
    if response.traits.flow.len() == 0 {
        return Err(ParseError::MissingFlow);
    }
    let description = match &entities.deed {
        Some(deeds) => if deeds.len() > 0 { deeds[0].value.clone() } else { response.text.clone() },
        None => response.text.clone(),
    };
    check(Transaction {
        transact_type: response.traits.flow[0].value.clone(),
        description,
        date: date.to_string(),
        amount: entities.amount_of_money[0].value.clone(),
        source_name: entities.origin[0].value.clone(),
        destination_name: entities.destination[0].value.clone(),
    })
}

/// Runs the strategy that `input` is for, with the transaction dated `date`.
pub fn parse_candidate(input: &ParserInput, date: &str) -> (r: Result<Transaction, ParseError>)
    ensures
        candidate_view(r) == parse_spec(*input, date@),
{
    match input {
        ParserInput::Delimited(text) => parse_delimited(text.as_str(), date),
        ParserInput::Nlu(response) => parse_nlu(response, date),
    }
}

/// Ends in `YYYY-MM-DD`: four digits of the year (a longer year may come
/// before them, with a sign), a dash, two of the month, a dash, two of the day.
pub open spec fn ends_in_iso_date(s: Seq<char>) -> bool {
    &&& s.len() >= 10
    &&& forall|i: int| s.len() - 10 <= i < s.len() ==> if i == s.len() - 3 || i == s.len() - 6 {
        #[trigger] s[i] == '-'
    } else {
        is_digit(s[i])
    }
}

/// Relies on chrono's `Utc::now` and its `%Y-%m-%d` formatting: today's date in
/// UTC. The value depends on the clock; whatever it is, month and day are two
/// zero-padded digits and the year at least four.
#[verifier::external_body]
fn today() -> (r: String)
    ensures
        ends_in_iso_date(r@),
{
    chrono::Utc::now().format("%Y-%m-%d").to_string()
}

/// Runs the strategy that `input` is for, with the transaction dated today.
/// The outcome is the one `parse_candidate` gives for some date.
pub fn parse_candidate_today(input: &ParserInput) -> (r: Result<Transaction, ParseError>)
    ensures
        exists|date: Seq<char>| ends_in_iso_date(date) && candidate_view(r) == parse_spec(*input, date),
        r is Ok ==> ends_in_iso_date(r->Ok_0.date@),
{
    let date = today();
    parse_candidate(input, date.as_str())
}

} // verus!
