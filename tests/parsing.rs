use firefly_tg::parse::{
    delimited_from_fields, is_complete, parse_candidate, parse_candidate_today, parse_delimited, parse_nlu,
    ParseError, ParserInput,
};
use firefly_tg::text::{decimal_magnitude, i32_text, split_fields, u64_text};
use firefly_tg::wit::{
    AccountEntity, Deed, Entities, Flow, Intent, Traits, WitAmountOfMoney, WitMessageResponse,
};

fn account(value: &str) -> AccountEntity {
    AccountEntity { role: "role".to_string(), value: value.to_string() }
}

fn response(intents: usize, amounts: &[&str], origin: &[&str], destination: &[&str], flow: &[&str]) -> WitMessageResponse {
    WitMessageResponse {
        text: "bought coffee 12 from checking to cafe".to_string(),
        intents: (0..intents).map(|i| Intent { name: format!("intent{}", i) }).collect(),
        entities: Entities {
            destination: destination.iter().map(|v| account(v)).collect(),
            origin: origin.iter().map(|v| account(v)).collect(),
            amount_of_money: amounts
                .iter()
                .map(|v| WitAmountOfMoney { role: "amount".to_string(), unit: "USD".to_string(), value: v.to_string() })
                .collect(),
            withdraw: None,
            deposit: None,
            transfer: None,
            deed: None,
        },
        traits: Traits { flow: flow.iter().map(|v| Flow { value: v.to_string() }).collect() },
    }
}

#[test]
fn delimited_well_formed() {
    let t = parse_delimited("12.50, coffee, Checking, Cafe", "2024-03-05").unwrap();
    assert_eq!(t.transact_type, "withdrawal");
    assert_eq!(t.amount, "12.50");
    assert_eq!(t.description, "coffee");
    assert_eq!(t.source_name, "Checking");
    assert_eq!(t.destination_name, "Cafe");
    assert_eq!(t.date, "2024-03-05");
}

#[test]
fn delimited_dated_today() {
    let input = ParserInput::Delimited("12.50, coffee, Checking, Cafe".to_string());
    let before = chrono::Utc::now().format("%Y-%m-%d").to_string();
    let t = parse_candidate_today(&input).unwrap();
    let after = chrono::Utc::now().format("%Y-%m-%d").to_string();
    assert!(t.date == before || t.date == after);
    assert_eq!(t.amount, "12.50");
    assert_eq!(t.description, "coffee");
}

#[test]
fn delimited_extra_fields_ignored() {
    let t = parse_delimited("3, tea, Wallet, Shop, extra, more", "d").unwrap();
    assert_eq!(t.amount, "3");
    assert_eq!(t.destination_name, "Shop");
}

#[test]
fn delimited_too_few_fields() {
    assert_eq!(parse_delimited("12.50, coffee, Checking", "d").err(), Some(ParseError::MalformedInput));
    assert_eq!(parse_delimited("", "d").err(), Some(ParseError::MalformedInput));
    assert_eq!(parse_delimited("hello", "d").err(), Some(ParseError::MalformedInput));
}

#[test]
fn delimited_bad_amount_or_empty_field() {
    assert_eq!(parse_delimited("twelve, coffee, Checking, Cafe", "d").err(), Some(ParseError::MalformedInput));
    assert_eq!(parse_delimited("1.2.3, coffee, Checking, Cafe", "d").err(), Some(ParseError::MalformedInput));
    assert_eq!(parse_delimited("12, , Checking, Cafe", "d").err(), Some(ParseError::MalformedInput));
    assert_eq!(parse_delimited("12, coffee, Checking,   ", "d").err(), Some(ParseError::MalformedInput));
}

#[test]
fn nlu_no_intent() {
    let r = response(0, &["12"], &["Checking"], &["Cafe"], &["withdrawal"]);
    assert_eq!(parse_nlu(&r, "d").err(), Some(ParseError::NoIntentDetected));
}

#[test]
fn nlu_missing_amount() {
    let r = response(1, &[], &["Checking"], &["Cafe"], &["withdrawal"]);
    assert_eq!(parse_nlu(&r, "d").err(), Some(ParseError::MissingAmount));
}

#[test]
fn nlu_missing_account_and_flow() {
    let r = response(1, &["12"], &[], &["Cafe"], &["withdrawal"]);
    assert_eq!(parse_nlu(&r, "d").err(), Some(ParseError::MissingAccount));
    let r = response(1, &["12"], &["Checking"], &[], &["withdrawal"]);
    assert_eq!(parse_nlu(&r, "d").err(), Some(ParseError::MissingAccount));
    let r = response(1, &["12"], &["Checking"], &["Cafe"], &[]);
    assert_eq!(parse_nlu(&r, "d").err(), Some(ParseError::MissingFlow));
}

#[test]
fn nlu_first_entities_and_text_description() {
    let r = response(2, &["12", "99"], &["Checking", "Savings"], &["Cafe", "Bar"], &["deposit", "transfer"]);
    let t = parse_nlu(&r, "2024-01-02").unwrap();
    assert_eq!(t.amount, "12");
    assert_eq!(t.source_name, "Checking");
    assert_eq!(t.destination_name, "Cafe");
    assert_eq!(t.transact_type, "deposit");
    assert_eq!(t.description, "bought coffee 12 from checking to cafe");
    assert_eq!(t.date, "2024-01-02");
}

#[test]
fn nlu_deed_description() {
    let mut r = response(1, &["12"], &["Checking"], &["Cafe"], &["withdrawal"]);
    r.entities.deed = Some(vec![
        Deed { role: "deed".to_string(), value: "coffee".to_string() },
        Deed { role: "deed".to_string(), value: "cake".to_string() },
    ]);
    let t = parse_candidate(&ParserInput::Nlu(r), "d").unwrap();
    assert_eq!(t.description, "coffee");
    let mut r = response(1, &["12"], &["Checking"], &["Cafe"], &["withdrawal"]);
    r.entities.deed = Some(vec![]);
    let t = parse_nlu(&r, "d").unwrap();
    assert_eq!(t.description, "bought coffee 12 from checking to cafe");
}

#[test]
fn fields_split_at_commas() {
    assert_eq!(split_fields("a,b,,c"), vec!["a", "b", "", "c"]);
    assert_eq!(split_fields(""), vec![""]);
    assert_eq!(split_fields(",é"), vec!["", "é"]);
}

#[test]
fn decimal_magnitudes() {
    assert!(decimal_magnitude("12.50"));
    assert!(decimal_magnitude("7"));
    assert!(!decimal_magnitude(""));
    assert!(!decimal_magnitude(".5"));
    assert!(!decimal_magnitude("5."));
    assert!(!decimal_magnitude("-5"));
    assert!(!decimal_magnitude("1.2.3"));
}

#[test]
fn decimal_rendering() {
    assert_eq!(u64_text(0), "0");
    assert_eq!(u64_text(1234567890), "1234567890");
    assert_eq!(u64_text(u64::MAX), u64::MAX.to_string());
    assert_eq!(i32_text(-42), "-42");
    assert_eq!(i32_text(i32::MIN), i32::MIN.to_string());
    assert_eq!(i32_text(i32::MAX), i32::MAX.to_string());
}

#[test]
fn nlu_empty_values_are_malformed() {
    let r = response(1, &["12"], &["Checking"], &["Cafe"], &[""]);
    assert_eq!(parse_nlu(&r, "d").err(), Some(ParseError::MalformedInput));
    let r = response(1, &["12"], &[""], &["Cafe"], &["withdrawal"]);
    assert_eq!(parse_nlu(&r, "d").err(), Some(ParseError::MalformedInput));
    let r = response(1, &["12"], &["Checking"], &[""], &["withdrawal"]);
    assert_eq!(parse_nlu(&r, "d").err(), Some(ParseError::MalformedInput));
    let mut r = response(1, &["12"], &["Checking"], &["Cafe"], &["withdrawal"]);
    r.text = String::new();
    assert_eq!(parse_nlu(&r, "d").err(), Some(ParseError::MalformedInput));
}

#[test]
fn nlu_amount_must_be_decimal() {
    let r = response(1, &["-3"], &["Checking"], &["Cafe"], &["withdrawal"]);
    assert_eq!(parse_nlu(&r, "d").err(), Some(ParseError::MalformedInput));
    let r = response(1, &["NaN"], &["Checking"], &["Cafe"], &["withdrawal"]);
    assert_eq!(parse_nlu(&r, "d").err(), Some(ParseError::MalformedInput));
    let r = response(1, &[&12.5f64.to_string()], &["Checking"], &["Cafe"], &["withdrawal"]);
    assert_eq!(parse_nlu(&r, "d").unwrap().amount, "12.5");
}

#[test]
fn fields_make_a_withdrawal() {
    let t = delimited_from_fields("7.25".to_string(), "lunch".to_string(), "Cash".to_string(), "Diner".to_string(), "2024-05-06").unwrap();
    assert_eq!(t.transact_type, "withdrawal");
    assert_eq!(t.amount, "7.25");
    assert_eq!(t.date, "2024-05-06");
    assert!(is_complete(&t));
    let e = delimited_from_fields("7.25".to_string(), "".to_string(), "Cash".to_string(), "Diner".to_string(), "d");
    assert_eq!(e.err(), Some(ParseError::MalformedInput));
}

#[test]
fn unicode_white_space_is_trimmed() {
    let t = parse_delimited("\u{3000}5\t,\u{a0}tea\u{2028}, Cash ,\u{85}Cafe\u{200a}", "d").unwrap();
    assert_eq!(t.amount, "5");
    assert_eq!(t.description, "tea");
    assert_eq!(t.source_name, "Cash");
    assert_eq!(t.destination_name, "Cafe");
}

#[test]
fn today_has_date_shape() {
    let t = parse_candidate_today(&ParserInput::Delimited("1, a, b, c".to_string())).unwrap();
    let c: Vec<char> = t.date.chars().collect();
    assert!(c.len() >= 10);
    let n = c.len();
    assert_eq!(c[n - 3], '-');
    assert_eq!(c[n - 6], '-');
    assert!(c[n - 10..n - 6].iter().all(|d| d.is_ascii_digit()));
}
