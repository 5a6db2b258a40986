//! Tag-stack behaviour, on its own and through `parse`.

use beancount::state::TagStack;
use beancount::parse;
use beancount::model::{Account, AccountType};
use beancount::{Amount, Date, Decimal, Flag, IncompleteAmount};
use beancount::rules::{rule_phrase, Rule};

fn ch(s: &str) -> Vec<char> {
    s.chars().collect()
}

fn count_of(state: &TagStack, name: &str) -> Option<usize> {
    for e in &state.entries {
        let n: String = e.name.iter().collect();
        if n == name {
            return Some(e.count);
        }
    }
    None
}

#[test]
fn test_push() {
    let mut state = TagStack::new();
    state.push_tag(ch("sometag"));
    assert_eq!(1, state.entries.len());
    assert_eq!(Some(1), count_of(&state, "sometag"));
    state.push_tag(ch("othertag"));
    assert_eq!(2, state.entries.len());
    assert_eq!(Some(1), count_of(&state, "othertag"));
    assert_eq!(Some(1), count_of(&state, "sometag"));
    state.push_tag(ch("sometag"));
    assert_eq!(2, state.entries.len());
    assert_eq!(Some(2), count_of(&state, "sometag"));
}

#[test]
fn test_pop() {
    let mut state = TagStack::new();
    assert!(!state.pop_tag(&ch("sometag")));
    state.push_tag(ch("sometag"));
    state.push_tag(ch("sometag"));
    assert_eq!(1, state.entries.len());
    assert_eq!(Some(2), count_of(&state, "sometag"));
    assert!(state.pop_tag(&ch("sometag")));
    assert_eq!(1, state.entries.len());
    assert_eq!(Some(1), count_of(&state, "sometag"));
    assert!(state.pop_tag(&ch("sometag")));
    assert_eq!(0, state.entries.len());
    assert_eq!(None, count_of(&state, "sometag"));
}

fn get_sorted_tags(state: &TagStack) -> Vec<String> {
    let mut tags: Vec<String> = state.keys().iter().map(|t| t.iter().collect()).collect();
    tags.sort();
    tags
}

#[test]
fn test_iter() {
    let mut state = TagStack::new();

    assert!(get_sorted_tags(&state).is_empty());
    state.push_tag(ch("sometag"));
    assert_eq!(vec!["sometag"], get_sorted_tags(&state));
    state.push_tag(ch("sometag"));
    assert_eq!(vec!["sometag"], get_sorted_tags(&state));
    state.push_tag(ch("othertag"));
    assert_eq!(vec!["othertag", "sometag"], get_sorted_tags(&state));
    assert!(state.pop_tag(&ch("sometag")));
    assert_eq!(vec!["othertag", "sometag"], get_sorted_tags(&state));
    assert!(state.pop_tag(&ch("sometag")));
    assert_eq!(vec!["othertag"], get_sorted_tags(&state));
    assert!(state.pop_tag(&ch("othertag")));
    assert!(get_sorted_tags(&state).is_empty());
    assert!(!state.pop_tag(&ch("othertag")));
}

#[test]
fn test_parsing_push_and_pop() {
    let source = "pushtag #social\n";
    assert!(parse(source).is_err());

    let source = "poptag #social\n";
    assert!(parse(source).is_err());

    let source = "pushtag #social\npoptag #social\n";
    assert!(parse(source).is_ok());

    let source = "pushtag #rust-is-cool\npushtag #social\npoptag #social\npoptag #rust-is-cool\n\npushtag #rust-is-cool\npushtag #social\npoptag #rust-is-cool\npoptag #social\n";
    assert!(parse(source).is_ok());

    let source = "pushtag #rust-is-cool\npushtag #social\npoptag #social\n";
    assert!(parse(source).is_err());
}

#[test]
fn it_works() {
    assert_eq!(2 + 2, 4);
}

#[test]
fn t() {
    println!("{}", "test");
    let d = beancount::BcOption { name: ch("test"), val: ch("val"), source: None };
    let mut v: Vec<Vec<char>> = Vec::new();
    v.push(ch("US"));
    let a = Account { ty: AccountType::Assets, parts: v };
    println!("{:?}", a);
    println!("{:?}", d);
    assert_eq!(4, 4);
}

#[test]
fn small_value_types() {
    assert_eq!(AccountType::Assets.default_name(), "Assets");
    assert_eq!(AccountType::Expenses.default_name(), "Expenses");
    assert_eq!(Flag::default(), Flag::Okay);
    assert_eq!(Flag::from_token(ch("*")), Flag::Okay);
    assert_eq!(Flag::from_token(ch("txn")), Flag::Okay);
    assert_eq!(Flag::from_token(ch("!")), Flag::Warning);
    assert_eq!(Flag::from_token(ch(":)")), Flag::Other(ch(":)")));
    assert_eq!(Date::from_str_unchecked("2020-05-05"), Date::from_string_unchecked("2020-05-05".to_string()));
    let amt = Amount { num: Decimal { mantissa: 1, scale: 0 }, currency: ch("EUR") };
    let inc = IncompleteAmount::from_amount(amt.clone());
    assert_eq!(Amount::try_from(inc), Ok(amt));
    assert_eq!(
        Amount::try_from(IncompleteAmount { num: None, currency: Some(ch("EUR")) }),
        Err(())
    );
}

#[test]
fn rule_phrases_are_human_readable() {
    assert_eq!(rule_phrase(Rule::txn_flag), "transaction flag");
    assert_eq!(rule_phrase(Rule::date), "date");
    assert_eq!(rule_phrase(Rule::eol_kv_list), "newline followed by key-value line");
}
