//! The grammar's rules by name, and a matcher that tries a single rule
//! against the start of an input.

use vstd::prelude::*;
use crate::chars::{chars_of_str, string_from_chars};
use crate::scan::{
    copy_range, scan_account, scan_bool, scan_commodity, scan_date, scan_flag, scan_link,
    scan_num, scan_quoted, scan_tag, spec_scan_account, spec_scan_bool, spec_scan_commodity,
    spec_scan_date, spec_scan_flag, spec_scan_link, spec_scan_num, spec_scan_quoted,
    spec_scan_tag,
};
use crate::syntax::{
    scan_amount, scan_amount_tolerance, scan_balance, scan_close, scan_commodity_directive,
    scan_cost_spec, scan_custom, scan_document, scan_eol_kv_list, scan_event, scan_include,
    scan_incomplete_amount, scan_key_value, scan_note, scan_num_expr, scan_open, scan_option,
    scan_org_title, scan_pad, scan_plugin, scan_poptag, scan_posting, scan_price, scan_pushtag,
    scan_query, scan_transaction, spec_scan_amount, spec_scan_amount_tolerance,
    spec_scan_balance, spec_scan_close, spec_scan_commodity_directive, spec_scan_cost_spec,
    spec_scan_custom, spec_scan_document, spec_scan_eol_kv_list, spec_scan_event,
    spec_scan_include, spec_scan_incomplete_amount, spec_scan_key_value, spec_scan_note,
    spec_scan_num_expr, spec_scan_open, spec_scan_option, spec_scan_org_title, spec_scan_pad,
    spec_scan_plugin, spec_scan_poptag, spec_scan_posting, spec_scan_price, spec_scan_pushtag,
    spec_scan_query, spec_scan_transaction,
};

verus! {

/// The grammar rules that can be matched on their own.
#[allow(non_camel_case_types)]
#[derive(Debug, Clone, Copy, PartialEq, Eq, Structural)]
pub enum Rule {
    date,
    num,
    num_expr,
    commodity,
    account,
    tag,
    link,
    quoted_str,
    bool,
    txn_flag,
    key_value,
    eol_kv_list,
    amount,
    amount_tolerance,
    incomplete_amount,
    cost_spec,
    posting,
    org_mode_title,
    option,
    plugin,
    include_directive,
    pushtag,
    poptag,
    open,
    close,
    commodity_directive,
    balance,
    note,
    pad,
    query,
    event,
    document,
    price,
    custom,
    transaction,
}

/// Where the rule's match ends when tried at the start of `s`.
pub open spec fn spec_rule_end(rule: Rule, s: Seq<char>) -> Option<int> {
    match rule {
        Rule::date => spec_scan_date(s, 0),
        Rule::num => spec_scan_num(s, 0),
        Rule::num_expr => spec_scan_num_expr(s, 0),
        Rule::commodity => spec_scan_commodity(s, 0),
        Rule::account => spec_scan_account(s, 0),
        Rule::tag => spec_scan_tag(s, 0),
        Rule::link => spec_scan_link(s, 0),
        Rule::quoted_str => spec_scan_quoted(s, 0),
        Rule::bool => spec_scan_bool(s, 0),
        Rule::txn_flag => spec_scan_flag(s, 0),
        Rule::key_value => spec_scan_key_value(s, 0),
        Rule::eol_kv_list => spec_scan_eol_kv_list(s, 0),
        Rule::amount => spec_scan_amount(s, 0),
        Rule::amount_tolerance => spec_scan_amount_tolerance(s, 0),
        Rule::incomplete_amount => spec_scan_incomplete_amount(s, 0),
        Rule::cost_spec => spec_scan_cost_spec(s, 0),
        Rule::posting => spec_scan_posting(s, 0),
        Rule::org_mode_title => spec_scan_org_title(s, 0),
        Rule::option => spec_scan_option(s, 0),
        Rule::plugin => spec_scan_plugin(s, 0),
        Rule::include_directive => spec_scan_include(s, 0),
        Rule::pushtag => spec_scan_pushtag(s, 0),
        Rule::poptag => spec_scan_poptag(s, 0),
        Rule::open => spec_scan_open(s, 0),
        Rule::close => spec_scan_close(s, 0),
        Rule::commodity_directive => spec_scan_commodity_directive(s, 0),
        Rule::balance => spec_scan_balance(s, 0),
        Rule::note => spec_scan_note(s, 0),
        Rule::pad => spec_scan_pad(s, 0),
        Rule::query => spec_scan_query(s, 0),
        Rule::event => spec_scan_event(s, 0),
        Rule::document => spec_scan_document(s, 0),
        Rule::price => spec_scan_price(s, 0),
        Rule::custom => spec_scan_custom(s, 0),
        Rule::transaction => spec_scan_transaction(s, 0),
    }
}

/// The carrier of the grammar: rules are matched through it.
#[derive(Debug, Clone, Copy, PartialEq, Eq, Structural)]
pub struct BeancountParser;

impl BeancountParser {
    /// Tries one grammar rule at the start of `input`; yields the matched
    /// prefix, or `None` when the rule does not match there.
    pub fn parse(rule: Rule, input: &str) -> (r: Option<String>)
        ensures
            match r {
                Some(t) => spec_rule_end(rule, input@) == Some(t@.len() as int) && t@
                    == input@.take(t@.len() as int),
                None => spec_rule_end(rule, input@) is None,
            },
    {
        let s = chars_of_str(input);
        let end: Option<usize> = match rule {
            Rule::date => scan_date(&s, 0),
            Rule::num => scan_num(&s, 0),
            Rule::num_expr => scan_num_expr(&s, 0),
            Rule::commodity => scan_commodity(&s, 0),
            Rule::account => scan_account(&s, 0),
            Rule::tag => scan_tag(&s, 0),
            Rule::link => scan_link(&s, 0),
            Rule::quoted_str => scan_quoted(&s, 0),
            Rule::bool => scan_bool(&s, 0),
            Rule::txn_flag => scan_flag(&s, 0),
            Rule::key_value => scan_key_value(&s, 0),
            Rule::eol_kv_list => scan_eol_kv_list(&s, 0),
            Rule::amount => scan_amount(&s, 0),
            Rule::amount_tolerance => scan_amount_tolerance(&s, 0),
            Rule::incomplete_amount => scan_incomplete_amount(&s, 0),
            Rule::cost_spec => scan_cost_spec(&s, 0),
            Rule::posting => scan_posting(&s, 0),
            Rule::org_mode_title => scan_org_title(&s, 0),
            Rule::option => scan_option(&s, 0),
            Rule::plugin => scan_plugin(&s, 0),
            Rule::include_directive => scan_include(&s, 0),
            Rule::pushtag => scan_pushtag(&s, 0),
            Rule::poptag => scan_poptag(&s, 0),
            Rule::open => scan_open(&s, 0),
            Rule::close => scan_close(&s, 0),
            Rule::commodity_directive => scan_commodity_directive(&s, 0),
            Rule::balance => scan_balance(&s, 0),
            Rule::note => scan_note(&s, 0),
            Rule::pad => scan_pad(&s, 0),
            Rule::query => scan_query(&s, 0),
            Rule::event => scan_event(&s, 0),
            Rule::document => scan_document(&s, 0),
            Rule::price => scan_price(&s, 0),
            Rule::custom => scan_custom(&s, 0),
            Rule::transaction => scan_transaction(&s, 0),
        };
        match end {
            Some(e) => {
                let t = copy_range(&s, 0, e);
                proof {
                    assert(t@ =~= input@.take(e as int));
                }
                Some(string_from_chars(&t))
            },
            None => None,
        }
    }
}

/// The human-readable phrase for a grammar rule, used in error messages.
pub fn rule_phrase(rule: Rule) -> (r: &'static str) {
    match rule {
        Rule::date => "date",
        Rule::num => "number",
        Rule::num_expr => "numeric expression",
        Rule::commodity => "commodity",
        Rule::account => "an account name",
        Rule::tag => "tag",
        Rule::link => "link",
        Rule::quoted_str => "quoted string",
        Rule::bool => "boolean value",
        Rule::txn_flag => "transaction flag",
        Rule::key_value => "key-value pair",
        Rule::eol_kv_list => "newline followed by key-value line",
        Rule::amount => "amount",
        Rule::amount_tolerance => "amount with optional tolerance",
        Rule::incomplete_amount => "amount and/or commodity",
        Rule::cost_spec => "cost spec",
        Rule::posting => "posting",
        Rule::org_mode_title => "an Org-mode title",
        Rule::option => "option directive",
        Rule::plugin => "plugin directive",
        Rule::include_directive => "include directive",
        Rule::pushtag => "pushtag directive",
        Rule::poptag => "poptag directive",
        Rule::open => "open directive",
        Rule::close => "close directive",
        Rule::commodity_directive => "commodity directive",
        Rule::balance => "balance directive",
        Rule::note => "note directive",
        Rule::pad => "pad directive",
        Rule::query => "query directive",
        Rule::event => "event directive",
        Rule::document => "document directive",
        Rule::price => "price directive",
        Rule::custom => "custom directive",
        Rule::transaction => "transaction directive",
    }
}

} // verus!
