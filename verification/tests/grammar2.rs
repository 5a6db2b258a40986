//! Grammar-rule tests for the earlier surface of the same rules.

use beancount::{BeancountParser, Rule};

fn parse_ok(rule: Rule, input: &str) {
    assert_eq!(BeancountParser::parse(rule, input).as_deref(), Some(input));
}

fn parse_ok_to(rule: Rule, input: &str, out: &str) {
    assert_eq!(BeancountParser::parse(rule, input).as_deref(), Some(out));
}

fn parse_fail(rule: Rule, input: &str) {
    assert!(BeancountParser::parse(rule, input).is_none());
}

#[test]
fn parsers_key_value() {
    parse_ok(Rule::key_value, "key: \"value\"");
    parse_ok(Rule::key_value, "key:\"value\"");
    parse_ok(Rule::key_value, "key:    \"value\"");
    parse_ok(Rule::key_value, "key: Assets:Cash");
    parse_ok(Rule::key_value, "key: 2019-01-01");
    parse_ok(Rule::key_value, "key: USD");
    parse_ok(Rule::key_value, "key: #foo");
    parse_ok(Rule::key_value, "key: True");
    parse_ok(Rule::key_value, "key: 200.00 USD");
    parse_ok(Rule::key_value, "key: 200.00");
    parse_ok(Rule::key_value, "key1: 1");

    parse_fail(Rule::key_value, "key    : \"value\"");
    parse_fail(Rule::key_value, "key: bar");
    parse_fail(Rule::key_value, "k: 123");
    parse_fail(Rule::key_value, "Key: 123");
}

#[test]
fn parsers_eol_kv_list() {
    parse_ok(Rule::eol_kv_list, "\n key: 123\n");
    parse_ok(Rule::eol_kv_list, "\n key: 123\n key2: 456\n");
}

#[test]
fn parsers_date() {
    parse_ok(Rule::date, "2019-01-12");
    parse_ok(Rule::date, "1979/01/01");
    parse_ok(Rule::date, "2019-12-31");

    parse_fail(Rule::date, "123-01-01");
    parse_fail(Rule::date, "2020-13-01");
    parse_fail(Rule::date, "2020-12-32");
    parse_fail(Rule::date, "2020 02 02");
    parse_fail(Rule::date, "02-02-2020");
}

#[test]
fn parsers_num() {
    parse_ok(Rule::num, "1");
    parse_ok(Rule::num, "1.");
    parse_ok(Rule::num, "1.2");
    parse_ok(Rule::num, "1000.2");
    parse_ok(Rule::num, "1,000.2");
    parse_ok(Rule::num, "1,222,333.4");

    parse_ok_to(Rule::num, "1234,0", "1234");
    parse_ok_to(Rule::num, "1,1234", "1,123");
    parse_ok_to(Rule::num, "1,222,33.4", "1,222");
}

#[test]
fn parsers_num_expr() {
    parse_ok(Rule::num_expr, "1");
    parse_ok(Rule::num_expr, "+1");
    parse_ok(Rule::num_expr, "-1");
    parse_ok(Rule::num_expr, "-(1)");
    parse_ok(Rule::num_expr, "+(1)");
    parse_ok(Rule::num_expr, "1 + 2");
    parse_ok(Rule::num_expr, "1 - 2");
    parse_ok(Rule::num_expr, "1 * 2");
    parse_ok(Rule::num_expr, "1 / 2");
    parse_ok(Rule::num_expr, "1+-(2*3)/(4+6)");
    parse_ok(Rule::num_expr, "1+-+(1)");
}

#[test]
fn parsers_quoted_str() {
    parse_ok(Rule::quoted_str, "\"\"");
    parse_ok(Rule::quoted_str, "\"foo\"");
    parse_ok(Rule::quoted_str, "\"€☃\"");
    parse_ok(Rule::quoted_str, "\"\\\"\"");
    parse_ok(Rule::quoted_str, "\"\\x\"");
    parse_ok(Rule::quoted_str, "\" foo \"");
}

#[test]
fn parsers_commodity() {
    parse_ok(Rule::commodity, "AAA");
    parse_ok(Rule::commodity, "EUR");
    parse_ok(Rule::commodity, "FOO_BAR");
    parse_ok(Rule::commodity, "FOO.BAR");
    parse_ok(Rule::commodity, "FOO-BAR");
    parse_ok(Rule::commodity, "FOO'BAR");
    parse_ok(Rule::commodity, "F123");
    parse_ok(Rule::commodity, "FOO-123");
    parse_ok(Rule::commodity, "FOOOOOOOOOOOOOOOOOOOOOOO");

    parse_ok_to(
        Rule::commodity,
        "FOOOOOOOOOOOOOOOOOOOOOOOX",
        "FOOOOOOOOOOOOOOOOOOOOOOO",
    );
    parse_ok_to(
        Rule::commodity,
        "FOOOOOOOOOOOOOOOOOOOOOO.",
        "FOOOOOOOOOOOOOOOOOOOOOO",
    );
    parse_ok_to(Rule::commodity, "FOO\"123", "FOO");
    parse_fail(Rule::commodity, "123");
    parse_fail(Rule::commodity, "foo");
}

#[test]
fn parsers_account() {
    parse_ok(Rule::account, "Assets:Foo");
    parse_ok(Rule::account, "Indtægter:Foo");
    parse_ok(Rule::account, "Expenses:Q1");
    parse_ok(Rule::account, "Expenses:Tax:2018");
    parse_ok(Rule::account, "Dash-dash:Dash-dash");

    parse_fail(Rule::account, "Assets");
    parse_fail(Rule::account, "Assets:");
    parse_fail(Rule::account, "Assets: Foo");
    parse_fail(Rule::account, "Expenses:tax");
}

#[test]
fn parsers_tag() {
    parse_ok(Rule::tag, "#foo");
    parse_ok(Rule::tag, "#FOO");
    parse_ok(Rule::tag, "#123");
    parse_ok(Rule::tag, "#foo-123/asd.asfd_asd");
    parse_ok_to(Rule::tag, "#foo bar", "#foo");
    parse_ok(Rule::link, "^foo");

    parse_ok_to(Rule::tag, "#fooæ", "#foo");
    parse_fail(Rule::tag, "#");
}

#[test]
fn parsers_org_mode() {
    parse_ok(Rule::org_mode_title, "*\n");
    parse_ok(Rule::org_mode_title, "*  \n");
    parse_ok(Rule::org_mode_title, "*  foo\n");
    parse_fail(Rule::org_mode_title, "  *  foo\n");
}

#[test]
fn parsers_balance() {
    parse_ok(Rule::balance, "2014-08-09 balance Assets:Cash 562.00 USD\n");
    parse_ok(
        Rule::balance,
        "2014-08-09 balance Assets:Cash 562.00 USD\n  foo: \"bar\"\n",
    );
    parse_ok(Rule::balance, "2014-08-09   balance  Assets:Cash    562.00  USD\n");
}

#[test]
fn parsers_close() {
    parse_ok(Rule::close, "2016-11-28 close Liabilities:CreditCard:CapitalOne\n");
}

#[test]
fn parsers_commodity_directive() {
    parse_ok(Rule::commodity_directive, "2012-01-01 commodity HOOL\n");
}

#[test]
fn parsers_custom() {
    parse_ok(
        Rule::custom,
        "2014-07-09 custom \"budget\" \"some_config_opt_for_custom_directive\" TRUE 45.30 USD\n",
    );
}

#[test]
fn parsers_document() {
    parse_ok(
        Rule::document,
        "2013-11-03 document Liabilities:CreditCard \"/home/joe/stmts/apr-2014.pdf\"\n",
    );
}

#[test]
fn parsers_event() {
    parse_ok(Rule::event, "2014-07-09 event \"location\" \"Paris, France\"\n");
}

#[test]
fn parsers_include() {
    parse_ok(Rule::include_directive, "include \"path/to/include/file.beancount\"\n");
}

#[test]
fn parsers_note() {
    parse_ok(
        Rule::note,
        "2013-11-03 note Liabilities:CreditCard \"Called about fraudulent card.\"\n",
    );
}

#[test]
fn parsers_open() {
    parse_ok(Rule::open, "2014-05-01 open Liabilities:CreditCard:CapitalOne USD\n");
}

#[test]
fn parsers_option() {
    parse_ok(Rule::option, "option \"title\" \"Ed’s Personal Ledger\"\n");
}

#[test]
fn parsers_pad() {
    parse_ok(Rule::pad, "2014-06-01 pad Assets:BofA:Checking Equity:Opening-Balances\n");
}

#[test]
fn parsers_plugin() {
    parse_ok(
        Rule::plugin,
        "plugin \"beancount.plugins.module_name\" \"configuration data\"\n",
    );
}

#[test]
fn parsers_price() {
    parse_ok(Rule::price, "2014-07-09 price HOOL 579.18 USD\n");
}

#[test]
fn parsers_query() {
    parse_ok(Rule::query, "2014-07-09 query \"france-balances\" \"SELECT account, sum(position) WHERE ‘trip-france-2014’ in tags\"\n");
}

#[test]
fn parsers_posting() {
    parse_ok(Rule::posting, "Assets:Cash  200 USD");
    parse_ok(Rule::posting, "Assets:Cash");
}

#[test]
fn parsers_transaction() {
    parse_ok(
        Rule::transaction,
        "2014-05-05 txn \"Cafe Mogador\" \"Lamb tagine with wine\"\n    Liabilities:CreditCard:CapitalOne         -37.45 USD\n    Expenses:Restaurant\n",
    );
    parse_ok(Rule::transaction, "2019-02-19*\"Foo\"\"Bar\"\n");
    parse_ok(
        Rule::transaction,
        "2018-12-31 * \"Initalize\"\n    Passiver:Foo:Bar                                   123.45 DKK\n    P Passiver:Foo:Bar                                   123.45 DKK\n",
    );
    parse_ok(
        Rule::transaction,
        "2018-12-31 * \"Initalize\"\n    ; key: 123\n    Assets:Foo:Bar                                   123.45 DKK\n",
    );

    parse_ok_to(
        Rule::transaction,
        "2014-05-05 txn \"Cafe Mogador\" \"Lamb tagine with wine\"\nLiabilities:CreditCard:CapitalOne         -37.45 USD\n",
        "2014-05-05 txn \"Cafe Mogador\" \"Lamb tagine with wine\"\n",
    );

    // The deprecated pipe syntax between payee and narration.
    parse_ok_to(
        Rule::transaction,
        "2014-05-05 txn \"Cafe Mogador\" | \"Lamb tagine with wine\"\nLiabilities:CreditCard:CapitalOne         -37.45 USD\n",
        "2014-05-05 txn \"Cafe Mogador\" | \"Lamb tagine with wine\"\n",
    );
}
