//! Round-trip tests: rendering a parsed ledger is a fixed point under
//! parsing.

use beancount::{parse, render};

fn test_conversion(s: &str) {
    // First obtain the ledger.
    let ledger = parse(s).unwrap();

    // Now render it.
    let rendered = render(&ledger).unwrap();

    // Parse again.
    let ledger_2 = parse(&rendered).unwrap();

    // Render to test for equality.
    let rendered_2 = render(&ledger_2).unwrap();

    assert_eq!(rendered_2, rendered);
}

#[test]
fn test_close() {
    test_conversion("2016-11-28 close Liabilities:CreditCard:CapitalOne\n");
}

#[test]
fn test_commodity_directive() {
    test_conversion("2012-01-01 commodity HOOL\n");
}

#[test]
fn test_balance_directive() {
    test_conversion("2012-01-01 balance Assets:Checking 100 EUR\n");
    test_conversion("2012-01-01 balance Assets:Checking 100 ~ 1 EUR\n");
}

#[test]
fn test_document() {
    test_conversion("2013-11-03 document Liabilities:CreditCard \"/home/joe/stmts/apr-2014.pdf\"\n");
}

#[test]
fn test_event() {
    test_conversion("2014-07-09 event \"location\" \"Paris, France\"\n");
}

#[test]
fn test_note() {
    test_conversion("2013-11-03 note Liabilities:CreditCard \"Called about fraudulent card.\"\n");
}

#[test]
fn test_option() {
    test_conversion("option \"title\" \"Ed’s Personal Ledger\"\n");
}

#[test]
fn test_pad() {
    test_conversion("2014-06-01 pad Assets:BofA:Checking Equity:Opening-Balances\n");
}

#[test]
fn test_plugin() {
    test_conversion("plugin \"beancount.plugins.module_name\" \"configuration data\"\n");
}

#[test]
fn test_price() {
    test_conversion("2014-07-09 price HOOL 579.18 USD\n");
}

#[test]
fn test_query() {
    test_conversion("2014-07-09 query \"france-balances\" \"SELECT account, sum(position) WHERE ‘trip-france-2014’ in tags\"\n");
}

#[test]
fn test_transaction() {
    test_conversion(
        "2020-10-01 * \"Sell\"\n  Assets:Trading             -1 HOOL {500.00 USD} @ 585.00 USD\n  Assets:Trading         585.00 USD\n  Income:Trading:Gains\n",
    );
}

#[test]
fn test_roundtrip_open_and_txn() {
    test_conversion(
        "2014-05-01 open Liabilities:CreditCard:CapitalOne USD\n2014-05-05 txn \"Cafe Mogador\" \"Lamb tagine with wine\" #tag ^link\n    Liabilities:CreditCard:CapitalOne         10 USD { 15 GBP, * } @@ 20 GBP\n",
    );
}

#[test]
fn test_roundtrip_metadata() {
    test_conversion(
        "2014-08-09 balance Assets:Cash 562.00 USD\n  foo: \"bar\"\n  baz: 2019-01-01\n  qux: 200.00 USD\n",
    );
}

#[test]
fn exact_canonical_output() {
    let ledger = parse("2014-07-09 price HOOL 579.18 USD\n").unwrap();
    assert_eq!(render(&ledger).unwrap(), "2014-07-09 price HOOL 579.18 USD\n\n");

    let ledger = parse("2016-11-28   close  Liabilities:CreditCard:CapitalOne\n").unwrap();
    assert_eq!(
        render(&ledger).unwrap(),
        "2016-11-28 close Liabilities:CreditCard:CapitalOne\n\n"
    );

    let ledger = parse("option \"title\" \"X\"\n").unwrap();
    assert_eq!(render(&ledger).unwrap(), "option \"title\" \"X\"\n\n");

    // An open without a booking string is strict, and renders so.
    let ledger = parse("2014-05-01 open Assets:Cash USD\n").unwrap();
    assert_eq!(
        render(&ledger).unwrap(),
        "2014-05-01 open Assets:Cash USD \"strict\"\n\n"
    );
}

#[test]
fn negative_and_scaled_numbers_render_exactly() {
    let ledger =
        parse("2014-05-05 txn \"A\" \"B\"\n    Assets:Cash -37.45 USD\n    Assets:Cash 0.40 USD\n")
            .unwrap();
    let rendered = render(&ledger).unwrap();
    assert_eq!(
        rendered,
        "2014-05-05 * \"A\" \"B\"\n\tAssets:Cash\t-37.45 USD\n\tAssets:Cash\t0.40 USD\n\n"
    );
}

#[test]
fn renderer_value_api() {
    let renderer = beancount::BasicRenderer::new();
    let ledger = parse("2012-01-01 commodity HOOL\n").unwrap();
    assert_eq!(
        renderer.render(&ledger).unwrap(),
        "2012-01-01 commodity HOOL\n\n"
    );
}
