//! Parsing whole inputs into the typed ledger: directive contents, tag
//! scoping, root renaming, numeric evaluation, and the error cases.

use beancount::{
    parse, Account, AccountType, Amount, Booking, CostSpec, Date, Decimal, Directive, Flag,
    IncompleteAmount, Ledger, ParseErrorKind, Plugin, Posting, PriceSpec, Transaction,
};

fn ch(s: &str) -> Vec<char> {
    s.chars().collect()
}

fn dec(mantissa: i128, scale: u32) -> Decimal {
    Decimal { mantissa, scale }
}

fn s_of(v: &Vec<char>) -> String {
    v.iter().collect()
}

#[test]
fn lib_plugin() {
    let source = "plugin \"beancount.plugins.module_name\"\nplugin \"beancount.plugins.module_name2\" \"config\"\n";
    assert_eq!(
        parse(source).unwrap(),
        Ledger {
            directives: vec![
                Directive::Plugin(Plugin {
                    module: ch("beancount.plugins.module_name"),
                    config: None,
                    source: Some(ch("plugin \"beancount.plugins.module_name\"\n")),
                }),
                Directive::Plugin(Plugin {
                    module: ch("beancount.plugins.module_name2"),
                    config: Some(ch("config")),
                    source: Some(ch("plugin \"beancount.plugins.module_name2\" \"config\"\n")),
                }),
            ],
        }
    );
}

#[test]
fn test_pushed_tags_added_to_transaction() {
    let pre_source = "pushtag #social\npushtag #alcohol\npushtag #not-included\npoptag #not-included\n";
    let post_source = "poptag #social\npoptag #alcohol\npushtag #also-not-included\npoptag #also-not-included\n";
    let txn_source = "2014-05-05 txn \"Cafe Mogador\" \"Lamb tagine with wine\"\n    Liabilities:CreditCard:CapitalOne         10 USD { 15 GBP, * } @ 20 GBP\n";
    let source = pre_source.to_owned() + txn_source + post_source;

    assert_eq!(
        parse(&source).unwrap(),
        Ledger {
            directives: vec![Directive::Transaction(Transaction {
                date: Date::from_str_unchecked("2014-05-05"),
                flag: Flag::Okay,
                payee: Some(ch("Cafe Mogador")),
                narration: ch("Lamb tagine with wine"),
                tags: vec![ch("social"), ch("alcohol")],
                links: vec![],
                postings: vec![Posting {
                    flag: None,
                    account: Account {
                        ty: AccountType::Liabilities,
                        parts: vec![ch("CreditCard"), ch("CapitalOne")],
                    },
                    units: IncompleteAmount {
                        num: Some(dec(10, 0)),
                        currency: Some(ch("USD")),
                    },
                    cost: Some(CostSpec {
                        number_per: Some(dec(15, 0)),
                        number_total: None,
                        currency: Some(ch("GBP")),
                        date: None,
                        label: None,
                        merge_cost: true,
                    }),
                    price: Some(PriceSpec::PerUnit(IncompleteAmount {
                        num: Some(dec(20, 0)),
                        currency: Some(ch("GBP")),
                    })),
                    meta: vec![],
                }],
                meta: vec![],
                source: Some(ch(txn_source)),
            })],
        }
    );
}

#[test]
fn lib_transaction_ir() {
    let source = "2014-05-05 txn \"Cafe Mogador\" \"Lamb tagine with wine\" #tag ^link\n    Liabilities:CreditCard:CapitalOne         10 USD { 15 GBP, * } @ 20 GBP\n";
    let ledger = parse(source).unwrap();
    assert_eq!(ledger.directives.len(), 1);
    match &ledger.directives[0] {
        Directive::Transaction(t) => {
            assert_eq!(t.date, Date::from_str_unchecked("2014-05-05"));
            assert_eq!(t.payee, Some(ch("Cafe Mogador")));
            assert_eq!(t.narration, ch("Lamb tagine with wine"));
            assert_eq!(t.tags, vec![ch("tag")]);
            assert_eq!(t.links, vec![ch("link")]);
            assert_eq!(t.postings.len(), 1);
            let p = &t.postings[0];
            assert_eq!(
                p.price,
                Some(PriceSpec::PerUnit(IncompleteAmount {
                    num: Some(dec(20, 0)),
                    currency: Some(ch("GBP")),
                }))
            );
            assert_eq!(t.source, Some(ch(source)));
        },
        _ => panic!("expected a transaction"),
    }
}

#[test]
fn lib_transaction_ir_total_price() {
    let source = "2014-05-05 txn \"Cafe Mogador\" \"Lamb tagine with wine\" #tag ^link\n    Liabilities:CreditCard:CapitalOne         10 USD { 15 GBP, * } @@ 20 GBP\n";
    let ledger = parse(source).unwrap();
    match &ledger.directives[0] {
        Directive::Transaction(t) => {
            let p = &t.postings[0];
            assert_eq!(
                p.price,
                Some(PriceSpec::Total(IncompleteAmount {
                    num: Some(dec(20, 0)),
                    currency: Some(ch("GBP")),
                }))
            );
            assert_eq!(
                p.cost,
                Some(CostSpec {
                    number_per: Some(dec(15, 0)),
                    number_total: None,
                    currency: Some(ch("GBP")),
                    date: None,
                    label: None,
                    merge_cost: true,
                })
            );
        },
        _ => panic!("expected a transaction"),
    }
}

#[test]
fn two_postings_with_elided_amount() {
    let source = "2014-05-05 txn \"Cafe Mogador\" \"Lamb tagine with wine\"\n    Liabilities:CreditCard:CapitalOne         -37.45 USD\n    Expenses:Restaurant\n";
    let ledger = parse(source).unwrap();
    match &ledger.directives[0] {
        Directive::Transaction(t) => {
            assert_eq!(t.flag, Flag::Okay);
            assert_eq!(t.payee, Some(ch("Cafe Mogador")));
            assert_eq!(t.narration, ch("Lamb tagine with wine"));
            assert_eq!(t.postings.len(), 2);
            assert_eq!(
                t.postings[0].units,
                IncompleteAmount { num: Some(dec(-3745, 2)), currency: Some(ch("USD")) }
            );
            assert_eq!(
                t.postings[1].units,
                IncompleteAmount { num: None, currency: None }
            );
        },
        _ => panic!("expected a transaction"),
    }
}

#[test]
fn balance_with_tolerance() {
    let ledger = parse("2014-08-09 balance Assets:Cash 562.00 ~ 0.002 USD\n").unwrap();
    match &ledger.directives[0] {
        Directive::Balance(b) => {
            assert_eq!(b.amount, Amount { num: dec(56200, 2), currency: ch("USD") });
            assert_eq!(b.tolerance, Some(dec(2, 3)));
        },
        _ => panic!("expected a balance"),
    }
}

#[test]
fn root_renaming_scope() {
    // Before the option, the new root is rejected.
    let before = parse("2014-01-01 open Aktiver:Cash\n");
    assert!(before.is_err());
    assert_eq!(before.unwrap_err().kind.message().as_str(), "Invalid root account");

    // After the option, it resolves to the asset type.
    let ledger = parse("option \"name_assets\" \"Aktiver\"\n2014-01-01 open Aktiver:Cash\n")
        .unwrap();
    assert_eq!(ledger.directives.len(), 2);
    match &ledger.directives[1] {
        Directive::Open(o) => {
            assert_eq!(o.account.ty, AccountType::Assets);
            assert_eq!(o.account.parts, vec![ch("Cash")]);
            assert_eq!(o.booking, Booking::Strict);
        },
        _ => panic!("expected an open"),
    }

    // And the old root no longer resolves.
    assert!(parse("option \"name_assets\" \"Aktiver\"\n2014-01-01 open Assets:Cash\n").is_err());
}

#[test]
fn unbalanced_push_is_reported() {
    let err = parse("pushtag #a\n").unwrap_err();
    match &err.kind {
        ParseErrorKind::InvalidInput { message } => {
            assert_eq!(message.as_str(), "Unbalanced pushed tag(s): 'a'");
        },
        _ => panic!("expected invalid input"),
    }
}

#[test]
fn unbalanced_pushes_are_listed() {
    let err = parse("pushtag #a\npushtag #b\n").unwrap_err();
    match &err.kind {
        ParseErrorKind::InvalidInput { message } => {
            assert_eq!(message.as_str(), "Unbalanced pushed tag(s): 'a', 'b'");
        },
        _ => panic!("expected invalid input"),
    }
}

#[test]
fn pop_absent_is_reported() {
    let err = parse("poptag #x\n").unwrap_err();
    match &err.kind {
        ParseErrorKind::InvalidInput { message } => {
            assert_eq!(message.as_str(), "Attempting to pop absent tag: 'x'");
        },
        _ => panic!("expected invalid input"),
    }
}

#[test]
fn partial_thousands_group_value() {
    // `1,1234` is the number 1,123; the stray digit fails the directive.
    let ledger = parse("2012-01-01 commodity HOOL\n  aa: 1,123\n").unwrap();
    match &ledger.directives[0] {
        Directive::Commodity(c) => {
            assert_eq!(c.meta.len(), 1);
            assert_eq!(c.meta[0].value, beancount::MetaValue::Number(dec(1123, 0)));
            let key: String = c.meta[0].key.iter().collect();
            assert_eq!(key, "aa");
        },
        _ => panic!("expected a commodity"),
    }
    assert!(parse("2014-08-09 balance Assets:Cash 1,1234 USD\n").is_err());
}

#[test]
fn commodity_length_boundary() {
    // Twenty-four characters are accepted; the twenty-fifth is left over
    // and fails the directive.
    assert!(parse("2012-01-01 commodity FOOOOOOOOOOOOOOOOOOOOOOO\n").is_ok());
    assert!(parse("2012-01-01 commodity FOOOOOOOOOOOOOOOOOOOOOOOX\n").is_err());
}

#[test]
fn date_bounds() {
    assert!(parse("2020-12-31 commodity HOOL\n").is_ok());
    assert!(parse("2020-13-01 commodity HOOL\n").is_err());
    assert!(parse("2020-12-32 commodity HOOL\n").is_err());
}

#[test]
fn expression_evaluation() {
    let ledger = parse("2014-08-09 balance Assets:Cash 1+-(2*3)/(4+6) USD\n").unwrap();
    match &ledger.directives[0] {
        Directive::Balance(b) => {
            // 1 + -(2*3)/(4+6) is -0.5 short of 1: the quotient carries
            // the scale of its rounding, so the value arrives as 0.40.
            assert_eq!(b.amount.num, dec(40, 2));
        },
        _ => panic!("expected a balance"),
    }
    let ledger = parse("2014-08-09 balance Assets:Cash 1 / 2 USD\n").unwrap();
    match &ledger.directives[0] {
        Directive::Balance(b) => {
            assert_eq!(b.amount.num, dec(50, 2));
        },
        _ => panic!("expected a balance"),
    }
    let ledger = parse("2014-08-09 balance Assets:Cash 1 + 2 USD\n").unwrap();
    match &ledger.directives[0] {
        Directive::Balance(b) => {
            assert_eq!(b.amount.num, dec(3, 0));
        },
        _ => panic!("expected a balance"),
    }
}

#[test]
fn unknown_booking_is_reported() {
    let err = parse("2014-05-01 open Assets:Cash USD \"WEIRD\"\n").unwrap_err();
    match &err.kind {
        ParseErrorKind::InvalidInput { message } => {
            assert_eq!(message.as_str(), "unknown booking method \"WEIRD\"");
        },
        _ => panic!("expected invalid input"),
    }
}

#[test]
fn booking_is_case_insensitive() {
    let ledger = parse("2014-05-01 open Assets:Cash USD \"fifo\"\n").unwrap();
    match &ledger.directives[0] {
        Directive::Open(o) => {
            assert_eq!(o.booking, Booking::Fifo);
        },
        _ => panic!("expected an open"),
    }
    let ledger = parse("2014-05-01 open Assets:Cash USD \"NONE\"\n").unwrap();
    match &ledger.directives[0] {
        Directive::Open(o) => {
            assert_eq!(o.booking, Booking::Disabled);
        },
        _ => panic!("expected an open"),
    }
}

#[test]
fn decimal_overflow_is_reported() {
    let err = parse(
        "2014-08-09 balance Assets:Cash 123456789012345678901234567890123 USD\n",
    )
    .unwrap_err();
    match &err.kind {
        ParseErrorKind::DecimalError { message } => {
            assert_eq!(message.as_str(), "error while parsing number");
        },
        _ => panic!("expected a decimal error"),
    }
}

#[test]
fn stray_line_is_invalid_input() {
    let err = parse("junk\n").unwrap_err();
    match &err.kind {
        ParseErrorKind::InvalidInput { .. } => {},
        _ => panic!("expected invalid input"),
    }
    assert_eq!(err.location, (1, 1));
}

#[test]
fn metadata_attaches_per_position() {
    // Pairs before the first posting go to the transaction; later ones to
    // the posting seen last.
    let source = "2014-05-05 txn \"A\" \"B\"\n    k1: \"t\"\n    Assets:Cash 1 USD\n    k2: \"p\"\n";
    let ledger = parse(source).unwrap();
    match &ledger.directives[0] {
        Directive::Transaction(t) => {
            assert_eq!(t.meta.len(), 1);
            assert_eq!(s_of(&t.meta[0].key), "k1");
            assert_eq!(t.postings.len(), 1);
            assert_eq!(t.postings[0].meta.len(), 1);
            assert_eq!(s_of(&t.postings[0].meta[0].key), "k2");
        },
        _ => panic!("expected a transaction"),
    }
}

#[test]
fn org_mode_title_is_unsupported_directive() {
    let ledger = parse("* A heading\n2012-01-01 commodity HOOL\n").unwrap();
    assert_eq!(ledger.directives.len(), 2);
    assert_eq!(ledger.directives[0], Directive::Unsupported);
    // Rendering a ledger holding it fails.
    assert!(beancount::render(&ledger).is_err());
}

#[test]
fn option_directive_contents() {
    let ledger = parse("option \"title\" \"Ed’s Personal Ledger\"\n").unwrap();
    match &ledger.directives[0] {
        Directive::Opt(o) => {
            assert_eq!(s_of(&o.name), "title");
            assert_eq!(s_of(&o.val), "Ed’s Personal Ledger");
        },
        _ => panic!("expected an option"),
    }
}
