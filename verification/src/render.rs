//! The renderer: the canonical text of a ledger.
//!
//! Every directive has a fixed printed form, specified exactly by the
//! `spec_render_*` functions; rendering fails only on an `Unsupported`
//! directive.

use vstd::prelude::*;
use crate::chars::{append_chars, append_str, string_from_chars};
use crate::decimal::{dec_to_chars, spec_dec_string, dec_valid};
use crate::directives::{
    spec_dir_valid, spec_ledger_valid, BalanceV, BcOptionV, CloseV, CommodityV, CustomV,
    Directive, DirectiveV, DocumentV, EventV, IncludeV, Ledger, LedgerV, NoteV, OpenV, PadV,
    PluginV, PriceV, QueryV, TransactionV,
};
use crate::model::{
    spec_default_name, AccountV, AmountV, Booking, CostSpecV, FlagV, IncompleteAmountV,
    MetaEntryV, MetaValueV, PostingV,
};

verus! {

// ---------------------------------------------------------------------------
// Spec: printed forms.
// ---------------------------------------------------------------------------

pub open spec fn spec_render_account(a: AccountV) -> Seq<char>
    decreases a.parts.len(),
{
    if a.parts.len() == 0 {
        spec_default_name(a.ty)
    } else {
        spec_render_account(AccountV { ty: a.ty, parts: a.parts.drop_last() }) + seq![':']
            + a.parts.last()
    }
}

pub open spec fn spec_render_amount(a: AmountV) -> Seq<char> {
    spec_dec_string(a.num) + seq![' '] + a.currency
}

pub open spec fn spec_render_incomplete(a: IncompleteAmountV) -> Seq<char> {
    match (a.num, a.currency) {
        (Some(n), Some(c)) => spec_dec_string(n) + seq![' '] + c,
        (None, Some(c)) => c,
        (Some(n), None) => spec_dec_string(n),
        (None, None) => Seq::empty(),
    }
}

pub open spec fn spec_render_flag(f: FlagV) -> Seq<char> {
    match f {
        FlagV::Okay => seq!['*'],
        FlagV::Warning => seq!['!'],
        FlagV::Other(s) => s,
    }
}

pub open spec fn spec_render_booking(b: Booking) -> Seq<char> {
    match b {
        Booking::Strict => " \"strict\""@,
        Booking::Disabled => Seq::empty(),
        Booking::Average => " \"average\""@,
        Booking::Fifo => " \"fifo\""@,
        Booking::Lifo => " \"lifo\""@,
    }
}

pub open spec fn spec_render_mv(v: MetaValueV) -> Seq<char> {
    match v {
        MetaValueV::Text(t) => seq!['"'] + t + seq!['"'],
        MetaValueV::Account(a) => spec_render_account(a),
        MetaValueV::Date(d) => d,
        MetaValueV::Currency(c) => c,
        MetaValueV::Tag(t) => seq!['#'] + t,
        MetaValueV::Bool(b) => if b {
            "true"@
        } else {
            "false"@
        },
        MetaValueV::Amount(a) => spec_render_amount(a),
        MetaValueV::Number(n) => spec_dec_string(n),
    }
}

pub open spec fn spec_render_meta(m: Seq<MetaEntryV>) -> Seq<char>
    decreases m.len(),
{
    if m.len() == 0 {
        Seq::empty()
    } else {
        seq!['\t'] + m[0].key + ": "@ + spec_render_mv(m[0].value) + seq!['\n']
            + spec_render_meta(m.skip(1))
    }
}

/// The cost pieces: the number and currency (the total number when total
/// syntax was used), then the date, then the label, comma-separated.
pub open spec fn spec_render_cost(c: CostSpecV) -> Seq<char> {
    let double = c.number_total is Some;
    let num: Option<crate::decimal::Decimal> = if double {
        c.number_total
    } else {
        c.number_per
    };
    let has_first = num is Some && c.currency is Some;
    let first = if has_first {
        spec_dec_string(num->Some_0) + seq![' '] + c.currency->Some_0
    } else {
        Seq::empty()
    };
    let with_date = if c.date is Some {
        if has_first {
            first + ", "@ + c.date->Some_0
        } else {
            first + c.date->Some_0
        }
    } else {
        first
    };
    let has_pre = has_first || c.date is Some;
    let with_label = if c.label is Some {
        if has_pre {
            with_date + ", \""@ + c.label->Some_0 + seq!['"']
        } else {
            with_date + seq!['"'] + c.label->Some_0 + seq!['"']
        }
    } else {
        with_date
    };
    if double {
        "{{"@ + with_label + "}}"@
    } else {
        seq!['{'] + with_label + seq!['}']
    }
}

pub open spec fn spec_render_posting(p: PostingV) -> Seq<char> {
    let flagpart: Seq<char> = match p.flag {
        Some(f) => spec_render_flag(f) + seq![' '],
        None => Seq::empty(),
    };
    let costpart: Seq<char> = match p.cost {
        Some(c) => seq![' '] + spec_render_cost(c),
        None => Seq::empty(),
    };
    let pricepart: Seq<char> = match p.price {
        Some(crate::model::PriceSpecV::PerUnit(a)) => " @ "@ + spec_render_incomplete(a),
        Some(crate::model::PriceSpecV::Total(a)) => " @@ "@ + spec_render_incomplete(a),
        None => Seq::empty(),
    };
    seq!['\t'] + flagpart + spec_render_account(p.account) + seq!['\t']
        + spec_render_incomplete(p.units) + costpart + pricepart + seq!['\n']
        + spec_render_meta(p.meta)
}

pub open spec fn spec_render_postings(ps: Seq<PostingV>) -> Seq<char>
    decreases ps.len(),
{
    if ps.len() == 0 {
        Seq::empty()
    } else {
        spec_render_posting(ps[0]) + spec_render_postings(ps.skip(1))
    }
}

/// Space-prefixed words: currencies on an `open`, tags, links, arguments.
pub open spec fn spec_render_words(ws: Seq<Seq<char>>, prefix: Seq<char>) -> Seq<char>
    decreases ws.len(),
{
    if ws.len() == 0 {
        Seq::empty()
    } else {
        prefix + ws[0] + spec_render_words(ws.skip(1), prefix)
    }
}

pub open spec fn spec_render_txn(t: TransactionV) -> Seq<char> {
    let payeepart: Seq<char> = match t.payee {
        Some(p) => " \""@ + p + seq!['"'],
        None => Seq::empty(),
    };
    t.date + seq![' '] + spec_render_flag(t.flag) + payeepart + " \""@ + t.narration
        + seq!['"'] + spec_render_words(t.tags, " #"@) + spec_render_words(t.links, " ^"@)
        + seq!['\n'] + spec_render_postings(t.postings) + spec_render_meta(t.meta)
}

pub open spec fn spec_render_dir(d: DirectiveV) -> Option<Seq<char>> {
    match d {
        DirectiveV::Open(x) => Some(
            x.date + " open "@ + spec_render_account(x.account) + spec_render_words(
                x.currencies,
                seq![' '],
            ) + spec_render_booking(x.booking) + seq!['\n'] + spec_render_meta(x.meta),
        ),
        DirectiveV::Close(x) => Some(
            x.date + " close "@ + spec_render_account(x.account) + seq!['\n']
                + spec_render_meta(x.meta),
        ),
        DirectiveV::Balance(x) => Some(
            x.date + " balance "@ + spec_render_account(x.account) + seq!['\t']
                + spec_render_amount(x.amount) + seq!['\n'] + spec_render_meta(x.meta),
        ),
        DirectiveV::Opt(x) => Some(
            "option \""@ + x.name + "\" \""@ + x.val + "\"\n"@,
        ),
        DirectiveV::Commodity(x) => Some(
            x.date + " commodity "@ + x.name + seq!['\n'] + spec_render_meta(x.meta),
        ),
        DirectiveV::Custom(x) => Some(
            x.date + " custom \""@ + x.name + seq!['"'] + spec_render_words(
                x.args,
                seq![' '],
            ) + seq!['\n'] + spec_render_meta(x.meta),
        ),
        DirectiveV::Document(x) => Some(
            x.date + " document "@ + spec_render_account(x.account) + " \""@ + x.path
                + "\"\n"@ + spec_render_meta(x.meta),
        ),
        DirectiveV::Event(x) => Some(
            x.date + " event \""@ + x.name + "\" \""@ + x.description + "\"\n"@
                + spec_render_meta(x.meta),
        ),
        DirectiveV::Include(x) => Some("include \""@ + x.filename + "\"\n"@),
        DirectiveV::Note(x) => Some(
            x.date + " note "@ + spec_render_account(x.account) + seq![' '] + x.comment
                + seq!['\n'] + spec_render_meta(x.meta),
        ),
        DirectiveV::Pad(x) => Some(
            x.date + " pad "@ + spec_render_account(x.pad_to_account) + seq![' ']
                + spec_render_account(x.pad_from_account) + seq!['\n'] + spec_render_meta(
                x.meta,
            ),
        ),
        DirectiveV::Plugin(x) => Some(
            "plugin \""@ + x.module + seq!['"'] + (match x.config {
                Some(c) => " \""@ + c + seq!['"'],
                None => Seq::empty(),
            }) + seq!['\n'],
        ),
        DirectiveV::Price(x) => Some(
            x.date + " price "@ + x.currency + seq![' '] + spec_render_amount(x.amount)
                + seq!['\n'] + spec_render_meta(x.meta),
        ),
        DirectiveV::Query(x) => Some(
            x.date + " query \""@ + x.name + "\" \""@ + x.query_string + "\"\n"@
                + spec_render_meta(x.meta),
        ),
        DirectiveV::Transaction(x) => Some(spec_render_txn(x)),
        DirectiveV::Unsupported => None,
    }
}

/// A whole ledger: each directive followed by a blank line; `None` when any
/// directive is `Unsupported`.
pub open spec fn spec_render_ledger_dirs(ds: Seq<DirectiveV>) -> Option<Seq<char>>
    decreases ds.len(),
{
    if ds.len() == 0 {
        Some(Seq::empty())
    } else {
        match spec_render_dir(ds[0]) {
            Some(t) => {
                match spec_render_ledger_dirs(ds.skip(1)) {
                    Some(rest) => Some(t + seq!['\n'] + rest),
                    None => None,
                }
            },
            None => None,
        }
    }
}

pub open spec fn spec_render_ledger(l: LedgerV) -> Option<Seq<char>> {
    spec_render_ledger_dirs(l.directives)
}

} // verus!

// Executable rendering.

verus! {

pub fn render_account(a: &crate::model::Account, out: &mut Vec<char>)
    ensures
        final(out)@ == old(out)@ + spec_render_account(a@),
{
    append_str(out, a.ty.default_name());
    let ghost base = out@;
    let mut k: usize = 0;
    proof {
        assert(a@.parts.take(0) =~= Seq::<Seq<char>>::empty());
        assert(out@ =~= old(out)@ + spec_render_account(
            AccountV { ty: a.ty, parts: a@.parts.take(0) },
        ));
    }
    while k < a.parts.len()
        invariant
            k <= a.parts@.len(),
            a@.parts.len() == a.parts@.len(),
            out@ == old(out)@ + spec_render_account(
                AccountV { ty: a.ty, parts: a@.parts.take(k as int) },
            ),
        decreases a.parts@.len() - k,
    {
        out.push(':');
        append_chars(out, &a.parts[k]);
        proof {
            crate::chars::lemma_chars_deep_view(a.parts@[k as int]);
            assert(a@.parts.take(k + 1).drop_last() =~= a@.parts.take(k as int));
            assert(a@.parts.take(k + 1).last() == a@.parts[k as int]);
            assert(out@ =~= old(out)@ + spec_render_account(
                AccountV { ty: a.ty, parts: a@.parts.take(k + 1) },
            ));
        }
        k = k + 1;
    }
    proof {
        assert(a@.parts.take(a.parts@.len() as int) =~= a@.parts);
    }
}

pub fn render_amount(a: &crate::model::Amount, out: &mut Vec<char>)
    requires
        crate::model::spec_amount_valid(a@),
    ensures
        final(out)@ == old(out)@ + spec_render_amount(a@),
{
    let n = dec_to_chars(a.num);
    append_chars(out, &n);
    out.push(' ');
    append_chars(out, &a.currency);
    proof {
        assert(out@ =~= old(out)@ + spec_render_amount(a@));
    }
}

pub fn render_incomplete(a: &crate::model::IncompleteAmount, out: &mut Vec<char>)
    requires
        crate::model::spec_incomplete_valid(a@),
    ensures
        final(out)@ == old(out)@ + spec_render_incomplete(a@),
{
    match (&a.num, &a.currency) {
        (Some(n), Some(c)) => {
            let nv = dec_to_chars(*n);
            append_chars(out, &nv);
            out.push(' ');
            append_chars(out, c);
            proof {
                assert(out@ =~= old(out)@ + spec_render_incomplete(a@));
            }
        },
        (None, Some(c)) => {
            append_chars(out, c);
        },
        (Some(n), None) => {
            let nv = dec_to_chars(*n);
            append_chars(out, &nv);
        },
        (None, None) => {},
    }
}

pub fn render_flag(f: &crate::model::Flag, out: &mut Vec<char>)
    ensures
        final(out)@ == old(out)@ + spec_render_flag(f@),
{
    match f {
        crate::model::Flag::Okay => {
            out.push('*');
            proof {
                assert(out@ =~= old(out)@ + spec_render_flag(f@));
            }
        },
        crate::model::Flag::Warning => {
            out.push('!');
            proof {
                assert(out@ =~= old(out)@ + spec_render_flag(f@));
            }
        },
        crate::model::Flag::Other(s) => {
            append_chars(out, s);
        },
    }
}

pub fn render_booking(b: Booking, out: &mut Vec<char>)
    ensures
        final(out)@ == old(out)@ + spec_render_booking(b),
{
    match b {
        Booking::Strict => append_str(out, " \"strict\""),
        Booking::Disabled => {
            proof {
                assert(out@ =~= old(out)@ + Seq::<char>::empty());
            }
        },
        Booking::Average => append_str(out, " \"average\""),
        Booking::Fifo => append_str(out, " \"fifo\""),
        Booking::Lifo => append_str(out, " \"lifo\""),
    }
}

pub fn render_mv(v: &crate::model::MetaValue, out: &mut Vec<char>)
    requires
        crate::model::spec_mv_valid(v@),
    ensures
        final(out)@ == old(out)@ + spec_render_mv(v@),
{
    match v {
        crate::model::MetaValue::Text(t) => {
            out.push('"');
            append_chars(out, t);
            out.push('"');
            proof {
                assert(out@ =~= old(out)@ + spec_render_mv(v@));
            }
        },
        crate::model::MetaValue::Account(a) => {
            render_account(a, out);
        },
        crate::model::MetaValue::Date(d) => {
            append_chars(out, &d.text);
        },
        crate::model::MetaValue::Currency(c) => {
            append_chars(out, c);
        },
        crate::model::MetaValue::Tag(t) => {
            out.push('#');
            append_chars(out, t);
            proof {
                assert(out@ =~= old(out)@ + spec_render_mv(v@));
            }
        },
        crate::model::MetaValue::Bool(b) => {
            if *b {
                append_str(out, "true");
            } else {
                append_str(out, "false");
            }
        },
        crate::model::MetaValue::Amount(a) => {
            render_amount(a, out);
        },
        crate::model::MetaValue::Number(n) => {
            let nv = dec_to_chars(*n);
            append_chars(out, &nv);
        },
    }
}

pub fn render_meta(m: &Vec<crate::model::MetaEntry>, out: &mut Vec<char>)
    requires
        crate::model::spec_meta_valid(m.deep_view()),
    ensures
        final(out)@ == old(out)@ + spec_render_meta(m.deep_view()),
{
    let ghost mdv = m.deep_view();
    let mut k: usize = 0;
    proof {
        assert(mdv.skip(0) =~= mdv);
    }
    while k < m.len()
        invariant
            k <= m@.len(),
            mdv == m.deep_view(),
            mdv.len() == m@.len(),
            crate::model::spec_meta_valid(mdv),
            old(out)@ + spec_render_meta(mdv) == out@ + spec_render_meta(mdv.skip(k as int)),
        decreases m@.len() - k,
    {
        proof {
            assert(mdv.skip(k as int)[0] == mdv[k as int]);
            assert(mdv.skip(k as int).skip(1) =~= mdv.skip(k + 1));
            assert(mdv[k as int] == m@[k as int]@);
        }
        let ghost before = out@;
        out.push('\t');
        append_chars(out, &m[k].key);
        append_str(out, ": ");
        render_mv(&m[k].value, out);
        out.push('\n');
        proof {
            assert(out@ + spec_render_meta(mdv.skip(k + 1)) =~= before + spec_render_meta(
                mdv.skip(k as int),
            ));
        }
        k = k + 1;
    }
    proof {
        assert(spec_render_meta(mdv.skip(m@.len() as int)) =~= Seq::<char>::empty());
        assert(out@ + Seq::<char>::empty() =~= out@);
        assert(old(out)@ + spec_render_meta(mdv) =~= out@);
    }
}

pub fn render_words(ws: &Vec<Vec<char>>, prefix: &str, out: &mut Vec<char>)
    ensures
        final(out)@ == old(out)@ + spec_render_words(ws.deep_view(), prefix@),
{
    let ghost wdv = ws.deep_view();
    let mut k: usize = 0;
    proof {
        assert(wdv.skip(0) =~= wdv);
    }
    while k < ws.len()
        invariant
            k <= ws@.len(),
            wdv == ws.deep_view(),
            wdv.len() == ws@.len(),
            old(out)@ + spec_render_words(wdv, prefix@) == out@ + spec_render_words(
                wdv.skip(k as int),
                prefix@,
            ),
        decreases ws@.len() - k,
    {
        proof {
            crate::chars::lemma_chars_deep_view(ws@[k as int]);
            assert(wdv.skip(k as int)[0] == wdv[k as int]);
            assert(wdv.skip(k as int).skip(1) =~= wdv.skip(k + 1));
        }
        let ghost before = out@;
        append_str(out, prefix);
        append_chars(out, &ws[k]);
        proof {
            assert(out@ + spec_render_words(wdv.skip(k + 1), prefix@) =~= before
                + spec_render_words(wdv.skip(k as int), prefix@));
        }
        k = k + 1;
    }
    proof {
        assert(spec_render_words(wdv.skip(ws@.len() as int), prefix@) =~= Seq::<char>::empty());
        assert(out@ + Seq::<char>::empty() =~= out@);
    }
}

#[verifier::rlimit(100)]
pub fn render_cost(c: &crate::model::CostSpec, out: &mut Vec<char>)
    requires
        crate::model::spec_cost_valid(c@),
    ensures
        final(out)@ == old(out)@ + spec_render_cost(c@),
{
    let double = c.number_total.is_some();
    if double {
        append_str(out, "{{");
    } else {
        out.push('{');
    }
    let mut first_done = false;
    let num: &Option<crate::decimal::Decimal> = if double {
        &c.number_total
    } else {
        &c.number_per
    };
    match num {
        Some(n) => {
            match &c.currency {
                Some(cur) => {
                    let nv = dec_to_chars(*n);
                    append_chars(out, &nv);
                    out.push(' ');
                    append_chars(out, cur);
                    first_done = true;
                },
                None => {},
            }
        },
        None => {},
    }
    match &c.date {
        Some(d) => {
            if first_done {
                append_str(out, ", ");
            }
            append_chars(out, &d.text);
            first_done = true;
        },
        None => {},
    }
    match &c.label {
        Some(l) => {
            if first_done {
                append_str(out, ", \"");
            } else {
                out.push('"');
            }
            append_chars(out, l);
            out.push('"');
        },
        None => {},
    }
    if double {
        append_str(out, "}}");
    } else {
        out.push('}');
    }
    proof {
        assert(out@ =~= old(out)@ + spec_render_cost(c@));
    }
}

#[verifier::rlimit(100)]
pub fn render_posting(p: &crate::model::Posting, out: &mut Vec<char>)
    requires
        crate::model::spec_posting_valid(p@),
    ensures
        final(out)@ == old(out)@ + spec_render_posting(p@),
{
    out.push('\t');
    match &p.flag {
        Some(f) => {
            render_flag(f, out);
            out.push(' ');
        },
        None => {},
    }
    render_account(&p.account, out);
    out.push('\t');
    render_incomplete(&p.units, out);
    match &p.cost {
        Some(c) => {
            out.push(' ');
            render_cost(c, out);
        },
        None => {},
    }
    match &p.price {
        Some(crate::model::PriceSpec::PerUnit(a)) => {
            append_str(out, " @ ");
            render_incomplete(a, out);
        },
        Some(crate::model::PriceSpec::Total(a)) => {
            append_str(out, " @@ ");
            render_incomplete(a, out);
        },
        None => {},
    }
    out.push('\n');
    render_meta(&p.meta, out);
    proof {
        assert(out@ =~= old(out)@ + spec_render_posting(p@));
    }
}

pub fn render_postings(ps: &Vec<crate::model::Posting>, out: &mut Vec<char>)
    requires
        forall|k: int|
            0 <= k < ps.deep_view().len() ==> crate::model::spec_posting_valid(
                #[trigger] ps.deep_view()[k],
            ),
    ensures
        final(out)@ == old(out)@ + spec_render_postings(ps.deep_view()),
{
    let ghost pdv = ps.deep_view();
    let mut k: usize = 0;
    proof {
        assert(pdv.skip(0) =~= pdv);
    }
    while k < ps.len()
        invariant
            k <= ps@.len(),
            pdv == ps.deep_view(),
            pdv.len() == ps@.len(),
            forall|m: int|
                0 <= m < pdv.len() ==> crate::model::spec_posting_valid(#[trigger] pdv[m]),
            old(out)@ + spec_render_postings(pdv) == out@ + spec_render_postings(
                pdv.skip(k as int),
            ),
        decreases ps@.len() - k,
    {
        proof {
            assert(pdv.skip(k as int)[0] == pdv[k as int]);
            assert(pdv.skip(k as int).skip(1) =~= pdv.skip(k + 1));
            assert(pdv[k as int] == ps@[k as int]@);
        }
        let ghost before = out@;
        render_posting(&ps[k], out);
        proof {
            assert(out@ + spec_render_postings(pdv.skip(k + 1)) =~= before
                + spec_render_postings(pdv.skip(k as int)));
        }
        k = k + 1;
    }
    proof {
        assert(spec_render_postings(pdv.skip(ps@.len() as int)) =~= Seq::<char>::empty());
        assert(out@ + Seq::<char>::empty() =~= out@);
    }
}

} // verus!

// Directives and the whole ledger.

verus! {

#[verifier::rlimit(100)]
pub fn render_txn(t: &crate::directives::Transaction, out: &mut Vec<char>)
    requires
        crate::directives::spec_txn_valid(t@),
    ensures
        final(out)@ == old(out)@ + spec_render_txn(t@),
{
    append_chars(out, &t.date.text);
    out.push(' ');
    render_flag(&t.flag, out);
    match &t.payee {
        Some(p) => {
            append_str(out, " \"");
            append_chars(out, p);
            out.push('"');
        },
        None => {},
    }
    append_str(out, " \"");
    append_chars(out, &t.narration);
    out.push('"');
    render_words(&t.tags, " #", out);
    render_words(&t.links, " ^", out);
    out.push('\n');
    proof {
        assert forall|k: int|
            0 <= k < t.postings.deep_view().len() implies crate::model::spec_posting_valid(
            #[trigger] t.postings.deep_view()[k],
        ) by {
            assert(t@.postings == t.postings.deep_view());
            assert(crate::model::spec_posting_valid(t@.postings[k]));
        }
    }
    render_postings(&t.postings, out);
    render_meta(&t.meta, out);
    proof {
        match &t.payee {
            Some(p) => {
                crate::chars::lemma_chars_deep_view(*p);
            },
            None => {},
        }
        assert(out@ =~= old(out)@ + spec_render_txn(t@));
    }
}

pub fn render_open_d(x: &crate::directives::Open, out: &mut Vec<char>)
    requires
        spec_dir_valid(DirectiveV::Open(x@)),
    ensures
        final(out)@ == old(out)@ + spec_render_dir(DirectiveV::Open(x@))->Some_0,
{
    append_chars(out, &x.date.text);
    append_str(out, " open ");
    render_account(&x.account, out);
    render_words(&x.currencies, " ", out);
    render_booking(x.booking, out);
    out.push('\n');
    render_meta(&x.meta, out);
    proof {
        reveal_strlit(" ");
        assert(" "@ =~= seq![' ']);
        assert(out@ =~= old(out)@ + spec_render_dir(DirectiveV::Open(x@))->Some_0);
    }
}

pub fn render_close_d(x: &crate::directives::Close, out: &mut Vec<char>)
    requires
        spec_dir_valid(DirectiveV::Close(x@)),
    ensures
        final(out)@ == old(out)@ + spec_render_dir(DirectiveV::Close(x@))->Some_0,
{
    append_chars(out, &x.date.text);
    append_str(out, " close ");
    render_account(&x.account, out);
    out.push('\n');
    render_meta(&x.meta, out);
    proof {
        assert(out@ =~= old(out)@ + spec_render_dir(DirectiveV::Close(x@))->Some_0);
    }
}

pub fn render_balance_d(x: &crate::directives::Balance, out: &mut Vec<char>)
    requires
        spec_dir_valid(DirectiveV::Balance(x@)),
    ensures
        final(out)@ == old(out)@ + spec_render_dir(DirectiveV::Balance(x@))->Some_0,
{
    append_chars(out, &x.date.text);
    append_str(out, " balance ");
    render_account(&x.account, out);
    out.push('\t');
    render_amount(&x.amount, out);
    out.push('\n');
    render_meta(&x.meta, out);
    proof {
        assert(out@ =~= old(out)@ + spec_render_dir(DirectiveV::Balance(x@))->Some_0);
    }
}

pub fn render_opt_d(x: &crate::directives::BcOption, out: &mut Vec<char>)
    requires
        spec_dir_valid(DirectiveV::Opt(x@)),
    ensures
        final(out)@ == old(out)@ + spec_render_dir(DirectiveV::Opt(x@))->Some_0,
{
    append_str(out, "option \"");
    append_chars(out, &x.name);
    append_str(out, "\" \"");
    append_chars(out, &x.val);
    append_str(out, "\"\n");
    proof {
        assert(out@ =~= old(out)@ + spec_render_dir(DirectiveV::Opt(x@))->Some_0);
    }
}

pub fn render_commodity_d(x: &crate::directives::Commodity, out: &mut Vec<char>)
    requires
        spec_dir_valid(DirectiveV::Commodity(x@)),
    ensures
        final(out)@ == old(out)@ + spec_render_dir(DirectiveV::Commodity(x@))->Some_0,
{
    append_chars(out, &x.date.text);
    append_str(out, " commodity ");
    append_chars(out, &x.name);
    out.push('\n');
    render_meta(&x.meta, out);
    proof {
        assert(out@ =~= old(out)@ + spec_render_dir(DirectiveV::Commodity(x@))->Some_0);
    }
}

pub fn render_custom_d(x: &crate::directives::Custom, out: &mut Vec<char>)
    requires
        spec_dir_valid(DirectiveV::Custom(x@)),
    ensures
        final(out)@ == old(out)@ + spec_render_dir(DirectiveV::Custom(x@))->Some_0,
{
    append_chars(out, &x.date.text);
    append_str(out, " custom \"");
    append_chars(out, &x.name);
    out.push('"');
    render_words(&x.args, " ", out);
    out.push('\n');
    render_meta(&x.meta, out);
    proof {
        reveal_strlit(" ");
        assert(" "@ =~= seq![' ']);
        assert(out@ =~= old(out)@ + spec_render_dir(DirectiveV::Custom(x@))->Some_0);
    }
}

pub fn render_document_d(x: &crate::directives::Document, out: &mut Vec<char>)
    requires
        spec_dir_valid(DirectiveV::Document(x@)),
    ensures
        final(out)@ == old(out)@ + spec_render_dir(DirectiveV::Document(x@))->Some_0,
{
    append_chars(out, &x.date.text);
    append_str(out, " document ");
    render_account(&x.account, out);
    append_str(out, " \"");
    append_chars(out, &x.path);
    append_str(out, "\"\n");
    render_meta(&x.meta, out);
    proof {
        assert(out@ =~= old(out)@ + spec_render_dir(DirectiveV::Document(x@))->Some_0);
    }
}

pub fn render_event_d(x: &crate::directives::Event, out: &mut Vec<char>)
    requires
        spec_dir_valid(DirectiveV::Event(x@)),
    ensures
        final(out)@ == old(out)@ + spec_render_dir(DirectiveV::Event(x@))->Some_0,
{
    append_chars(out, &x.date.text);
    append_str(out, " event \"");
    append_chars(out, &x.name);
    append_str(out, "\" \"");
    append_chars(out, &x.description);
    append_str(out, "\"\n");
    render_meta(&x.meta, out);
    proof {
        assert(out@ =~= old(out)@ + spec_render_dir(DirectiveV::Event(x@))->Some_0);
    }
}

pub fn render_include_d(x: &crate::directives::Include, out: &mut Vec<char>)
    requires
        spec_dir_valid(DirectiveV::Include(x@)),
    ensures
        final(out)@ == old(out)@ + spec_render_dir(DirectiveV::Include(x@))->Some_0,
{
    append_str(out, "include \"");
    append_chars(out, &x.filename);
    append_str(out, "\"\n");
    proof {
        assert(out@ =~= old(out)@ + spec_render_dir(DirectiveV::Include(x@))->Some_0);
    }
}

pub fn render_note_d(x: &crate::directives::Note, out: &mut Vec<char>)
    requires
        spec_dir_valid(DirectiveV::Note(x@)),
    ensures
        final(out)@ == old(out)@ + spec_render_dir(DirectiveV::Note(x@))->Some_0,
{
    append_chars(out, &x.date.text);
    append_str(out, " note ");
    render_account(&x.account, out);
    out.push(' ');
    append_chars(out, &x.comment);
    out.push('\n');
    render_meta(&x.meta, out);
    proof {
        assert(out@ =~= old(out)@ + spec_render_dir(DirectiveV::Note(x@))->Some_0);
    }
}

pub fn render_pad_d(x: &crate::directives::Pad, out: &mut Vec<char>)
    requires
        spec_dir_valid(DirectiveV::Pad(x@)),
    ensures
        final(out)@ == old(out)@ + spec_render_dir(DirectiveV::Pad(x@))->Some_0,
{
    append_chars(out, &x.date.text);
    append_str(out, " pad ");
    render_account(&x.pad_to_account, out);
    out.push(' ');
    render_account(&x.pad_from_account, out);
    out.push('\n');
    render_meta(&x.meta, out);
    proof {
        assert(out@ =~= old(out)@ + spec_render_dir(DirectiveV::Pad(x@))->Some_0);
    }
}

pub fn render_plugin_d(x: &crate::directives::Plugin, out: &mut Vec<char>)
    requires
        spec_dir_valid(DirectiveV::Plugin(x@)),
    ensures
        final(out)@ == old(out)@ + spec_render_dir(DirectiveV::Plugin(x@))->Some_0,
{
    append_str(out, "plugin \"");
    append_chars(out, &x.module);
    out.push('"');
    match &x.config {
        Some(c) => {
            append_str(out, " \"");
            append_chars(out, c);
            out.push('"');
        },
        None => {},
    }
    out.push('\n');
    proof {
        match &x.config {
            Some(c) => {
                crate::chars::lemma_chars_deep_view(*c);
            },
            None => {},
        }
        assert(out@ =~= old(out)@ + spec_render_dir(DirectiveV::Plugin(x@))->Some_0);
    }
}

pub fn render_price_d(x: &crate::directives::Price, out: &mut Vec<char>)
    requires
        spec_dir_valid(DirectiveV::Price(x@)),
    ensures
        final(out)@ == old(out)@ + spec_render_dir(DirectiveV::Price(x@))->Some_0,
{
    append_chars(out, &x.date.text);
    append_str(out, " price ");
    append_chars(out, &x.currency);
    out.push(' ');
    render_amount(&x.amount, out);
    out.push('\n');
    render_meta(&x.meta, out);
    proof {
        assert(out@ =~= old(out)@ + spec_render_dir(DirectiveV::Price(x@))->Some_0);
    }
}

pub fn render_query_d(x: &crate::directives::Query, out: &mut Vec<char>)
    requires
        spec_dir_valid(DirectiveV::Query(x@)),
    ensures
        final(out)@ == old(out)@ + spec_render_dir(DirectiveV::Query(x@))->Some_0,
{
    append_chars(out, &x.date.text);
    append_str(out, " query \"");
    append_chars(out, &x.name);
    append_str(out, "\" \"");
    append_chars(out, &x.query_string);
    append_str(out, "\"\n");
    render_meta(&x.meta, out);
    proof {
        assert(out@ =~= old(out)@ + spec_render_dir(DirectiveV::Query(x@))->Some_0);
    }
}

/// Renders one directive, or reports that it is `Unsupported`.
pub fn render_dir(d: &Directive, out: &mut Vec<char>) -> (ok: bool)
    requires
        spec_dir_valid(d@),
    ensures
        match spec_render_dir(d@) {
            Some(t) => ok && final(out)@ == old(out)@ + t,
            None => !ok && final(out)@ == old(out)@,
        },
{
    match d {
        Directive::Open(x) => {
            render_open_d(x, out);
            true
        },
        Directive::Close(x) => {
            render_close_d(x, out);
            true
        },
        Directive::Balance(x) => {
            render_balance_d(x, out);
            true
        },
        Directive::Opt(x) => {
            render_opt_d(x, out);
            true
        },
        Directive::Commodity(x) => {
            render_commodity_d(x, out);
            true
        },
        Directive::Custom(x) => {
            render_custom_d(x, out);
            true
        },
        Directive::Document(x) => {
            render_document_d(x, out);
            true
        },
        Directive::Event(x) => {
            render_event_d(x, out);
            true
        },
        Directive::Include(x) => {
            render_include_d(x, out);
            true
        },
        Directive::Note(x) => {
            render_note_d(x, out);
            true
        },
        Directive::Pad(x) => {
            render_pad_d(x, out);
            true
        },
        Directive::Plugin(x) => {
            render_plugin_d(x, out);
            true
        },
        Directive::Price(x) => {
            render_price_d(x, out);
            true
        },
        Directive::Query(x) => {
            render_query_d(x, out);
            true
        },
        Directive::Transaction(x) => {
            render_txn(x, out);
            true
        },
        Directive::Unsupported => false,
    }
}

/// The renderer's one failure: a ledger holding an `Unsupported` directive.
#[derive(Debug, Clone, Copy, PartialEq, Eq, Structural)]
pub enum BasicRendererError {
    Unsupported,
}

/// The canonical renderer.
#[derive(Debug, Clone, Copy, PartialEq, Eq, Structural)]
pub struct BasicRenderer;

impl BasicRenderer {
    pub fn new() -> (r: BasicRenderer)
        ensures
            r == BasicRenderer,
    {
        BasicRenderer
    }

    /// Renders a ledger to its canonical text.
    pub fn render(&self, ledger: &Ledger) -> (r: Result<String, BasicRendererError>)
        requires
            spec_ledger_valid(ledger@),
        ensures
            match r {
                Ok(t) => spec_render_ledger(ledger@) == Some(t@),
                Err(_) => spec_render_ledger(ledger@) is None,
            },
    {
        render(ledger)
    }
}

/// Renders a ledger to its canonical text: each directive's printed form,
/// each followed by a blank line.
pub fn render(ledger: &Ledger) -> (r: Result<String, BasicRendererError>)
    requires
        spec_ledger_valid(ledger@),
    ensures
        match r {
            Ok(t) => spec_render_ledger(ledger@) == Some(t@),
            Err(_) => spec_render_ledger(ledger@) is None,
        },
{
    let mut out: Vec<char> = Vec::new();
    let ghost ddv = ledger@.directives;
    let mut k: usize = 0;
    proof {
        assert(ddv.skip(0) =~= ddv);
    }
    while k < ledger.directives.len()
        invariant
            k <= ledger.directives@.len(),
            ddv == ledger@.directives,
            ddv.len() == ledger.directives@.len(),
            spec_ledger_valid(ledger@),
            match spec_render_ledger_dirs(ddv.skip(k as int)) {
                Some(rest) => spec_render_ledger_dirs(ddv) == Some(out@ + rest),
                None => spec_render_ledger_dirs(ddv) is None,
            },
        decreases ledger.directives@.len() - k,
    {
        proof {
            assert(ddv.skip(k as int)[0] == ddv[k as int]);
            assert(ddv.skip(k as int).skip(1) =~= ddv.skip(k + 1));
            assert(ddv[k as int] == ledger.directives@[k as int]@);
            assert(spec_dir_valid(ddv[k as int]));
        }
        let ghost before = out@;
        let ok = render_dir(&ledger.directives[k], &mut out);
        if !ok {
            return Err(BasicRendererError::Unsupported);
        }
        out.push('\n');
        proof {
            match spec_render_ledger_dirs(ddv.skip(k + 1)) {
                Some(rest) => {
                    assert(out@ + rest =~= before + (spec_render_dir(ddv[k as int])->Some_0
                        + seq!['\n'] + rest));
                },
                None => {},
            }
        }
        k = k + 1;
    }
    proof {
        assert(spec_render_ledger_dirs(ddv.skip(ledger.directives@.len() as int)) == Some(
            Seq::<char>::empty(),
        ));
        assert(out@ + Seq::<char>::empty() =~= out@);
    }
    Ok(string_from_chars(&out))
}

} // verus!
