//! The parser: walks the input line by line, maintains the parse state, and
//! collects the directive stream.

use vstd::prelude::*;
use crate::chars::{append_chars, append_str, chars_of_str};
use crate::construct::{
    build_balance, build_close, build_commodity, build_custom, build_document, build_include,
    build_open, build_option, build_plugin, build_price_directive, build_tag_line,
    build_transaction, build_two_quoted, err_input_at, err_input_msg_at, err_matches,
    spec_build_balance, spec_build_close, spec_build_commodity, spec_build_custom,
    spec_build_document, spec_build_include, spec_build_note, spec_build_open,
    spec_build_option, spec_build_pad, spec_build_plugin, spec_build_price_directive,
    spec_build_tag_line, spec_build_transaction, spec_build_two_quoted, BuildOutV,
};
use crate::directives::{
    spec_dir_valid, spec_ledger_valid, Directive, DirectiveV, EventV, Ledger, LedgerV, QueryV,
};
use crate::error::{ErrorKindV, ParseError};
use crate::scan::{scan_eol, skip_to_eol, skip_ws, spec_scan_eol, spec_skip_to_eol, spec_skip_ws};
use crate::state::{
    spec_apply_option, spec_default_roots, spec_stack_keys, spec_stack_pop, spec_stack_push,
    spec_stack_total, spec_stack_wf, ParseState, RootNamesV,
};

verus! {

// ---------------------------------------------------------------------------
// Error message for unbalanced tags.
// ---------------------------------------------------------------------------

/// The remaining tags quoted and comma-separated.
pub open spec fn spec_join_keys(keys: Seq<Seq<char>>) -> Seq<char>
    decreases keys.len(),
{
    if keys.len() == 0 {
        Seq::empty()
    } else if keys.len() == 1 {
        seq!['\''] + keys[0] + seq!['\'']
    } else {
        seq!['\''] + keys[0] + seq!['\''] + ", "@ + spec_join_keys(keys.skip(1))
    }
}

pub open spec fn spec_unbalanced_msg(keys: Seq<Seq<char>>) -> Seq<char> {
    "Unbalanced pushed tag(s): "@ + spec_join_keys(keys)
}

/// Builds the message naming every still-pushed tag.
pub fn unbalanced_msg(keys: &Vec<Vec<char>>) -> (r: Vec<char>)
    ensures
        r@ == spec_unbalanced_msg(keys.deep_view()),
{
    let mut r = chars_of_str("Unbalanced pushed tag(s): ");
    let ghost kdv = keys.deep_view();
    let mut m: usize = 0;
    proof {
        assert(kdv.skip(0) =~= kdv);
        assert(r@ + spec_join_keys(kdv) =~= spec_unbalanced_msg(kdv));
    }
    while m < keys.len()
        invariant
            m <= keys@.len(),
            kdv == keys.deep_view(),
            kdv.len() == keys@.len(),
            spec_unbalanced_msg(kdv) == r@ + spec_join_keys(kdv.skip(m as int)),
        decreases keys@.len() - m,
    {
        proof {
            crate::chars::lemma_chars_deep_view(keys@[m as int]);
            assert(kdv.skip(m as int)[0] == kdv[m as int]);
            assert(kdv.skip(m as int).skip(1) =~= kdv.skip(m + 1));
        }
        let ghost before = r@;
        r.push('\'');
        append_chars(&mut r, &keys[m]);
        r.push('\'');
        if m + 1 < keys.len() {
            append_str(&mut r, ", ");
            proof {
                assert(r@ + spec_join_keys(kdv.skip(m + 1)) =~= before + spec_join_keys(
                    kdv.skip(m as int),
                ));
            }
        } else {
            proof {
                assert(kdv.skip(m + 1).len() == 0);
                assert(r@ + spec_join_keys(kdv.skip(m + 1)) =~= before + spec_join_keys(
                    kdv.skip(m as int),
                ));
            }
        }
        m = m + 1;
    }
    proof {
        assert(kdv.skip(keys@.len() as int).len() == 0);
        assert(r@ + Seq::<char>::empty() =~= r@);
    }
    r
}

// ---------------------------------------------------------------------------
// The dated-directive dispatch.
// ---------------------------------------------------------------------------

pub open spec fn spec_build_query(s: Seq<char>, i: int, roots: RootNamesV) -> BuildOutV<QueryV> {
    match spec_build_two_quoted(s, i, "query"@, roots) {
        BuildOutV::Got(t, e) => BuildOutV::Got(
            QueryV {
                date: s.subrange(i, crate::scan::spec_scan_date(s, i)->Some_0),
                name: t.0,
                query_string: t.1,
                meta: t.2,
                source: Some(t.3),
            },
            e,
        ),
        BuildOutV::NoMatch => BuildOutV::NoMatch,
        BuildOutV::Fail(k, off) => BuildOutV::Fail(k, off),
    }
}

pub open spec fn spec_build_event(s: Seq<char>, i: int, roots: RootNamesV) -> BuildOutV<EventV> {
    match spec_build_two_quoted(s, i, "event"@, roots) {
        BuildOutV::Got(t, e) => BuildOutV::Got(
            EventV {
                date: s.subrange(i, crate::scan::spec_scan_date(s, i)->Some_0),
                name: t.0,
                description: t.1,
                meta: t.2,
                source: Some(t.3),
            },
            e,
        ),
        BuildOutV::NoMatch => BuildOutV::NoMatch,
        BuildOutV::Fail(k, off) => BuildOutV::Fail(k, off),
    }
}

/// A dated directive: each keyword is tried, then a transaction.
#[verifier::opaque]
pub open spec fn spec_build_dated_directive(
    s: Seq<char>,
    j: int,
    roots: RootNamesV,
    keys: Seq<Seq<char>>,
) -> BuildOutV<DirectiveV> {
    match spec_build_open(s, j, roots) {
        BuildOutV::Got(d, e) => BuildOutV::Got(DirectiveV::Open(d), e),
        BuildOutV::Fail(k, off) => BuildOutV::Fail(k, off),
        BuildOutV::NoMatch => match spec_build_close(s, j, roots) {
            BuildOutV::Got(d, e) => BuildOutV::Got(DirectiveV::Close(d), e),
            BuildOutV::Fail(k, off) => BuildOutV::Fail(k, off),
            BuildOutV::NoMatch => match spec_build_commodity(s, j, roots) {
                BuildOutV::Got(d, e) => BuildOutV::Got(DirectiveV::Commodity(d), e),
                BuildOutV::Fail(k, off) => BuildOutV::Fail(k, off),
                BuildOutV::NoMatch => match spec_build_balance(s, j, roots) {
                    BuildOutV::Got(d, e) => BuildOutV::Got(DirectiveV::Balance(d), e),
                    BuildOutV::Fail(k, off) => BuildOutV::Fail(k, off),
                    BuildOutV::NoMatch => match spec_build_note(s, j, roots) {
                        BuildOutV::Got(d, e) => BuildOutV::Got(DirectiveV::Note(d), e),
                        BuildOutV::Fail(k, off) => BuildOutV::Fail(k, off),
                        BuildOutV::NoMatch => match spec_build_pad(s, j, roots) {
                            BuildOutV::Got(d, e) => BuildOutV::Got(DirectiveV::Pad(d), e),
                            BuildOutV::Fail(k, off) => BuildOutV::Fail(k, off),
                            BuildOutV::NoMatch => match spec_build_query(s, j, roots) {
                                BuildOutV::Got(d, e) => BuildOutV::Got(
                                    DirectiveV::Query(d),
                                    e,
                                ),
                                BuildOutV::Fail(k, off) => BuildOutV::Fail(k, off),
                                BuildOutV::NoMatch => match spec_build_event(s, j, roots) {
                                    BuildOutV::Got(d, e) => BuildOutV::Got(
                                        DirectiveV::Event(d),
                                        e,
                                    ),
                                    BuildOutV::Fail(k, off) => BuildOutV::Fail(k, off),
                                    BuildOutV::NoMatch => match spec_build_document(
                                        s,
                                        j,
                                        roots,
                                    ) {
                                        BuildOutV::Got(d, e) => BuildOutV::Got(
                                            DirectiveV::Document(d),
                                            e,
                                        ),
                                        BuildOutV::Fail(k, off) => BuildOutV::Fail(k, off),
                                        BuildOutV::NoMatch => match spec_build_price_directive(
                                            s,
                                            j,
                                            roots,
                                        ) {
                                            BuildOutV::Got(d, e) => BuildOutV::Got(
                                                DirectiveV::Price(d),
                                                e,
                                            ),
                                            BuildOutV::Fail(k, off) => BuildOutV::Fail(
                                                k,
                                                off,
                                            ),
                                            BuildOutV::NoMatch => match spec_build_custom(
                                                s,
                                                j,
                                                roots,
                                            ) {
                                                BuildOutV::Got(d, e) => BuildOutV::Got(
                                                    DirectiveV::Custom(d),
                                                    e,
                                                ),
                                                BuildOutV::Fail(k, off) => BuildOutV::Fail(
                                                    k,
                                                    off,
                                                ),
                                                BuildOutV::NoMatch =>
                                                    match spec_build_transaction(
                                                    s,
                                                    j,
                                                    roots,
                                                    keys,
                                                ) {
                                                    BuildOutV::Got(d, e) => BuildOutV::Got(
                                                        DirectiveV::Transaction(d),
                                                        e,
                                                    ),
                                                    BuildOutV::Fail(k, off) =>
                                                        BuildOutV::Fail(k, off),
                                                    BuildOutV::NoMatch => BuildOutV::NoMatch,
                                                },
                                            },
                                        },
                                    },
                                },
                            },
                        },
                    },
                },
            },
        },
    }
}

/// Builds a dated directive at `j`.
pub fn build_dated_directive(
    s: &Vec<char>,
    j: usize,
    roots: &crate::state::RootNames,
    keys: &Vec<Vec<char>>,
) -> (r: Result<Option<(Directive, usize)>, ParseError>)
    requires
        j <= s@.len(),
        s@.len() < usize::MAX,
    ensures
        match r {
            Ok(Some((d, e))) => spec_build_dated_directive(s@, j as int, roots@, keys.deep_view())
                == BuildOutV::Got(d@, e as int) && spec_dir_valid(d@) && j < e <= s@.len(),
            Ok(None) => spec_build_dated_directive(s@, j as int, roots@, keys.deep_view())
                is NoMatch,
            Err(pe) => spec_build_dated_directive(s@, j as int, roots@, keys.deep_view())
                matches BuildOutV::Fail(k, off) && err_matches(s@, pe@, k, off),
        },
{
    proof {
        reveal(spec_build_dated_directive);
    }
    if let Some((d, e)) = build_open(s, j, roots)? {
        return Ok(Some((Directive::Open(d), e)));
    }
    if let Some((d, e)) = build_close(s, j, roots)? {
        return Ok(Some((Directive::Close(d), e)));
    }
    if let Some((d, e)) = build_commodity(s, j, roots)? {
        return Ok(Some((Directive::Commodity(d), e)));
    }
    if let Some((d, e)) = build_balance(s, j, roots)? {
        return Ok(Some((Directive::Balance(d), e)));
    }
    if let Some((d, e)) = crate::construct::build_note(s, j, roots)? {
        return Ok(Some((Directive::Note(d), e)));
    }
    if let Some((d, e)) = crate::construct::build_pad(s, j, roots)? {
        return Ok(Some((Directive::Pad(d), e)));
    }
    if let Some((date, name, query_string, meta, source, e)) = build_two_quoted(
        s,
        j,
        "query",
        roots,
    )? {
        proof {
            crate::chars::lemma_chars_deep_view(name);
            crate::chars::lemma_chars_deep_view(query_string);
            crate::chars::lemma_chars_deep_view(source);
        }
        let d = crate::directives::Query { date, name, query_string, meta, source: Some(source) };
        return Ok(Some((Directive::Query(d), e)));
    }
    if let Some((date, name, description, meta, source, e)) = build_two_quoted(
        s,
        j,
        "event",
        roots,
    )? {
        proof {
            crate::chars::lemma_chars_deep_view(name);
            crate::chars::lemma_chars_deep_view(description);
            crate::chars::lemma_chars_deep_view(source);
        }
        let d = crate::directives::Event { date, name, description, meta, source: Some(source) };
        return Ok(Some((Directive::Event(d), e)));
    }
    if let Some((d, e)) = build_document(s, j, roots)? {
        return Ok(Some((Directive::Document(d), e)));
    }
    if let Some((d, e)) = build_price_directive(s, j, roots)? {
        return Ok(Some((Directive::Price(d), e)));
    }
    if let Some((d, e)) = build_custom(s, j, roots)? {
        return Ok(Some((Directive::Custom(d), e)));
    }
    if let Some((d, e)) = build_transaction(s, j, roots, keys)? {
        return Ok(Some((Directive::Transaction(d), e)));
    }
    Ok(None)
}

} // verus!

// The top level: the directive stream of a whole input.

verus! {

/// The outcome of parsing from a position: the remaining directives, or a
/// failure.
pub enum ParseOutV {
    Done(Seq<DirectiveV>),
    Fails(ErrorKindV, int),
}

pub open spec fn spec_out_prepend(d: DirectiveV, o: ParseOutV) -> ParseOutV {
    match o {
        ParseOutV::Done(r) => ParseOutV::Done(seq![d] + r),
        f => f,
    }
}

pub open spec fn spec_out_prepend_all(pre: Seq<DirectiveV>, o: ParseOutV) -> ParseOutV {
    match o {
        ParseOutV::Done(r) => ParseOutV::Done(pre + r),
        f => f,
    }
}

pub proof fn lemma_out_prepend(pre: Seq<DirectiveV>, d: DirectiveV, o: ParseOutV)
    ensures
        spec_out_prepend_all(pre, spec_out_prepend(d, o)) == spec_out_prepend_all(
            pre.push(d),
            o,
        ),
{
    match o {
        ParseOutV::Done(r) => {
            assert(pre + (seq![d] + r) =~= pre.push(d) + r);
        },
        _ => {},
    }
}

/// The directives from position `i` on, under the given state.  At end of
/// input, a non-empty tag stack is the error "Unbalanced pushed tag(s)";
/// popping an absent tag is "Attempting to pop absent tag"; a line that no
/// directive matches is "expected a directive".
pub open spec fn spec_parse_from(
    s: Seq<char>,
    i: int,
    roots: RootNamesV,
    stack: Seq<(Seq<char>, int)>,
) -> ParseOutV
    decreases s.len() - i,
{
    if i < 0 {
        ParseOutV::Done(Seq::empty())
    } else if i >= s.len() {
        if stack.len() == 0 {
            ParseOutV::Done(Seq::empty())
        } else {
            ParseOutV::Fails(
                ErrorKindV::Input(spec_unbalanced_msg(spec_stack_keys(stack))),
                s.len() as int,
            )
        }
    } else {
        let j = spec_skip_ws(s, i);
        if !(i <= j <= s.len()) {
            ParseOutV::Done(Seq::empty())
        } else {
            match spec_scan_eol(s, j) {
                Some(e) => {
                    if i < e <= s.len() {
                        spec_parse_from(s, e, roots, stack)
                    } else {
                        ParseOutV::Done(Seq::empty())
                    }
                },
                None => {
                    if s[j] == '*' {
                        let te = spec_skip_to_eol(s, j + 1);
                        if j < te <= s.len() {
                            match spec_scan_eol(s, te) {
                                Some(e) => {
                                    if i < e <= s.len() {
                                        spec_out_prepend(
                                            DirectiveV::Unsupported,
                                            spec_parse_from(s, e, roots, stack),
                                        )
                                    } else {
                                        ParseOutV::Done(Seq::empty())
                                    }
                                },
                                None => ParseOutV::Fails(
                                    ErrorKindV::Input("expected end of line"@),
                                    te,
                                ),
                            }
                        } else {
                            ParseOutV::Done(Seq::empty())
                        }
                    } else {
                        spec_parse_item(s, i, j, roots, stack)
                    }
                },
            }
        }
    }
}

/// One non-blank, non-title item at `j` (with `i` the line start).
pub open spec fn spec_parse_item(
    s: Seq<char>,
    i: int,
    j: int,
    roots: RootNamesV,
    stack: Seq<(Seq<char>, int)>,
) -> ParseOutV
    decreases s.len() - i, 0int,
{
    match spec_build_option(s, j) {
        BuildOutV::Got(o, e) => {
            if i < e <= s.len() {
                spec_out_prepend(
                    DirectiveV::Opt(o),
                    spec_parse_from(s, e, spec_apply_option(roots, o.name, o.val), stack),
                )
            } else {
                ParseOutV::Done(Seq::empty())
            }
        },
        BuildOutV::Fail(k, off) => ParseOutV::Fails(k, off),
        BuildOutV::NoMatch => match spec_build_plugin(s, j) {
            BuildOutV::Got(o, e) => {
                if i < e <= s.len() {
                    spec_out_prepend(
                        DirectiveV::Plugin(o),
                        spec_parse_from(s, e, roots, stack),
                    )
                } else {
                    ParseOutV::Done(Seq::empty())
                }
            },
            BuildOutV::Fail(k, off) => ParseOutV::Fails(k, off),
            BuildOutV::NoMatch => match spec_build_include(s, j) {
                BuildOutV::Got(o, e) => {
                    if i < e <= s.len() {
                        spec_out_prepend(
                            DirectiveV::Include(o),
                            spec_parse_from(s, e, roots, stack),
                        )
                    } else {
                        ParseOutV::Done(Seq::empty())
                    }
                },
                BuildOutV::Fail(k, off) => ParseOutV::Fails(k, off),
                BuildOutV::NoMatch => match spec_build_tag_line(s, j, "pushtag"@) {
                    BuildOutV::Got(t, e) => {
                        if i < e <= s.len() {
                            spec_parse_from(s, e, roots, spec_stack_push(stack, t))
                        } else {
                            ParseOutV::Done(Seq::empty())
                        }
                    },
                    BuildOutV::Fail(k, off) => ParseOutV::Fails(k, off),
                    BuildOutV::NoMatch => match spec_build_tag_line(s, j, "poptag"@) {
                        BuildOutV::Got(t, e) => {
                            match spec_stack_pop(stack, t) {
                                Some(st) => {
                                    if i < e <= s.len() {
                                        spec_parse_from(s, e, roots, st)
                                    } else {
                                        ParseOutV::Done(Seq::empty())
                                    }
                                },
                                None => ParseOutV::Fails(
                                    ErrorKindV::Input(
                                        "Attempting to pop absent tag: '"@ + t + seq!['\''],
                                    ),
                                    j,
                                ),
                            }
                        },
                        BuildOutV::Fail(k, off) => ParseOutV::Fails(k, off),
                        BuildOutV::NoMatch => match spec_build_dated_directive(
                            s,
                            j,
                            roots,
                            spec_stack_keys(stack),
                        ) {
                            BuildOutV::Got(d, e) => {
                                if i < e <= s.len() {
                                    spec_out_prepend(d, spec_parse_from(s, e, roots, stack))
                                } else {
                                    ParseOutV::Done(Seq::empty())
                                }
                            },
                            BuildOutV::Fail(k, off) => ParseOutV::Fails(k, off),
                            BuildOutV::NoMatch => ParseOutV::Fails(
                                ErrorKindV::Input("expected a directive"@),
                                j,
                            ),
                        },
                    },
                },
            },
        },
    }
}

} // verus!

// The executable parser.

verus! {

/// Parses a whole input into a ledger.
///
/// On success the ledger holds exactly the directive stream that
/// `spec_parse_from` gives for the input, starting from the default root
/// names and an empty tag stack; on failure the error is the one that
/// spec names, at its (line, column).
#[verifier::rlimit(100)]
pub fn parse(input: &str) -> (r: Result<Ledger, ParseError>)
    requires
        input@.len() < usize::MAX,
    ensures
        match r {
            Ok(l) => spec_parse_from(
                input@,
                0,
                spec_default_roots(),
                Seq::empty(),
            ) == ParseOutV::Done(l@.directives) && spec_ledger_valid(l@),
            Err(pe) => spec_parse_from(input@, 0, spec_default_roots(), Seq::empty())
                matches ParseOutV::Fails(k, off) && err_matches(input@, pe@, k, off),
        },
{
    let s = chars_of_str(input);
    let mut st = ParseState::new();
    let mut dirs: Vec<Directive> = Vec::new();
    let mut pos: usize = 0;
    proof {
        crate::chars::lemma_deep_view_empty(dirs);
        assert(Seq::<DirectiveV>::empty() + Seq::<DirectiveV>::empty()
            =~= Seq::<DirectiveV>::empty());
    }
    let ghost goal = spec_parse_from(s@, 0, spec_default_roots(), Seq::empty());
    loop
        invariant
            pos <= s@.len(),
            s@.len() < usize::MAX,
            s@ == input@,
            st.tags.wf(),
            spec_stack_total(st.tags@) <= pos as int,
            goal == spec_parse_from(input@, 0, spec_default_roots(), Seq::empty()),
            goal == spec_out_prepend_all(
                dirs.deep_view(),
                spec_parse_from(s@, pos as int, st.roots@, st.tags@),
            ),
            forall|k: int|
                0 <= k < dirs.deep_view().len() ==> spec_dir_valid(
                    #[trigger] dirs.deep_view()[k],
                ),
        ensures
            pos <= s@.len(),
            st.tags.wf(),
            goal == spec_out_prepend_all(
                dirs.deep_view(),
                spec_parse_from(s@, pos as int, st.roots@, st.tags@),
            ),
            pos >= s@.len(),
            forall|k: int|
                0 <= k < dirs.deep_view().len() ==> spec_dir_valid(
                    #[trigger] dirs.deep_view()[k],
                ),
        decreases s@.len() - pos,
    {
        if pos >= s.len() {
            break ;
        }
        let j = skip_ws(&s, pos);
        if let Some(e) = scan_eol(&s, j) {
            pos = e;
            continue ;
        }
        let ghost prev_dirs = dirs;
        if s[j] == '*' {
            proof {
                assert(spec_parse_from(s@, pos as int, st.roots@, st.tags@)
                    is Done ==> true);
            }
            let te = skip_to_eol(&s, j + 1);
            match scan_eol(&s, te) {
                Some(e) => {
                    dirs.push(Directive::Unsupported);
                    proof {
                        crate::chars::lemma_deep_view_push(
                            dirs,
                            prev_dirs,
                            Directive::Unsupported,
                        );
                        lemma_out_prepend(
                            prev_dirs.deep_view(),
                            DirectiveV::Unsupported,
                            spec_parse_from(s@, e as int, st.roots@, st.tags@),
                        );
                    }
                    pos = e;
                    continue ;
                },
                None => {
                    return Err(err_input_at(&s, te, "expected end of line"));
                },
            }
        }
        proof {
            assert(spec_parse_from(s@, pos as int, st.roots@, st.tags@) == spec_parse_item(
                s@,
                pos as int,
                j as int,
                st.roots@,
                st.tags@,
            ));
        }
        match build_option(&s, j)? {
            Some((o, e)) => {
                st.roots.apply_option(&o.name, &o.val);
                let dd = Directive::Opt(o);
                let ghost ddv = dd@;
                dirs.push(dd);
                proof {
                    crate::chars::lemma_deep_view_push(dirs, prev_dirs, dd);
                    lemma_out_prepend(
                        prev_dirs.deep_view(),
                        ddv,
                        spec_parse_from(s@, e as int, st.roots@, st.tags@),
                    );
                }
                pos = e;
                continue ;
            },
            None => {},
        }
        match build_plugin(&s, j)? {
            Some((o, e)) => {
                let dd = Directive::Plugin(o);
                let ghost ddv = dd@;
                dirs.push(dd);
                proof {
                    crate::chars::lemma_deep_view_push(dirs, prev_dirs, dd);
                    lemma_out_prepend(
                        prev_dirs.deep_view(),
                        ddv,
                        spec_parse_from(s@, e as int, st.roots@, st.tags@),
                    );
                }
                pos = e;
                continue ;
            },
            None => {},
        }
        match build_include(&s, j)? {
            Some((o, e)) => {
                let dd = Directive::Include(o);
                let ghost ddv = dd@;
                dirs.push(dd);
                proof {
                    crate::chars::lemma_deep_view_push(dirs, prev_dirs, dd);
                    lemma_out_prepend(
                        prev_dirs.deep_view(),
                        ddv,
                        spec_parse_from(s@, e as int, st.roots@, st.tags@),
                    );
                }
                pos = e;
                continue ;
            },
            None => {},
        }
        match build_tag_line(&s, j, "pushtag")? {
            Some((t, e)) => {
                proof {
                    crate::state::lemma_stack_push_total(st.tags@, t@);
                }
                st.tags.push_tag(t);
                pos = e;
                continue ;
            },
            None => {},
        }
        match build_tag_line(&s, j, "poptag")? {
            Some((t, e)) => {
                proof {
                    crate::state::lemma_stack_pop_total(st.tags@, t@);
                }
                if st.tags.pop_tag(&t) {
                    pos = e;
                    continue ;
                } else {
                    let mut msg = chars_of_str("Attempting to pop absent tag: '");
                    append_chars(&mut msg, &t);
                    msg.push('\'');
                    proof {
                        assert(msg@ =~= "Attempting to pop absent tag: '"@ + t@ + seq!['\'']);
                    }
                    return Err(err_input_msg_at(&s, j, msg));
                }
            },
            None => {},
        }
        let keys = st.tags.keys();
        proof {
            crate::chars::lemma_str_vec_deep_view(keys, spec_stack_keys(st.tags@));
        }
        match build_dated_directive(&s, j, &st.roots, &keys)? {
            Some((d, e)) => {
                let ghost dv = d@;
                dirs.push(d);
                proof {
                    crate::chars::lemma_deep_view_push(dirs, prev_dirs, d);
                    lemma_out_prepend(
                        prev_dirs.deep_view(),
                        dv,
                        spec_parse_from(s@, e as int, st.roots@, st.tags@),
                    );
                }
                pos = e;
                continue ;
            },
            None => {
                return Err(err_input_at(&s, j, "expected a directive"));
            },
        }
    }
    if st.tags.is_empty() {
        proof {
            assert(dirs.deep_view() + Seq::<DirectiveV>::empty() =~= dirs.deep_view());
        }
        Ok(Ledger { directives: dirs })
    } else {
        let keys = st.tags.keys();
        proof {
            crate::chars::lemma_str_vec_deep_view(keys, spec_stack_keys(st.tags@));
        }
        let msg = unbalanced_msg(&keys);
        Err(err_input_msg_at(&s, s.len(), msg))
    }
}

} // verus!
