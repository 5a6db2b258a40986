//! The tree constructor, lower half: evaluating numeric expressions and
//! extracting typed values from recognized tokens.
//!
//! Builders walk the same grammar as the recognizers in `syntax`, but carry
//! values out.  Each has a spec mirror returning a `BuildOutV`: no match,
//! a failure with its kind and character offset, or a value and an end
//! position.

use vstd::prelude::*;
use crate::decimal::{
    dec_add, dec_add_of, dec_div, dec_div_of, dec_from_chars, dec_from_str_of, dec_mul,
    dec_mul_of, dec_neg, dec_sub, dec_sub_of, dec_valid, spec_dec_neg, Decimal,
};
use crate::error::{spec_line_col, line_col, ErrorKindV, ParseError, ParseErrorV};
use crate::model::{Account, AccountV, AmountV};
use crate::state::{RootNames, RootNamesV};
use crate::scan::{copy_range, scan_num, skip_ws, spec_scan_num, spec_skip_ws};

verus! {

/// The outcome of a builder: no grammar match, a hard failure with its kind
/// and character offset, or a value with the end of its match.
pub enum BuildOutV<T> {
    NoMatch,
    Fail(ErrorKindV, int),
    Got(T, int),
}

/// Whether an error value carries kind `k` located at offset `off` of `s`.
pub open spec fn err_matches(s: Seq<char>, e: ParseErrorV, k: ErrorKindV, off: int) -> bool {
    &&& e.kind == k
    &&& e.line == spec_line_col(s, off).0
    &&& e.column == spec_line_col(s, off).1
}

/// An invalid-input error at a character offset.
pub fn err_input_at(s: &Vec<char>, off: usize, msg: &str) -> (e: ParseError)
    requires
        off <= s@.len(),
        s@.len() < usize::MAX,
    ensures
        err_matches(s@, e@, ErrorKindV::Input(msg@), off as int),
{
    let lc = line_col(s, off);
    ParseError::invalid_input_str_at(msg, lc)
}

/// An invalid-input error with a built message at a character offset.
pub fn err_input_msg_at(s: &Vec<char>, off: usize, msg: Vec<char>) -> (e: ParseError)
    requires
        off <= s@.len(),
        s@.len() < usize::MAX,
    ensures
        err_matches(s@, e@, ErrorKindV::Input(msg@), off as int),
{
    let lc = line_col(s, off);
    let m = crate::chars::string_from_chars(&msg);
    ParseError::invalid_input_at(m, lc)
}

/// A decimal-conversion error at a character offset.
pub fn err_decimal_at(s: &Vec<char>, off: usize, msg: &str) -> (e: ParseError)
    requires
        off <= s@.len(),
        s@.len() < usize::MAX,
    ensures
        err_matches(s@, e@, ErrorKindV::Decimal(msg@), off as int),
{
    let lc = line_col(s, off);
    ParseError::decimal_error_at(msg.to_owned(), lc)
}

// ---------------------------------------------------------------------------
// Number tokens.
// ---------------------------------------------------------------------------

/// The token text with thousands separators removed.
pub open spec fn spec_strip_commas(q: Seq<char>) -> Seq<char>
    decreases q.len(),
{
    if q.len() == 0 {
        Seq::empty()
    } else if q[0] == ',' {
        spec_strip_commas(q.skip(1))
    } else {
        seq![q[0]] + spec_strip_commas(q.skip(1))
    }
}

/// Removes the thousands separators from a number token.
pub fn strip_commas(q: &Vec<char>) -> (r: Vec<char>)
    ensures
        r@ == spec_strip_commas(q@),
{
    let mut r: Vec<char> = Vec::new();
    let mut k: usize = 0;
    proof {
        assert(q@.skip(0) =~= q@);
    }
    while k < q.len()
        invariant
            k <= q@.len(),
            spec_strip_commas(q@) == r@ + spec_strip_commas(q@.skip(k as int)),
        decreases q@.len() - k,
    {
        proof {
            assert(q@.skip(k as int)[0] == q@[k as int]);
            assert(q@.skip(k as int).skip(1) =~= q@.skip(k + 1));
        }
        if q[k] != ',' {
            r.push(q[k]);
            proof {
                assert(r@ + spec_strip_commas(q@.skip(k + 1)) =~= (r@.drop_last() + (seq![
                    q@[k as int],
                ] + spec_strip_commas(q@.skip(k + 1)))));
            }
        }
        k = k + 1;
    }
    proof {
        assert(spec_strip_commas(q@.skip(q@.len() as int)) =~= Seq::<char>::empty());
        assert(r@ + Seq::<char>::empty() =~= r@);
    }
    r
}

/// The value of a number token: its text, commas stripped, converted to a
/// decimal.
pub open spec fn spec_eval_num(s: Seq<char>, i: int) -> BuildOutV<Decimal> {
    match spec_scan_num(s, i) {
        Some(e) => {
            match dec_from_str_of(spec_strip_commas(s.subrange(i, e))) {
                Some(d) => BuildOutV::Got(d, e),
                None => BuildOutV::Fail(
                    ErrorKindV::Decimal("error while parsing number"@),
                    i,
                ),
            }
        },
        None => BuildOutV::NoMatch,
    }
}

/// Evaluates a number token.
pub fn eval_num(s: &Vec<char>, i: usize) -> (r: Result<Option<(Decimal, usize)>, ParseError>)
    requires
        i <= s@.len(),
        s@.len() < usize::MAX,
    ensures
        match r {
            Ok(Some((d, e))) => spec_eval_num(s@, i as int) == BuildOutV::Got(d, e as int)
                && dec_valid(d) && i < e <= s@.len(),
            Ok(None) => spec_eval_num(s@, i as int) is NoMatch,
            Err(pe) => spec_eval_num(s@, i as int) matches BuildOutV::Fail(k, off)
                && err_matches(s@, pe@, k, off),
        },
{
    match scan_num(s, i) {
        Some(e) => {
            let tok = copy_range(s, i, e);
            let stripped = strip_commas(&tok);
            match dec_from_chars(&stripped) {
                Some(d) => Ok(Some((d, e))),
                None => Err(err_decimal_at(s, i, "error while parsing number")),
            }
        },
        None => Ok(None),
    }
}

// ---------------------------------------------------------------------------
// Numeric expressions.
// ---------------------------------------------------------------------------

/// Applies an infix operator to two decimals.
pub open spec fn spec_op_apply(c: char, a: Decimal, b: Decimal) -> Option<Decimal> {
    if c == '+' {
        dec_add_of(a, b)
    } else if c == '-' {
        dec_sub_of(a, b)
    } else if c == '*' {
        dec_mul_of(a, b)
    } else {
        dec_div_of(a, b)
    }
}

/// Evaluates a term: prefix signs, then a number or a parenthesized
/// expression.
pub open spec fn spec_eval_term(s: Seq<char>, i: int) -> BuildOutV<Decimal>
    decreases s.len() - i, 0int,
{
    if 0 <= i < s.len() {
        if s[i] == '+' {
            let j = spec_skip_ws(s, i + 1);
            if i < j <= s.len() {
                spec_eval_term(s, j)
            } else {
                BuildOutV::NoMatch
            }
        } else if s[i] == '-' {
            let j = spec_skip_ws(s, i + 1);
            if i < j <= s.len() {
                match spec_eval_term(s, j) {
                    BuildOutV::Got(d, e) => BuildOutV::Got(spec_dec_neg(d), e),
                    o => o,
                }
            } else {
                BuildOutV::NoMatch
            }
        } else if s[i] == '(' {
            let j = spec_skip_ws(s, i + 1);
            if i < j <= s.len() {
                match spec_eval_num_expr(s, j) {
                    BuildOutV::Got(d, k) => {
                        if j <= k <= s.len() {
                            let m = spec_skip_ws(s, k);
                            if k <= m < s.len() && s[m] == ')' {
                                BuildOutV::Got(d, m + 1)
                            } else {
                                BuildOutV::NoMatch
                            }
                        } else {
                            BuildOutV::NoMatch
                        }
                    },
                    o => o,
                }
            } else {
                BuildOutV::NoMatch
            }
        } else {
            spec_eval_num(s, i)
        }
    } else {
        BuildOutV::NoMatch
    }
}

/// Folds `*` and `/` into an accumulated value, left to right, as far as
/// those operators and their terms reach.
pub open spec fn spec_eval_prod_rest(s: Seq<char>, j: int, acc: Decimal) -> BuildOutV<Decimal>
    decreases s.len() - j, 2int,
{
    let j2 = spec_skip_ws(s, j);
    if j <= j2 < s.len() && (s[j2] == '*' || s[j2] == '/') {
        let j3 = spec_skip_ws(s, j2 + 1);
        if j < j3 <= s.len() {
            match spec_eval_term(s, j3) {
                BuildOutV::Got(d, t) => {
                    if j < t <= s.len() {
                        match spec_op_apply(s[j2], acc, d) {
                            Some(v) => spec_eval_prod_rest(s, t, v),
                            None => BuildOutV::Fail(
                                ErrorKindV::Decimal(
                                    "error while evaluating numeric expression"@,
                                ),
                                j2,
                            ),
                        }
                    } else {
                        BuildOutV::Got(acc, j)
                    }
                },
                BuildOutV::NoMatch => BuildOutV::Got(acc, j),
                BuildOutV::Fail(k, off) => BuildOutV::Fail(k, off),
            }
        } else {
            BuildOutV::Got(acc, j)
        }
    } else {
        BuildOutV::Got(acc, j)
    }
}

/// A product: a term and its following `*` and `/` operations.
pub open spec fn spec_eval_product(s: Seq<char>, i: int) -> BuildOutV<Decimal>
    decreases s.len() - i, 3int,
{
    match spec_eval_term(s, i) {
        BuildOutV::Got(d, t) => {
            if i < t <= s.len() {
                spec_eval_prod_rest(s, t, d)
            } else {
                BuildOutV::NoMatch
            }
        },
        o => o,
    }
}

/// Folds `+` and `-` into an accumulated value, left to right, with each
/// right operand a whole product.
pub open spec fn spec_eval_sum_rest(s: Seq<char>, j: int, acc: Decimal) -> BuildOutV<Decimal>
    decreases s.len() - j, 4int,
{
    let j2 = spec_skip_ws(s, j);
    if j <= j2 < s.len() && (s[j2] == '+' || s[j2] == '-') {
        let j3 = spec_skip_ws(s, j2 + 1);
        if j < j3 <= s.len() {
            match spec_eval_product(s, j3) {
                BuildOutV::Got(d, t) => {
                    if j < t <= s.len() {
                        match spec_op_apply(s[j2], acc, d) {
                            Some(v) => spec_eval_sum_rest(s, t, v),
                            None => BuildOutV::Fail(
                                ErrorKindV::Decimal(
                                    "error while evaluating numeric expression"@,
                                ),
                                j2,
                            ),
                        }
                    } else {
                        BuildOutV::Got(acc, j)
                    }
                },
                BuildOutV::NoMatch => BuildOutV::Got(acc, j),
                BuildOutV::Fail(k, off) => BuildOutV::Fail(k, off),
            }
        } else {
            BuildOutV::Got(acc, j)
        }
    } else {
        BuildOutV::Got(acc, j)
    }
}

/// Evaluates a numeric expression with the usual precedence: prefix signs
/// bind tightest, then `*` and `/`, then `+` and `-`, all left-associative.
pub open spec fn spec_eval_num_expr(s: Seq<char>, i: int) -> BuildOutV<Decimal>
    decreases s.len() - i, 5int,
{
    match spec_eval_product(s, i) {
        BuildOutV::Got(d, t) => {
            if i < t <= s.len() {
                spec_eval_sum_rest(s, t, d)
            } else {
                BuildOutV::NoMatch
            }
        },
        o => o,
    }
}

pub fn eval_term(s: &Vec<char>, i: usize) -> (r: Result<Option<(Decimal, usize)>, ParseError>)
    requires
        i <= s@.len(),
        s@.len() < usize::MAX,
    ensures
        match r {
            Ok(Some((d, e))) => spec_eval_term(s@, i as int) == BuildOutV::Got(d, e as int)
                && dec_valid(d) && i < e <= s@.len(),
            Ok(None) => spec_eval_term(s@, i as int) is NoMatch,
            Err(pe) => spec_eval_term(s@, i as int) matches BuildOutV::Fail(k, off)
                && err_matches(s@, pe@, k, off),
        },
    decreases s@.len() - i, 0int,
{
    if i < s.len() {
        if s[i] == '+' {
            let j = skip_ws(s, i + 1);
            eval_term(s, j)
        } else if s[i] == '-' {
            let j = skip_ws(s, i + 1);
            match eval_term(s, j) {
                Ok(Some((d, e))) => Ok(Some((dec_neg(d), e))),
                o => o,
            }
        } else if s[i] == '(' {
            let j = skip_ws(s, i + 1);
            match eval_num_expr(s, j) {
                Ok(Some((d, k))) => {
                    let m = skip_ws(s, k);
                    if m < s.len() && s[m] == ')' {
                        Ok(Some((d, m + 1)))
                    } else {
                        Ok(None)
                    }
                },
                o => o,
            }
        } else {
            eval_num(s, i)
        }
    } else {
        Ok(None)
    }
}

pub fn eval_prod_rest(s: &Vec<char>, j: usize, acc0: Decimal) -> (r: Result<
    (Decimal, usize),
    ParseError,
>)
    requires
        j <= s@.len(),
        s@.len() < usize::MAX,
        dec_valid(acc0),
    ensures
        match r {
            Ok((d, e)) => spec_eval_prod_rest(s@, j as int, acc0) == BuildOutV::Got(d, e as int)
                && dec_valid(d) && j <= e <= s@.len(),
            Err(pe) => spec_eval_prod_rest(s@, j as int, acc0) matches BuildOutV::Fail(k, off)
                && err_matches(s@, pe@, k, off),
        },
    decreases s@.len() - j, 2int,
{
    let mut pos = j;
    let mut acc = acc0;
    loop
        invariant
            j <= pos <= s@.len(),
            s@.len() < usize::MAX,
            dec_valid(acc),
            spec_eval_prod_rest(s@, j as int, acc0) == spec_eval_prod_rest(s@, pos as int, acc),
        decreases s@.len() - pos,
    {
        let j2 = skip_ws(s, pos);
        if j2 < s.len() && (s[j2] == '*' || s[j2] == '/') {
            let j3 = skip_ws(s, j2 + 1);
            match eval_term(s, j3) {
                Ok(Some((d, t))) => {
                    let combined: Option<Decimal> = if s[j2] == '*' {
                        dec_mul(acc, d)
                    } else {
                        dec_div(acc, d)
                    };
                    match combined {
                        Some(v) => {
                            acc = v;
                            pos = t;
                        },
                        None => {
                            return Err(
                                err_decimal_at(
                                    s,
                                    j2,
                                    "error while evaluating numeric expression",
                                ),
                            );
                        },
                    }
                },
                Ok(None) => {
                    return Ok((acc, pos));
                },
                Err(pe) => {
                    return Err(pe);
                },
            }
        } else {
            return Ok((acc, pos));
        }
    }
}

pub fn eval_product(s: &Vec<char>, i: usize) -> (r: Result<
    Option<(Decimal, usize)>,
    ParseError,
>)
    requires
        i <= s@.len(),
        s@.len() < usize::MAX,
    ensures
        match r {
            Ok(Some((d, e))) => spec_eval_product(s@, i as int) == BuildOutV::Got(d, e as int)
                && dec_valid(d) && i < e <= s@.len(),
            Ok(None) => spec_eval_product(s@, i as int) is NoMatch,
            Err(pe) => spec_eval_product(s@, i as int) matches BuildOutV::Fail(k, off)
                && err_matches(s@, pe@, k, off),
        },
    decreases s@.len() - i, 3int,
{
    match eval_term(s, i) {
        Ok(Some((d, t))) => {
            match eval_prod_rest(s, t, d) {
                Ok((v, e)) => Ok(Some((v, e))),
                Err(pe) => Err(pe),
            }
        },
        Ok(None) => Ok(None),
        Err(pe) => Err(pe),
    }
}

pub fn eval_sum_rest(s: &Vec<char>, j: usize, acc0: Decimal) -> (r: Result<
    (Decimal, usize),
    ParseError,
>)
    requires
        j <= s@.len(),
        s@.len() < usize::MAX,
        dec_valid(acc0),
    ensures
        match r {
            Ok((d, e)) => spec_eval_sum_rest(s@, j as int, acc0) == BuildOutV::Got(d, e as int)
                && dec_valid(d) && j <= e <= s@.len(),
            Err(pe) => spec_eval_sum_rest(s@, j as int, acc0) matches BuildOutV::Fail(k, off)
                && err_matches(s@, pe@, k, off),
        },
    decreases s@.len() - j, 4int,
{
    let mut pos = j;
    let mut acc = acc0;
    loop
        invariant
            j <= pos <= s@.len(),
            s@.len() < usize::MAX,
            dec_valid(acc),
            spec_eval_sum_rest(s@, j as int, acc0) == spec_eval_sum_rest(s@, pos as int, acc),
        decreases s@.len() - pos,
    {
        let j2 = skip_ws(s, pos);
        if j2 < s.len() && (s[j2] == '+' || s[j2] == '-') {
            let j3 = skip_ws(s, j2 + 1);
            match eval_product(s, j3) {
                Ok(Some((d, t))) => {
                    let combined: Option<Decimal> = if s[j2] == '+' {
                        dec_add(acc, d)
                    } else {
                        dec_sub(acc, d)
                    };
                    match combined {
                        Some(v) => {
                            acc = v;
                            pos = t;
                        },
                        None => {
                            return Err(
                                err_decimal_at(
                                    s,
                                    j2,
                                    "error while evaluating numeric expression",
                                ),
                            );
                        },
                    }
                },
                Ok(None) => {
                    return Ok((acc, pos));
                },
                Err(pe) => {
                    return Err(pe);
                },
            }
        } else {
            return Ok((acc, pos));
        }
    }
}

pub fn eval_num_expr(s: &Vec<char>, i: usize) -> (r: Result<
    Option<(Decimal, usize)>,
    ParseError,
>)
    requires
        i <= s@.len(),
        s@.len() < usize::MAX,
    ensures
        match r {
            Ok(Some((d, e))) => spec_eval_num_expr(s@, i as int) == BuildOutV::Got(d, e as int)
                && dec_valid(d) && i < e <= s@.len(),
            Ok(None) => spec_eval_num_expr(s@, i as int) is NoMatch,
            Err(pe) => spec_eval_num_expr(s@, i as int) matches BuildOutV::Fail(k, off)
                && err_matches(s@, pe@, k, off),
        },
    decreases s@.len() - i, 5int,
{
    match eval_product(s, i) {
        Ok(Some((d, t))) => {
            match eval_sum_rest(s, t, d) {
                Ok((v, e)) => Ok(Some((v, e))),
                Err(pe) => Err(pe),
            }
        },
        Ok(None) => Ok(None),
        Err(pe) => Err(pe),
    }
}

} // verus!

// Accounts, tokens, amounts, and metadata values.

verus! {

// ---------------------------------------------------------------------------
// Accounts.
// ---------------------------------------------------------------------------

/// The name pieces after the root word, from position `w` (at the first
/// colon).
pub open spec fn spec_account_parts(s: Seq<char>, w: int) -> Seq<Seq<char>>
    decreases s.len() - w,
{
    if 0 <= w < s.len() && s[w] == ':' {
        match crate::scan::spec_scan_piece(s, w + 1) {
            Some(j) => {
                if w < j <= s.len() {
                    seq![s.subrange(w + 1, j)] + spec_account_parts(s, j)
                } else {
                    Seq::empty()
                }
            },
            None => Seq::empty(),
        }
    } else {
        Seq::empty()
    }
}

/// An account under the current root names: the root word resolves to a
/// type, and the pieces after it are kept in order.  A grammatical account
/// whose root is unknown is the error "Invalid root account" at the
/// account's position.
pub open spec fn spec_build_account(s: Seq<char>, i: int, roots: RootNamesV)
    -> BuildOutV<AccountV> {
    match crate::scan::spec_scan_account_word(s, i) {
        Some(w) => {
            if w < s.len() && s[w] == ':' && crate::scan::spec_scan_piece(s, w + 1) is Some {
                match crate::state::spec_resolve_root(roots, s.subrange(i, w)) {
                    Some(ty) => BuildOutV::Got(
                        AccountV { ty, parts: spec_account_parts(s, w) },
                        crate::scan::spec_scan_account_tail(s, w),
                    ),
                    None => BuildOutV::Fail(
                        ErrorKindV::Input("Invalid root account"@),
                        i,
                    ),
                }
            } else {
                BuildOutV::NoMatch
            }
        },
        None => BuildOutV::NoMatch,
    }
}

/// Builds an account.
pub fn build_account(s: &Vec<char>, i: usize, roots: &RootNames) -> (r: Result<
    Option<(Account, usize)>,
    ParseError,
>)
    requires
        i <= s@.len(),
        s@.len() < usize::MAX,
    ensures
        match r {
            Ok(Some((a, e))) => spec_build_account(s@, i as int, roots@) == BuildOutV::Got(
                a@,
                e as int,
            ) && i < e <= s@.len(),
            Ok(None) => spec_build_account(s@, i as int, roots@) is NoMatch,
            Err(pe) => spec_build_account(s@, i as int, roots@) matches BuildOutV::Fail(k, off)
                && err_matches(s@, pe@, k, off),
        },
{
    match crate::scan::scan_account_word(s, i) {
        Some(w) => {
            if w < s.len() && s[w] == ':' && crate::scan::scan_piece(s, w + 1).is_some() {
                let word = copy_range(s, i, w);
                match roots.resolve(&word) {
                    Some(ty) => {
                        let mut parts: Vec<Vec<char>> = Vec::new();
                        let mut pos = w;
                        proof {
                            crate::chars::lemma_deep_view_empty(parts);
                        }
                        loop
                            invariant
                                i < w <= pos <= s@.len(),
                                spec_account_parts(s@, w as int) == parts.deep_view()
                                    + spec_account_parts(s@, pos as int),
                                crate::scan::spec_scan_account_tail(s@, w as int)
                                    == crate::scan::spec_scan_account_tail(s@, pos as int),
                            ensures
                                i < w <= pos <= s@.len(),
                                spec_account_parts(s@, w as int) == parts.deep_view()
                                    + spec_account_parts(s@, pos as int),
                                crate::scan::spec_scan_account_tail(s@, w as int)
                                    == crate::scan::spec_scan_account_tail(s@, pos as int),
                                spec_account_parts(s@, pos as int) == Seq::<Seq<char>>::empty(),
                                crate::scan::spec_scan_account_tail(s@, pos as int) == pos as int,
                            decreases s@.len() - pos,
                        {
                            let ghost prev = parts;
                            if pos < s.len() && s[pos] == ':' {
                                match crate::scan::scan_piece(s, pos + 1) {
                                    Some(j) => {
                                        let piece = copy_range(s, pos + 1, j);
                                        parts.push(piece);
                                        proof {
                                            crate::chars::lemma_deep_view_push(
                                                parts,
                                                prev,
                                                piece,
                                            );
                                            crate::chars::lemma_chars_deep_view(piece);
                                            assert(parts.deep_view() + spec_account_parts(
                                                s@,
                                                j as int,
                                            ) =~= prev.deep_view() + (seq![
                                                s@.subrange(pos + 1, j as int),
                                            ] + spec_account_parts(s@, j as int)));
                                        }
                                        pos = j;
                                    },
                                    None => {
                                        break ;
                                    },
                                }
                            } else {
                                break ;
                            }
                        }
                        let a = Account { ty, parts };
                        proof {
                            assert(spec_account_parts(s@, pos as int) =~= Seq::<Seq<char>>::empty());
                            assert(a@.parts =~= spec_account_parts(s@, w as int));
                        }
                        Ok(Some((a, pos)))
                    },
                    None => Err(err_input_at(s, i, "Invalid root account")),
                }
            } else {
                Ok(None)
            }
        },
        None => Ok(None),
    }
}

// ---------------------------------------------------------------------------
// Simple token values.
// ---------------------------------------------------------------------------

/// Builds a date token as a `Date` value.
pub fn build_date(s: &Vec<char>, i: usize) -> (r: Option<(crate::model::Date, usize)>)
    requires
        i <= s@.len(),
    ensures
        match r {
            Some((d, e)) => crate::scan::spec_scan_date(s@, i as int) == Some(e as int) && d@
                == s@.subrange(i as int, e as int) && i < e <= s@.len(),
            None => crate::scan::spec_scan_date(s@, i as int) is None,
        },
{
    match crate::scan::scan_date(s, i) {
        Some(e) => Some((crate::model::Date { text: copy_range(s, i, e) }, e)),
        None => None,
    }
}

/// Builds a quoted string's inner text (escapes unresolved).
pub fn build_quoted(s: &Vec<char>, i: usize) -> (r: Option<(Vec<char>, usize)>)
    requires
        i <= s@.len(),
    ensures
        match r {
            Some((q, e)) => crate::scan::spec_scan_quoted(s@, i as int) == Some(e as int) && q@
                == s@.subrange(i + 1, e - 1) && i < e <= s@.len(),
            None => crate::scan::spec_scan_quoted(s@, i as int) is None,
        },
{
    match crate::scan::scan_quoted(s, i) {
        Some(e) => {
            proof {
                crate::scan::lemma_quoted_inner_bounds(s@, i + 1);
            }
            Some((copy_range(s, i + 1, e - 1), e))
        },
        None => None,
    }
}

} // verus!

// Amounts and metadata values.

verus! {

// ---------------------------------------------------------------------------
// Amounts.
// ---------------------------------------------------------------------------

/// A full amount: an evaluated numeric expression and a commodity.
pub open spec fn spec_build_amount(s: Seq<char>, i: int) -> BuildOutV<AmountV> {
    match spec_eval_num_expr(s, i) {
        BuildOutV::Got(d, n) => {
            if i < n <= s.len() {
                let j = spec_skip_ws(s, n);
                if n <= j <= s.len() {
                    match crate::scan::spec_scan_commodity(s, j) {
                        Some(c) => BuildOutV::Got(
                            AmountV { num: d, currency: s.subrange(j, c) },
                            c,
                        ),
                        None => BuildOutV::NoMatch,
                    }
                } else {
                    BuildOutV::NoMatch
                }
            } else {
                BuildOutV::NoMatch
            }
        },
        BuildOutV::NoMatch => BuildOutV::NoMatch,
        BuildOutV::Fail(k, off) => BuildOutV::Fail(k, off),
    }
}

pub fn build_amount(s: &Vec<char>, i: usize) -> (r: Result<
    Option<(crate::model::Amount, usize)>,
    ParseError,
>)
    requires
        i <= s@.len(),
        s@.len() < usize::MAX,
    ensures
        match r {
            Ok(Some((a, e))) => spec_build_amount(s@, i as int) == BuildOutV::Got(a@, e as int)
                && crate::model::spec_amount_valid(a@) && i < e <= s@.len(),
            Ok(None) => spec_build_amount(s@, i as int) is NoMatch,
            Err(pe) => spec_build_amount(s@, i as int) matches BuildOutV::Fail(k, off)
                && err_matches(s@, pe@, k, off),
        },
{
    match eval_num_expr(s, i) {
        Ok(Some((d, n))) => {
            let j = skip_ws(s, n);
            match crate::scan::scan_commodity(s, j) {
                Some(c) => Ok(
                    Some(
                        (
                            crate::model::Amount { num: d, currency: copy_range(s, j, c) },
                            c,
                        ),
                    ),
                ),
                None => Ok(None),
            }
        },
        Ok(None) => Ok(None),
        Err(pe) => Err(pe),
    }
}

/// An amount whose number and/or commodity may be elided.
pub open spec fn spec_build_incomplete(s: Seq<char>, i: int) -> BuildOutV<
    crate::model::IncompleteAmountV,
> {
    match spec_eval_num_expr(s, i) {
        BuildOutV::Got(d, n) => {
            if i < n <= s.len() {
                let j = spec_skip_ws(s, n);
                if n <= j <= s.len() {
                    match crate::scan::spec_scan_commodity(s, j) {
                        Some(c) => BuildOutV::Got(
                            crate::model::IncompleteAmountV {
                                num: Some(d),
                                currency: Some(s.subrange(j, c)),
                            },
                            c,
                        ),
                        None => BuildOutV::Got(
                            crate::model::IncompleteAmountV { num: Some(d), currency: None },
                            n,
                        ),
                    }
                } else {
                    BuildOutV::NoMatch
                }
            } else {
                BuildOutV::NoMatch
            }
        },
        BuildOutV::NoMatch => {
            match crate::scan::spec_scan_commodity(s, i) {
                Some(c) => BuildOutV::Got(
                    crate::model::IncompleteAmountV {
                        num: None,
                        currency: Some(s.subrange(i, c)),
                    },
                    c,
                ),
                None => BuildOutV::NoMatch,
            }
        },
        BuildOutV::Fail(k, off) => BuildOutV::Fail(k, off),
    }
}

pub fn build_incomplete(s: &Vec<char>, i: usize) -> (r: Result<
    Option<(crate::model::IncompleteAmount, usize)>,
    ParseError,
>)
    requires
        i <= s@.len(),
        s@.len() < usize::MAX,
    ensures
        match r {
            Ok(Some((a, e))) => spec_build_incomplete(s@, i as int) == BuildOutV::Got(
                a@,
                e as int,
            ) && crate::model::spec_incomplete_valid(a@) && i < e <= s@.len(),
            Ok(None) => spec_build_incomplete(s@, i as int) is NoMatch,
            Err(pe) => spec_build_incomplete(s@, i as int) matches BuildOutV::Fail(k, off)
                && err_matches(s@, pe@, k, off),
        },
{
    match eval_num_expr(s, i) {
        Ok(Some((d, n))) => {
            let j = skip_ws(s, n);
            match crate::scan::scan_commodity(s, j) {
                Some(c) => {
                    let cur = copy_range(s, j, c);
                    proof {
                        crate::chars::lemma_chars_deep_view(cur);
                    }
                    Ok(
                        Some(
                            (
                                crate::model::IncompleteAmount {
                                    num: Some(d),
                                    currency: Some(cur),
                                },
                                c,
                            ),
                        ),
                    )
                },
                None => Ok(
                    Some(
                        (crate::model::IncompleteAmount { num: Some(d), currency: None }, n),
                    ),
                ),
            }
        },
        Ok(None) => {
            match crate::scan::scan_commodity(s, i) {
                Some(c) => {
                    let cur = copy_range(s, i, c);
                    proof {
                        crate::chars::lemma_chars_deep_view(cur);
                    }
                    Ok(
                        Some(
                            (
                                crate::model::IncompleteAmount {
                                    num: None,
                                    currency: Some(cur),
                                },
                                c,
                            ),
                        ),
                    )
                },
                None => Ok(None),
            }
        },
        Err(pe) => Err(pe),
    }
}

/// A balance amount with its optional tolerance.
pub open spec fn spec_build_amount_tolerance(s: Seq<char>, i: int) -> BuildOutV<
    (AmountV, Option<Decimal>),
> {
    match spec_eval_num_expr(s, i) {
        BuildOutV::Got(d, n) => {
            if i < n <= s.len() {
                let j = spec_skip_ws(s, n);
                if n <= j < s.len() && s[j] == '~' {
                    let k = spec_skip_ws(s, j + 1);
                    if j < k <= s.len() {
                        match spec_eval_num(s, k) {
                            BuildOutV::Got(t, te) => {
                                if k < te <= s.len() {
                                    let j2 = spec_skip_ws(s, te);
                                    if te <= j2 <= s.len() {
                                        match crate::scan::spec_scan_commodity(s, j2) {
                                            Some(c) => BuildOutV::Got(
                                                (
                                                    AmountV {
                                                        num: d,
                                                        currency: s.subrange(j2, c),
                                                    },
                                                    Some(t),
                                                ),
                                                c,
                                            ),
                                            None => BuildOutV::NoMatch,
                                        }
                                    } else {
                                        BuildOutV::NoMatch
                                    }
                                } else {
                                    BuildOutV::NoMatch
                                }
                            },
                            BuildOutV::NoMatch => BuildOutV::NoMatch,
                            BuildOutV::Fail(k2, off) => BuildOutV::Fail(k2, off),
                        }
                    } else {
                        BuildOutV::NoMatch
                    }
                } else if n <= j <= s.len() {
                    match crate::scan::spec_scan_commodity(s, j) {
                        Some(c) => BuildOutV::Got(
                            (AmountV { num: d, currency: s.subrange(j, c) }, None),
                            c,
                        ),
                        None => BuildOutV::NoMatch,
                    }
                } else {
                    BuildOutV::NoMatch
                }
            } else {
                BuildOutV::NoMatch
            }
        },
        o => match o {
            BuildOutV::Got(_, _) => BuildOutV::NoMatch,
            BuildOutV::NoMatch => BuildOutV::NoMatch,
            BuildOutV::Fail(k, off) => BuildOutV::Fail(k, off),
        },
    }
}

pub fn build_amount_tolerance(s: &Vec<char>, i: usize) -> (r: Result<
    Option<(crate::model::Amount, Option<Decimal>, usize)>,
    ParseError,
>)
    requires
        i <= s@.len(),
        s@.len() < usize::MAX,
    ensures
        match r {
            Ok(Some((a, t, e))) => spec_build_amount_tolerance(s@, i as int) == BuildOutV::Got(
                (a@, t),
                e as int,
            ) && crate::model::spec_amount_valid(a@) && crate::model::spec_opt_dec_valid(t) && i
                < e <= s@.len(),
            Ok(None) => spec_build_amount_tolerance(s@, i as int) is NoMatch,
            Err(pe) => spec_build_amount_tolerance(s@, i as int) matches BuildOutV::Fail(k, off)
                && err_matches(s@, pe@, k, off),
        },
{
    match eval_num_expr(s, i) {
        Ok(Some((d, n))) => {
            let j = skip_ws(s, n);
            if j < s.len() && s[j] == '~' {
                let k = skip_ws(s, j + 1);
                match eval_num(s, k) {
                    Ok(Some((t, te))) => {
                        let j2 = skip_ws(s, te);
                        match crate::scan::scan_commodity(s, j2) {
                            Some(c) => Ok(
                                Some(
                                    (
                                        crate::model::Amount {
                                            num: d,
                                            currency: copy_range(s, j2, c),
                                        },
                                        Some(t),
                                        c,
                                    ),
                                ),
                            ),
                            None => Ok(None),
                        }
                    },
                    Ok(None) => Ok(None),
                    Err(pe) => Err(pe),
                }
            } else {
                match crate::scan::scan_commodity(s, j) {
                    Some(c) => Ok(
                        Some(
                            (
                                crate::model::Amount {
                                    num: d,
                                    currency: copy_range(s, j, c),
                                },
                                None,
                                c,
                            ),
                        ),
                    ),
                    None => Ok(None),
                }
            }
        },
        Ok(None) => Ok(None),
        Err(pe) => Err(pe),
    }
}

// ---------------------------------------------------------------------------
// Metadata values, pairs and blocks.
// ---------------------------------------------------------------------------

/// A metadata value, by the token that stands there: quoted string, account,
/// date, boolean, tag, amount, numeric expression or commodity.
pub open spec fn spec_build_value(s: Seq<char>, i: int, roots: RootNamesV) -> BuildOutV<
    crate::model::MetaValueV,
> {
    if crate::scan::spec_scan_quoted(s, i) is Some {
        let e = crate::scan::spec_scan_quoted(s, i)->Some_0;
        BuildOutV::Got(crate::model::MetaValueV::Text(s.subrange(i + 1, e - 1)), e)
    } else {
        match spec_build_account(s, i, roots) {
            BuildOutV::Got(a, e) => BuildOutV::Got(crate::model::MetaValueV::Account(a), e),
            BuildOutV::Fail(k, off) => BuildOutV::Fail(k, off),
            BuildOutV::NoMatch => {
                if crate::scan::spec_scan_date(s, i) is Some {
                    let e = crate::scan::spec_scan_date(s, i)->Some_0;
                    BuildOutV::Got(crate::model::MetaValueV::Date(s.subrange(i, e)), e)
                } else if crate::scan::spec_scan_bool(s, i) is Some {
                    let e = crate::scan::spec_scan_bool(s, i)->Some_0;
                    BuildOutV::Got(
                        crate::model::MetaValueV::Bool(s.subrange(i, e) == "true"@),
                        e,
                    )
                } else if crate::scan::spec_scan_tag(s, i) is Some {
                    let e = crate::scan::spec_scan_tag(s, i)->Some_0;
                    BuildOutV::Got(crate::model::MetaValueV::Tag(s.subrange(i + 1, e)), e)
                } else {
                    match spec_build_amount(s, i) {
                        BuildOutV::Got(a, e) => BuildOutV::Got(
                            crate::model::MetaValueV::Amount(a),
                            e,
                        ),
                        BuildOutV::Fail(k, off) => BuildOutV::Fail(k, off),
                        BuildOutV::NoMatch => {
                            match spec_eval_num_expr(s, i) {
                                BuildOutV::Got(d, e) => BuildOutV::Got(
                                    crate::model::MetaValueV::Number(d),
                                    e,
                                ),
                                BuildOutV::Fail(k, off) => BuildOutV::Fail(k, off),
                                BuildOutV::NoMatch => {
                                    match crate::scan::spec_scan_commodity(s, i) {
                                        Some(e) => BuildOutV::Got(
                                            crate::model::MetaValueV::Currency(
                                                s.subrange(i, e),
                                            ),
                                            e,
                                        ),
                                        None => BuildOutV::NoMatch,
                                    }
                                },
                            }
                        },
                    }
                }
            },
        }
    }
}

pub fn build_value(s: &Vec<char>, i: usize, roots: &RootNames) -> (r: Result<
    Option<(crate::model::MetaValue, usize)>,
    ParseError,
>)
    requires
        i <= s@.len(),
        s@.len() < usize::MAX,
    ensures
        match r {
            Ok(Some((v, e))) => spec_build_value(s@, i as int, roots@) == BuildOutV::Got(
                v@,
                e as int,
            ) && crate::model::spec_mv_valid(v@) && i < e <= s@.len(),
            Ok(None) => spec_build_value(s@, i as int, roots@) is NoMatch,
            Err(pe) => spec_build_value(s@, i as int, roots@) matches BuildOutV::Fail(k, off)
                && err_matches(s@, pe@, k, off),
        },
{
    if let Some((q, e)) = build_quoted(s, i) {
        return Ok(Some((crate::model::MetaValue::Text(q), e)));
    }
    match build_account(s, i, roots) {
        Ok(Some((a, e))) => {
            return Ok(Some((crate::model::MetaValue::Account(a), e)));
        },
        Err(pe) => {
            return Err(pe);
        },
        Ok(None) => {},
    }
    if let Some((d, e)) = build_date(s, i) {
        return Ok(Some((crate::model::MetaValue::Date(d), e)));
    }
    if let Some(e) = crate::scan::scan_bool(s, i) {
        let tok = copy_range(s, i, e);
        let b = crate::chars::chars_eq_str(&tok, "true");
        return Ok(Some((crate::model::MetaValue::Bool(b), e)));
    }
    if let Some(e) = crate::scan::scan_tag(s, i) {
        let name = copy_range(s, i + 1, e);
        return Ok(Some((crate::model::MetaValue::Tag(name), e)));
    }
    match build_amount(s, i) {
        Ok(Some((a, e))) => {
            return Ok(Some((crate::model::MetaValue::Amount(a), e)));
        },
        Err(pe) => {
            return Err(pe);
        },
        Ok(None) => {},
    }
    match eval_num_expr(s, i) {
        Ok(Some((d, e))) => {
            return Ok(Some((crate::model::MetaValue::Number(d), e)));
        },
        Err(pe) => {
            return Err(pe);
        },
        Ok(None) => {},
    }
    match crate::scan::scan_commodity(s, i) {
        Some(e) => Ok(Some((crate::model::MetaValue::Currency(copy_range(s, i, e)), e))),
        None => Ok(None),
    }
}

/// A key, a colon, and a value.
pub open spec fn spec_build_kv(s: Seq<char>, i: int, roots: RootNamesV) -> BuildOutV<
    crate::model::MetaEntryV,
> {
    match crate::scan::spec_scan_key(s, i) {
        Some(k) => {
            if k < s.len() && s[k] == ':' {
                let j = spec_skip_ws(s, k + 1);
                if k < j <= s.len() {
                    match spec_build_value(s, j, roots) {
                        BuildOutV::Got(v, e) => BuildOutV::Got(
                            crate::model::MetaEntryV { key: s.subrange(i, k), value: v },
                            e,
                        ),
                        BuildOutV::Fail(k2, off) => BuildOutV::Fail(k2, off),
                        BuildOutV::NoMatch => BuildOutV::NoMatch,
                    }
                } else {
                    BuildOutV::NoMatch
                }
            } else {
                BuildOutV::NoMatch
            }
        },
        None => BuildOutV::NoMatch,
    }
}

pub fn build_kv(s: &Vec<char>, i: usize, roots: &RootNames) -> (r: Result<
    Option<(crate::model::MetaEntry, usize)>,
    ParseError,
>)
    requires
        i <= s@.len(),
        s@.len() < usize::MAX,
    ensures
        match r {
            Ok(Some((v, e))) => spec_build_kv(s@, i as int, roots@) == BuildOutV::Got(
                v@,
                e as int,
            ) && crate::model::spec_mv_valid(v@.value) && i < e <= s@.len(),
            Ok(None) => spec_build_kv(s@, i as int, roots@) is NoMatch,
            Err(pe) => spec_build_kv(s@, i as int, roots@) matches BuildOutV::Fail(k, off)
                && err_matches(s@, pe@, k, off),
        },
{
    match crate::scan::scan_key(s, i) {
        Some(k) => {
            if k < s.len() && s[k] == ':' {
                let j = skip_ws(s, k + 1);
                match build_value(s, j, roots) {
                    Ok(Some((v, e))) => Ok(
                        Some(
                            (
                                crate::model::MetaEntry { key: copy_range(s, i, k), value: v },
                                e,
                            ),
                        ),
                    ),
                    Ok(None) => Ok(None),
                    Err(pe) => Err(pe),
                }
            } else {
                Ok(None)
            }
        },
        None => Ok(None),
    }
}

} // verus!

// Metadata blocks, cost specifications, and postings.

verus! {

/// Prepends already-collected items to a list-building outcome.
pub open spec fn spec_prepend<T>(pre: Seq<T>, o: BuildOutV<Seq<T>>) -> BuildOutV<Seq<T>> {
    match o {
        BuildOutV::Got(r, e) => BuildOutV::Got(pre + r, e),
        x => x,
    }
}

/// One line of a metadata block: indentation, then either nothing (blank or
/// comment line) or a key/value pair, then the line end.
pub open spec fn spec_build_kv_line(s: Seq<char>, i: int, roots: RootNamesV) -> BuildOutV<
    Option<crate::model::MetaEntryV>,
> {
    if 0 <= i < s.len() && crate::chars::spec_hspace(s[i]) {
        let j = spec_skip_ws(s, i);
        if i < j <= s.len() {
            match crate::scan::spec_scan_eol(s, j) {
                Some(e) => BuildOutV::Got(None, e),
                None => {
                    match spec_build_kv(s, j, roots) {
                        BuildOutV::Got(v, k) => {
                            if j < k <= s.len() {
                                match crate::scan::spec_scan_eol(s, spec_skip_ws(s, k)) {
                                    Some(e) => BuildOutV::Got(Some(v), e),
                                    None => BuildOutV::NoMatch,
                                }
                            } else {
                                BuildOutV::NoMatch
                            }
                        },
                        BuildOutV::NoMatch => BuildOutV::NoMatch,
                        BuildOutV::Fail(k2, off) => BuildOutV::Fail(k2, off),
                    }
                },
            }
        } else {
            BuildOutV::NoMatch
        }
    } else {
        BuildOutV::NoMatch
    }
}

pub fn build_kv_line(s: &Vec<char>, i: usize, roots: &RootNames) -> (r: Result<
    Option<(Option<crate::model::MetaEntry>, usize)>,
    ParseError,
>)
    requires
        i <= s@.len(),
        s@.len() < usize::MAX,
    ensures
        match r {
            Ok(Some((v, e))) => spec_build_kv_line(s@, i as int, roots@) == BuildOutV::Got(
                v.deep_view(),
                e as int,
            ) && (v matches Some(x) ==> crate::model::spec_mv_valid(x@.value)) && i < e
                <= s@.len(),
            Ok(None) => spec_build_kv_line(s@, i as int, roots@) is NoMatch,
            Err(pe) => spec_build_kv_line(s@, i as int, roots@) matches BuildOutV::Fail(k, off)
                && err_matches(s@, pe@, k, off),
        },
{
    if i < s.len() && crate::chars::hspace(s[i]) {
        let j = skip_ws(s, i);
        if j == i {
            return Ok(None);
        }
        match crate::scan::scan_eol(s, j) {
            Some(e) => Ok(Some((None, e))),
            None => {
                match build_kv(s, j, roots) {
                    Ok(Some((v, k))) => {
                        match crate::scan::scan_eol(s, skip_ws(s, k)) {
                            Some(e) => Ok(Some((Some(v), e))),
                            None => Ok(None),
                        }
                    },
                    Ok(None) => Ok(None),
                    Err(pe) => Err(pe),
                }
            },
        }
    } else {
        Ok(None)
    }
}

/// The lines of a metadata block, as far as they reach.
pub open spec fn spec_build_kv_lines(s: Seq<char>, i: int, roots: RootNamesV) -> BuildOutV<
    Seq<crate::model::MetaEntryV>,
>
    decreases s.len() - i,
{
    match spec_build_kv_line(s, i, roots) {
        BuildOutV::Got(opt, j) => {
            if i < j <= s.len() {
                match opt {
                    Some(v) => spec_prepend(seq![v], spec_build_kv_lines(s, j, roots)),
                    None => spec_build_kv_lines(s, j, roots),
                }
            } else {
                BuildOutV::Got(Seq::empty(), i)
            }
        },
        BuildOutV::NoMatch => BuildOutV::Got(Seq::empty(), i),
        BuildOutV::Fail(k, off) => BuildOutV::Fail(k, off),
    }
}

pub fn build_kv_lines(s: &Vec<char>, i: usize, roots: &RootNames) -> (r: Result<
    (Vec<crate::model::MetaEntry>, usize),
    ParseError,
>)
    requires
        i <= s@.len(),
        s@.len() < usize::MAX,
    ensures
        match r {
            Ok((m, e)) => spec_build_kv_lines(s@, i as int, roots@) == BuildOutV::Got(
                m.deep_view(),
                e as int,
            ) && crate::model::spec_meta_valid(m.deep_view()) && i <= e <= s@.len(),
            Err(pe) => spec_build_kv_lines(s@, i as int, roots@) matches BuildOutV::Fail(k, off)
                && err_matches(s@, pe@, k, off),
        },
{
    let mut entries: Vec<crate::model::MetaEntry> = Vec::new();
    let mut pos = i;
    proof {
        crate::chars::lemma_deep_view_empty(entries);
    }
    loop
        invariant
            i <= pos <= s@.len(),
            s@.len() < usize::MAX,
            crate::model::spec_meta_valid(entries.deep_view()),
            spec_build_kv_lines(s@, i as int, roots@) == spec_prepend(
                entries.deep_view(),
                spec_build_kv_lines(s@, pos as int, roots@),
            ),
        ensures
            i <= pos <= s@.len(),
            spec_build_kv_lines(s@, i as int, roots@) == BuildOutV::Got(
                entries.deep_view(),
                pos as int,
            ),
            crate::model::spec_meta_valid(entries.deep_view()),
        decreases s@.len() - pos,
    {
        let ghost prev = entries;
        match build_kv_line(s, pos, roots)? {
            Some((opt, e)) => {
                match opt {
                    Some(v) => {
                        entries.push(v);
                        proof {
                            crate::chars::lemma_deep_view_push(entries, prev, v);
                            assert(prev.deep_view() + (seq![v@]
                                + spec_build_kv_lines_got_part(s@, e as int, roots@))
                                =~= entries.deep_view() + spec_build_kv_lines_got_part(
                                s@,
                                e as int,
                                roots@,
                            ));
                            lemma_prepend_assoc(
                                prev.deep_view(),
                                seq![v@],
                                spec_build_kv_lines(s@, e as int, roots@),
                            );
                        }
                        pos = e;
                    },
                    None => {
                        pos = e;
                    },
                }
            },
            None => {
                proof {
                    assert(entries.deep_view() + Seq::<crate::model::MetaEntryV>::empty()
                        =~= entries.deep_view());
                }
                break ;
            },
        }
    }
    Ok((entries, pos))
}

/// The `Got` payload of a list build; empty elsewhere (a helper for the
/// loop proofs).
pub open spec fn spec_build_kv_lines_got_part(s: Seq<char>, i: int, roots: RootNamesV) -> Seq<
    crate::model::MetaEntryV,
> {
    match spec_build_kv_lines(s, i, roots) {
        BuildOutV::Got(r, _) => r,
        _ => Seq::empty(),
    }
}

pub proof fn lemma_prepend_assoc<T>(a: Seq<T>, b: Seq<T>, o: BuildOutV<Seq<T>>)
    ensures
        spec_prepend(a, spec_prepend(b, o)) == spec_prepend(a + b, o),
{
    match o {
        BuildOutV::Got(r, e) => {
            assert(a + (b + r) =~= (a + b) + r);
        },
        _ => {},
    }
}

/// The metadata block after a directive: trailing whitespace and comment,
/// the line end, and the indented key/value lines.
pub open spec fn spec_build_meta(s: Seq<char>, i: int, roots: RootNamesV) -> BuildOutV<
    Seq<crate::model::MetaEntryV>,
> {
    let j = spec_skip_ws(s, i);
    if i <= j <= s.len() {
        match crate::scan::spec_scan_eol(s, j) {
            Some(e) => {
                if j <= e <= s.len() {
                    spec_build_kv_lines(s, e, roots)
                } else {
                    BuildOutV::NoMatch
                }
            },
            None => BuildOutV::NoMatch,
        }
    } else {
        BuildOutV::NoMatch
    }
}

pub fn build_meta(s: &Vec<char>, i: usize, roots: &RootNames) -> (r: Result<
    Option<(Vec<crate::model::MetaEntry>, usize)>,
    ParseError,
>)
    requires
        i <= s@.len(),
        s@.len() < usize::MAX,
    ensures
        match r {
            Ok(Some((m, e))) => spec_build_meta(s@, i as int, roots@) == BuildOutV::Got(
                m.deep_view(),
                e as int,
            ) && crate::model::spec_meta_valid(m.deep_view()) && i <= e <= s@.len(),
            Ok(None) => spec_build_meta(s@, i as int, roots@) is NoMatch,
            Err(pe) => spec_build_meta(s@, i as int, roots@) matches BuildOutV::Fail(k, off)
                && err_matches(s@, pe@, k, off),
        },
{
    let j = skip_ws(s, i);
    match crate::scan::scan_eol(s, j) {
        Some(e) => {
            match build_kv_lines(s, e, roots) {
                Ok((m, me)) => Ok(Some((m, me))),
                Err(pe) => Err(pe),
            }
        },
        None => Ok(None),
    }
}

} // verus!

// Cost specifications, price annotations, postings.

verus! {

/// The fields collected while walking the components of a cost.
pub struct CostAccV {
    pub per: Option<Decimal>,
    pub total: Option<Decimal>,
    pub currency: Option<Seq<char>>,
    pub date: Option<Seq<char>>,
    pub label: Option<Seq<char>>,
    pub merge: bool,
}

pub open spec fn spec_cost_acc_empty() -> CostAccV {
    CostAccV { per: None, total: None, currency: None, date: None, label: None, merge: false }
}

pub open spec fn spec_cost_acc_valid(a: CostAccV) -> bool {
    crate::model::spec_opt_dec_valid(a.per) && crate::model::spec_opt_dec_valid(a.total)
}

/// A compound amount inside a cost: `PER [# TOTAL] [CUR]`, `# [TOTAL]
/// [CUR]`, or a bare commodity; it replaces the accumulated numbers and
/// currency.
pub open spec fn spec_build_compound(s: Seq<char>, i: int, acc: CostAccV) -> BuildOutV<
    CostAccV,
> {
    match spec_eval_num_expr(s, i) {
        BuildOutV::Got(d, n) => {
            if i < n <= s.len() {
                let j = spec_skip_ws(s, n);
                if n <= j < s.len() && s[j] == '#' {
                    let k = spec_skip_ws(s, j + 1);
                    if j < k <= s.len() {
                        match spec_eval_num_expr(s, k) {
                            BuildOutV::Got(d2, t) => {
                                if k < t <= s.len() {
                                    spec_compound_currency(
                                        s,
                                        t,
                                        CostAccV {
                                            per: Some(d),
                                            total: Some(d2),
                                            currency: None,
                                            ..acc
                                        },
                                    )
                                } else {
                                    BuildOutV::NoMatch
                                }
                            },
                            BuildOutV::NoMatch => spec_compound_currency(
                                s,
                                j + 1,
                                CostAccV { per: Some(d), total: None, currency: None, ..acc },
                            ),
                            BuildOutV::Fail(k2, off) => BuildOutV::Fail(k2, off),
                        }
                    } else {
                        BuildOutV::NoMatch
                    }
                } else if n <= j <= s.len() {
                    spec_compound_currency(
                        s,
                        n,
                        CostAccV { per: Some(d), total: None, currency: None, ..acc },
                    )
                } else {
                    BuildOutV::NoMatch
                }
            } else {
                BuildOutV::NoMatch
            }
        },
        BuildOutV::NoMatch => {
            if 0 <= i < s.len() && s[i] == '#' {
                let k = spec_skip_ws(s, i + 1);
                if i < k <= s.len() {
                    match spec_eval_num_expr(s, k) {
                        BuildOutV::Got(d2, t) => {
                            if k < t <= s.len() {
                                spec_compound_currency(
                                    s,
                                    t,
                                    CostAccV {
                                        per: None,
                                        total: Some(d2),
                                        currency: None,
                                        ..acc
                                    },
                                )
                            } else {
                                BuildOutV::NoMatch
                            }
                        },
                        BuildOutV::NoMatch => spec_compound_currency(
                            s,
                            i + 1,
                            CostAccV { per: None, total: None, currency: None, ..acc },
                        ),
                        BuildOutV::Fail(k2, off) => BuildOutV::Fail(k2, off),
                    }
                } else {
                    BuildOutV::NoMatch
                }
            } else {
                match crate::scan::spec_scan_commodity(s, i) {
                    Some(c) => BuildOutV::Got(
                        CostAccV {
                            per: None,
                            total: None,
                            currency: Some(s.subrange(i, c)),
                            ..acc
                        },
                        c,
                    ),
                    None => BuildOutV::NoMatch,
                }
            }
        },
        BuildOutV::Fail(k, off) => BuildOutV::Fail(k, off),
    }
}

/// The optional commodity that closes a compound amount.
pub open spec fn spec_compound_currency(s: Seq<char>, p: int, acc: CostAccV) -> BuildOutV<
    CostAccV,
> {
    if 0 <= p <= s.len() {
        let j = spec_skip_ws(s, p);
        if p <= j <= s.len() {
            match crate::scan::spec_scan_commodity(s, j) {
                Some(c) => BuildOutV::Got(
                    CostAccV { currency: Some(s.subrange(j, c)), ..acc },
                    c,
                ),
                None => BuildOutV::Got(acc, p),
            }
        } else {
            BuildOutV::Got(acc, p)
        }
    } else {
        BuildOutV::Got(acc, p)
    }
}

/// One component of a cost applied to the accumulator: a date, a label, a
/// lone `*` (merge), or a compound amount.
pub open spec fn spec_build_cost_comp(s: Seq<char>, i: int, acc: CostAccV) -> BuildOutV<
    CostAccV,
> {
    if crate::scan::spec_scan_date(s, i) is Some {
        let e = crate::scan::spec_scan_date(s, i)->Some_0;
        BuildOutV::Got(CostAccV { date: Some(s.subrange(i, e)), ..acc }, e)
    } else if crate::scan::spec_scan_quoted(s, i) is Some {
        let e = crate::scan::spec_scan_quoted(s, i)->Some_0;
        BuildOutV::Got(CostAccV { label: Some(s.subrange(i + 1, e - 1)), ..acc }, e)
    } else if 0 <= i < s.len() && s[i] == '*' {
        BuildOutV::Got(CostAccV { merge: true, ..acc }, i + 1)
    } else {
        spec_build_compound(s, i, acc)
    }
}

/// Further comma-separated components applied in order.
pub open spec fn spec_build_comp_rest(s: Seq<char>, i: int, acc: CostAccV) -> BuildOutV<
    CostAccV,
>
    decreases s.len() - i,
{
    let j = spec_skip_ws(s, i);
    if i <= j < s.len() && s[j] == ',' {
        let k = spec_skip_ws(s, j + 1);
        if i < k <= s.len() {
            match spec_build_cost_comp(s, k, acc) {
                BuildOutV::Got(acc2, e) => {
                    if i < e <= s.len() {
                        spec_build_comp_rest(s, e, acc2)
                    } else {
                        BuildOutV::Got(acc, i)
                    }
                },
                BuildOutV::NoMatch => BuildOutV::Got(acc, i),
                BuildOutV::Fail(k2, off) => BuildOutV::Fail(k2, off),
            }
        } else {
            BuildOutV::Got(acc, i)
        }
    } else {
        BuildOutV::Got(acc, i)
    }
}

/// The cost a brace group denotes.  Total-cost syntax moves a lone per-unit
/// number into the total slot; giving both numbers under total-cost syntax
/// is the domain error "Per-unit cost may not be specified using total
/// cost" at the start of the group.
pub open spec fn spec_build_cost_spec(s: Seq<char>, i: int) -> BuildOutV<
    crate::model::CostSpecV,
> {
    if crate::scan::spec_match_lit(s, i, "{{"@) {
        let j = spec_skip_ws(s, i + "{{"@.len());
        if i <= j <= s.len() {
            match spec_cost_group(s, j) {
                BuildOutV::Got(acc, m) => {
                    if 0 <= m <= s.len() && crate::scan::spec_match_lit(s, m, "}}"@) {
                        if acc.total is Some {
                            BuildOutV::Fail(
                                ErrorKindV::Input(
                                    "Per-unit cost may not be specified using total cost"@,
                                ),
                                i,
                            )
                        } else {
                            BuildOutV::Got(
                                crate::model::CostSpecV {
                                    number_per: None,
                                    number_total: acc.per,
                                    currency: acc.currency,
                                    date: acc.date,
                                    label: acc.label,
                                    merge_cost: acc.merge,
                                },
                                m + "}}"@.len(),
                            )
                        }
                    } else {
                        BuildOutV::NoMatch
                    }
                },
                BuildOutV::NoMatch => BuildOutV::NoMatch,
                BuildOutV::Fail(k, off) => BuildOutV::Fail(k, off),
            }
        } else {
            BuildOutV::NoMatch
        }
    } else if 0 <= i < s.len() && s[i] == '{' {
        let j = spec_skip_ws(s, i + 1);
        if i <= j <= s.len() {
            match spec_cost_group(s, j) {
                BuildOutV::Got(acc, m) => {
                    if 0 <= m < s.len() && s[m] == '}' {
                        BuildOutV::Got(
                            crate::model::CostSpecV {
                                number_per: acc.per,
                                number_total: acc.total,
                                currency: acc.currency,
                                date: acc.date,
                                label: acc.label,
                                merge_cost: acc.merge,
                            },
                            m + 1,
                        )
                    } else {
                        BuildOutV::NoMatch
                    }
                },
                BuildOutV::NoMatch => BuildOutV::NoMatch,
                BuildOutV::Fail(k, off) => BuildOutV::Fail(k, off),
            }
        } else {
            BuildOutV::NoMatch
        }
    } else {
        BuildOutV::NoMatch
    }
}

/// The component list of a cost and the position of its closing brace.
pub open spec fn spec_cost_group(s: Seq<char>, j: int) -> BuildOutV<CostAccV> {
    match spec_build_cost_comp(s, j, spec_cost_acc_empty()) {
        BuildOutV::Got(acc, c) => {
            if j < c <= s.len() {
                match spec_build_comp_rest(s, c, acc) {
                    BuildOutV::Got(acc2, e) => {
                        if 0 <= e <= s.len() {
                            BuildOutV::Got(acc2, spec_skip_ws(s, e))
                        } else {
                            BuildOutV::NoMatch
                        }
                    },
                    BuildOutV::NoMatch => BuildOutV::NoMatch,
                    BuildOutV::Fail(k, off) => BuildOutV::Fail(k, off),
                }
            } else {
                BuildOutV::NoMatch
            }
        },
        BuildOutV::NoMatch => BuildOutV::Got(spec_cost_acc_empty(), j),
        BuildOutV::Fail(k, off) => BuildOutV::Fail(k, off),
    }
}

} // verus!

// Executable cost building.

verus! {

/// The fields collected while walking the components of a cost.
pub struct CostAcc {
    pub per: Option<Decimal>,
    pub total: Option<Decimal>,
    pub currency: Option<Vec<char>>,
    pub date: Option<crate::model::Date>,
    pub label: Option<Vec<char>>,
    pub merge: bool,
}

impl View for CostAcc {
    type V = CostAccV;

    open spec fn view(&self) -> CostAccV {
        CostAccV {
            per: self.per,
            total: self.total,
            currency: self.currency.deep_view(),
            date: self.date.deep_view(),
            label: self.label.deep_view(),
            merge: self.merge,
        }
    }
}

pub fn compound_currency(s: &Vec<char>, p: usize, acc: CostAcc) -> (r: (CostAcc, usize))
    requires
        p <= s@.len(),
        s@.len() < usize::MAX,
    ensures
        spec_compound_currency(s@, p as int, acc@) == BuildOutV::Got(r.0@, r.1 as int),
        p <= r.1 <= s@.len(),
        r.0@.per == acc@.per,
        r.0@.total == acc@.total,
        r.0@.date == acc@.date,
        r.0@.label == acc@.label,
        r.0@.merge == acc@.merge,
    decreases 0int,
{
    let j = skip_ws(s, p);
    match crate::scan::scan_commodity(s, j) {
        Some(c) => {
            let cur = copy_range(s, j, c);
            proof {
                crate::chars::lemma_chars_deep_view(cur);
            }
            (CostAcc { currency: Some(cur), ..acc }, c)
        },
        None => (acc, p),
    }
}

/// A component attempt: either no match (handing the accumulator back) or
/// the updated accumulator and end position.
pub enum CompOut {
    Miss(CostAcc),
    Got(CostAcc, usize),
}

pub fn build_compound(s: &Vec<char>, i: usize, acc: CostAcc) -> (r: Result<CompOut, ParseError>)
    requires
        i <= s@.len(),
        s@.len() < usize::MAX,
        spec_cost_acc_valid(acc@),
    ensures
        match r {
            Ok(CompOut::Got(a, e)) => spec_build_compound(s@, i as int, acc@) == BuildOutV::Got(
                a@,
                e as int,
            ) && spec_cost_acc_valid(a@) && i < e <= s@.len(),
            Ok(CompOut::Miss(a)) => spec_build_compound(s@, i as int, acc@) is NoMatch && a@
                == acc@,
            Err(pe) => spec_build_compound(s@, i as int, acc@) matches BuildOutV::Fail(k, off)
                && err_matches(s@, pe@, k, off),
        },
{
    match eval_num_expr(s, i) {
        Ok(Some((d, n))) => {
            let j = skip_ws(s, n);
            if j < s.len() && s[j] == '#' {
                let k = skip_ws(s, j + 1);
                match eval_num_expr(s, k) {
                    Ok(Some((d2, t))) => {
                        let (a, e) = compound_currency(
                            s,
                            t,
                            CostAcc { per: Some(d), total: Some(d2), currency: None, ..acc },
                        );
                        Ok(CompOut::Got(a, e))
                    },
                    Ok(None) => {
                        let (a, e) = compound_currency(
                            s,
                            j + 1,
                            CostAcc { per: Some(d), total: None, currency: None, ..acc },
                        );
                        Ok(CompOut::Got(a, e))
                    },
                    Err(pe) => Err(pe),
                }
            } else {
                let (a, e) = compound_currency(
                    s,
                    n,
                    CostAcc { per: Some(d), total: None, currency: None, ..acc },
                );
                Ok(CompOut::Got(a, e))
            }
        },
        Ok(None) => {
            if i < s.len() && s[i] == '#' {
                let k = skip_ws(s, i + 1);
                match eval_num_expr(s, k) {
                    Ok(Some((d2, t))) => {
                        let (a, e) = compound_currency(
                            s,
                            t,
                            CostAcc { per: None, total: Some(d2), currency: None, ..acc },
                        );
                        Ok(CompOut::Got(a, e))
                    },
                    Ok(None) => {
                        let (a, e) = compound_currency(
                            s,
                            i + 1,
                            CostAcc { per: None, total: None, currency: None, ..acc },
                        );
                        Ok(CompOut::Got(a, e))
                    },
                    Err(pe) => Err(pe),
                }
            } else {
                match crate::scan::scan_commodity(s, i) {
                    Some(c) => {
                        let cur = copy_range(s, i, c);
                        proof {
                            crate::chars::lemma_chars_deep_view(cur);
                        }
                        Ok(
                            CompOut::Got(
                                CostAcc {
                                    per: None,
                                    total: None,
                                    currency: Some(cur),
                                    ..acc
                                },
                                c,
                            ),
                        )
                    },
                    None => Ok(CompOut::Miss(acc)),
                }
            }
        },
        Err(pe) => Err(pe),
    }
}

pub fn build_cost_comp(s: &Vec<char>, i: usize, acc: CostAcc) -> (r: Result<CompOut, ParseError>)
    requires
        i <= s@.len(),
        s@.len() < usize::MAX,
        spec_cost_acc_valid(acc@),
    ensures
        match r {
            Ok(CompOut::Got(a, e)) => spec_build_cost_comp(s@, i as int, acc@) == BuildOutV::Got(
                a@,
                e as int,
            ) && spec_cost_acc_valid(a@) && i < e <= s@.len(),
            Ok(CompOut::Miss(a)) => spec_build_cost_comp(s@, i as int, acc@) is NoMatch && a@
                == acc@,
            Err(pe) => spec_build_cost_comp(s@, i as int, acc@) matches BuildOutV::Fail(k, off)
                && err_matches(s@, pe@, k, off),
        },
{
    if let Some((d, e)) = build_date(s, i) {
        proof {
            crate::chars::lemma_chars_deep_view(d.text);
        }
        return Ok(CompOut::Got(CostAcc { date: Some(d), ..acc }, e));
    }
    if let Some((q, e)) = build_quoted(s, i) {
        proof {
            crate::chars::lemma_chars_deep_view(q);
        }
        return Ok(CompOut::Got(CostAcc { label: Some(q), ..acc }, e));
    }
    if i < s.len() && s[i] == '*' {
        return Ok(CompOut::Got(CostAcc { merge: true, ..acc }, i + 1));
    }
    build_compound(s, i, acc)
}

pub fn build_comp_rest(s: &Vec<char>, i: usize, acc0: CostAcc) -> (r: Result<
    (CostAcc, usize),
    ParseError,
>)
    requires
        i <= s@.len(),
        s@.len() < usize::MAX,
        spec_cost_acc_valid(acc0@),
    ensures
        match r {
            Ok((a, e)) => spec_build_comp_rest(s@, i as int, acc0@) == BuildOutV::Got(
                a@,
                e as int,
            ) && spec_cost_acc_valid(a@) && i <= e <= s@.len(),
            Err(pe) => spec_build_comp_rest(s@, i as int, acc0@) matches BuildOutV::Fail(k, off)
                && err_matches(s@, pe@, k, off),
        },
{
    let mut pos = i;
    let mut acc = acc0;
    loop
        invariant
            i <= pos <= s@.len(),
            s@.len() < usize::MAX,
            spec_cost_acc_valid(acc@),
            spec_build_comp_rest(s@, i as int, acc0@) == spec_build_comp_rest(
                s@,
                pos as int,
                acc@,
            ),
        decreases s@.len() - pos,
    {
        let j = skip_ws(s, pos);
        if j < s.len() && s[j] == ',' {
            let k = skip_ws(s, j + 1);
            match build_cost_comp(s, k, acc) {
                Ok(CompOut::Got(a2, e)) => {
                    acc = a2;
                    pos = e;
                },
                Ok(CompOut::Miss(a2)) => {
                    return Ok((a2, pos));
                },
                Err(pe) => {
                    return Err(pe);
                },
            }
        } else {
            return Ok((acc, pos));
        }
    }
}

} // verus!

// The cost spec itself, price annotations, and postings.

verus! {

pub fn build_cost_group(s: &Vec<char>, j: usize) -> (r: Result<
    Option<(CostAcc, usize)>,
    ParseError,
>)
    requires
        j <= s@.len(),
        s@.len() < usize::MAX,
    ensures
        match r {
            Ok(Some((a, m))) => spec_cost_group(s@, j as int) == BuildOutV::Got(a@, m as int)
                && spec_cost_acc_valid(a@) && j <= m <= s@.len(),
            Ok(None) => spec_cost_group(s@, j as int) is NoMatch,
            Err(pe) => spec_cost_group(s@, j as int) matches BuildOutV::Fail(k, off)
                && err_matches(s@, pe@, k, off),
        },
{
    let acc0 = CostAcc {
        per: None,
        total: None,
        currency: None,
        date: None,
        label: None,
        merge: false,
    };
    match build_cost_comp(s, j, acc0) {
        Ok(CompOut::Got(acc, c)) => {
            match build_comp_rest(s, c, acc) {
                Ok((acc2, e)) => Ok(Some((acc2, skip_ws(s, e)))),
                Err(pe) => Err(pe),
            }
        },
        Ok(CompOut::Miss(acc)) => Ok(Some((acc, j))),
        Err(pe) => Err(pe),
    }
}

pub fn build_cost_spec(s: &Vec<char>, i: usize) -> (r: Result<
    Option<(crate::model::CostSpec, usize)>,
    ParseError,
>)
    requires
        i <= s@.len(),
        s@.len() < usize::MAX,
    ensures
        match r {
            Ok(Some((c, e))) => spec_build_cost_spec(s@, i as int) == BuildOutV::Got(
                c@,
                e as int,
            ) && crate::model::spec_cost_valid(c@) && i < e <= s@.len(),
            Ok(None) => spec_build_cost_spec(s@, i as int) is NoMatch,
            Err(pe) => spec_build_cost_spec(s@, i as int) matches BuildOutV::Fail(k, off)
                && err_matches(s@, pe@, k, off),
        },
{
    proof {
        reveal_strlit("{{");
        reveal_strlit("}}");
    }
    let n = s.len();
    if crate::scan::match_lit(s, i, "{{") {
        let j = skip_ws(s, i + 2);
        match build_cost_group(s, j) {
            Ok(Some((acc, m))) => {
                if crate::scan::match_lit(s, m, "}}") {
                    if acc.total.is_some() {
                        Err(
                            err_input_at(
                                s,
                                i,
                                "Per-unit cost may not be specified using total cost",
                            ),
                        )
                    } else {
                        let c = crate::model::CostSpec {
                            number_per: None,
                            number_total: acc.per,
                            currency: acc.currency,
                            date: acc.date,
                            label: acc.label,
                            merge_cost: acc.merge,
                        };
                        Ok(Some((c, m + 2)))
                    }
                } else {
                    Ok(None)
                }
            },
            Ok(None) => Ok(None),
            Err(pe) => Err(pe),
        }
    } else if i < s.len() && s[i] == '{' {
        let j = skip_ws(s, i + 1);
        match build_cost_group(s, j) {
            Ok(Some((acc, m))) => {
                if m < s.len() && s[m] == '}' {
                    let c = crate::model::CostSpec {
                        number_per: acc.per,
                        number_total: acc.total,
                        currency: acc.currency,
                        date: acc.date,
                        label: acc.label,
                        merge_cost: acc.merge,
                    };
                    Ok(Some((c, m + 1)))
                } else {
                    Ok(None)
                }
            },
            Ok(None) => Ok(None),
            Err(pe) => Err(pe),
        }
    } else {
        Ok(None)
    }
}

/// A price annotation: `@@` (total) or `@` (per-unit), then an amount whose
/// parts may be elided.
pub open spec fn spec_build_price(s: Seq<char>, i: int) -> BuildOutV<
    crate::model::PriceSpecV,
> {
    if crate::scan::spec_match_lit(s, i, "@@"@) {
        let j = spec_skip_ws(s, i + "@@"@.len());
        if i <= j <= s.len() {
            match spec_build_incomplete(s, j) {
                BuildOutV::Got(a, e) => BuildOutV::Got(
                    crate::model::PriceSpecV::Total(a),
                    e,
                ),
                BuildOutV::NoMatch => BuildOutV::NoMatch,
                BuildOutV::Fail(k, off) => BuildOutV::Fail(k, off),
            }
        } else {
            BuildOutV::NoMatch
        }
    } else if 0 <= i < s.len() && s[i] == '@' {
        let j = spec_skip_ws(s, i + 1);
        if i <= j <= s.len() {
            match spec_build_incomplete(s, j) {
                BuildOutV::Got(a, e) => BuildOutV::Got(
                    crate::model::PriceSpecV::PerUnit(a),
                    e,
                ),
                BuildOutV::NoMatch => BuildOutV::NoMatch,
                BuildOutV::Fail(k, off) => BuildOutV::Fail(k, off),
            }
        } else {
            BuildOutV::NoMatch
        }
    } else {
        BuildOutV::NoMatch
    }
}

pub fn build_price(s: &Vec<char>, i: usize) -> (r: Result<
    Option<(crate::model::PriceSpec, usize)>,
    ParseError,
>)
    requires
        i <= s@.len(),
        s@.len() < usize::MAX,
    ensures
        match r {
            Ok(Some((p, e))) => spec_build_price(s@, i as int) == BuildOutV::Got(p@, e as int)
                && crate::model::spec_price_valid(p@) && i < e <= s@.len(),
            Ok(None) => spec_build_price(s@, i as int) is NoMatch,
            Err(pe) => spec_build_price(s@, i as int) matches BuildOutV::Fail(k, off)
                && err_matches(s@, pe@, k, off),
        },
{
    proof {
        reveal_strlit("@@");
    }
    if crate::scan::match_lit(s, i, "@@") {
        let j = skip_ws(s, i + 2);
        match build_incomplete(s, j) {
            Ok(Some((a, e))) => Ok(Some((crate::model::PriceSpec::Total(a), e))),
            Ok(None) => Ok(None),
            Err(pe) => Err(pe),
        }
    } else if i < s.len() && s[i] == '@' {
        let j = skip_ws(s, i + 1);
        match build_incomplete(s, j) {
            Ok(Some((a, e))) => Ok(Some((crate::model::PriceSpec::PerUnit(a), e))),
            Ok(None) => Ok(None),
            Err(pe) => Err(pe),
        }
    } else {
        Ok(None)
    }
}

/// A posting: an optional flag, an account, and optional units, cost and
/// price annotation; its metadata starts empty.
pub open spec fn spec_build_posting(s: Seq<char>, i: int, roots: RootNamesV) -> BuildOutV<
    crate::model::PostingV,
> {
    let has_flag = match crate::scan::spec_scan_flag(s, i) {
        Some(f) => i < f < s.len() && crate::chars::spec_hspace(s[f]),
        None => false,
    };
    let a0 = if has_flag {
        spec_skip_ws(s, crate::scan::spec_scan_flag(s, i)->Some_0)
    } else {
        i
    };
    let flagv = if has_flag {
        Some(crate::model::spec_flag_of(s.subrange(i, crate::scan::spec_scan_flag(s, i)->Some_0)))
    } else {
        None
    };
    if i <= a0 <= s.len() {
        match spec_build_account(s, a0, roots) {
            BuildOutV::Got(a, ae) => {
                if a0 < ae <= s.len() {
                    let u = spec_build_incomplete(s, spec_skip_ws(s, ae));
                    match u {
                        BuildOutV::Fail(k, off) => BuildOutV::Fail(k, off),
                        _ => {
                            let units = match u {
                                BuildOutV::Got(x, _) => x,
                                _ => crate::model::IncompleteAmountV {
                                    num: None,
                                    currency: None,
                                },
                            };
                            let p1 = match u {
                                BuildOutV::Got(x, ue) => if ae < ue <= s.len() {
                                    ue
                                } else {
                                    ae
                                },
                                _ => ae,
                            };
                            let co = spec_build_cost_spec(s, spec_skip_ws(s, p1));
                            match co {
                                BuildOutV::Fail(k, off) => BuildOutV::Fail(k, off),
                                _ => {
                                    let cost = match co {
                                        BuildOutV::Got(x, _) => Some(x),
                                        _ => None,
                                    };
                                    let p2 = match co {
                                        BuildOutV::Got(x, ce) => if p1 < ce <= s.len() {
                                            ce
                                        } else {
                                            p1
                                        },
                                        _ => p1,
                                    };
                                    let pr = spec_build_price(s, spec_skip_ws(s, p2));
                                    match pr {
                                        BuildOutV::Fail(k, off) => BuildOutV::Fail(k, off),
                                        _ => {
                                            let price = match pr {
                                                BuildOutV::Got(x, _) => Some(x),
                                                _ => None,
                                            };
                                            let p3 = match pr {
                                                BuildOutV::Got(x, pe) => if p2 < pe
                                                    <= s.len() {
                                                    pe
                                                } else {
                                                    p2
                                                },
                                                _ => p2,
                                            };
                                            BuildOutV::Got(
                                                crate::model::PostingV {
                                                    flag: flagv,
                                                    account: a,
                                                    units,
                                                    cost,
                                                    price,
                                                    meta: Seq::empty(),
                                                },
                                                p3,
                                            )
                                        },
                                    }
                                },
                            }
                        },
                    }
                } else {
                    BuildOutV::NoMatch
                }
            },
            BuildOutV::NoMatch => BuildOutV::NoMatch,
            BuildOutV::Fail(k, off) => BuildOutV::Fail(k, off),
        }
    } else {
        BuildOutV::NoMatch
    }
}

pub fn build_posting(s: &Vec<char>, i: usize, roots: &RootNames) -> (r: Result<
    Option<(crate::model::Posting, usize)>,
    ParseError,
>)
    requires
        i <= s@.len(),
        s@.len() < usize::MAX,
    ensures
        match r {
            Ok(Some((p, e))) => spec_build_posting(s@, i as int, roots@) == BuildOutV::Got(
                p@,
                e as int,
            ) && crate::model::spec_posting_valid(p@) && i < e <= s@.len(),
            Ok(None) => spec_build_posting(s@, i as int, roots@) is NoMatch,
            Err(pe) => spec_build_posting(s@, i as int, roots@) matches BuildOutV::Fail(k, off)
                && err_matches(s@, pe@, k, off),
        },
{
    let mut flag: Option<crate::model::Flag> = None;
    let mut a0 = i;
    match crate::scan::scan_flag(s, i) {
        Some(f) => {
            if f < s.len() && crate::chars::hspace(s[f]) {
                let tok = copy_range(s, i, f);
                flag = Some(crate::model::Flag::from_token(tok));
                a0 = skip_ws(s, f);
            }
        },
        None => {},
    }
    match build_account(s, a0, roots) {
        Ok(Some((a, ae))) => {
            let mut units = crate::model::IncompleteAmount { num: None, currency: None };
            let mut p1 = ae;
            match build_incomplete(s, skip_ws(s, ae)) {
                Ok(Some((u, ue))) => {
                    units = u;
                    p1 = ue;
                },
                Ok(None) => {},
                Err(pe) => {
                    return Err(pe);
                },
            }
            let mut cost: Option<crate::model::CostSpec> = None;
            let mut p2 = p1;
            match build_cost_spec(s, skip_ws(s, p1)) {
                Ok(Some((c, ce))) => {
                    cost = Some(c);
                    p2 = ce;
                },
                Ok(None) => {},
                Err(pe) => {
                    return Err(pe);
                },
            }
            let mut price: Option<crate::model::PriceSpec> = None;
            let mut p3 = p2;
            match build_price(s, skip_ws(s, p2)) {
                Ok(Some((p, pe_))) => {
                    price = Some(p);
                    p3 = pe_;
                },
                Ok(None) => {},
                Err(pe) => {
                    return Err(pe);
                },
            }
            let posting = crate::model::Posting {
                flag,
                account: a,
                units,
                cost,
                price,
                meta: Vec::new(),
            };
            proof {
                crate::chars::lemma_deep_view_empty(posting.meta);
            }
            Ok(Some((posting, p3)))
        },
        Ok(None) => Ok(None),
        Err(pe) => Err(pe),
    }
}

} // verus!

// Transactions: header strings, tags and links, and the body fold.

verus! {

/// Whether `t` is among the strings of `ss`.
pub open spec fn spec_contains_str(ss: Seq<Seq<char>>, t: Seq<char>) -> bool {
    exists|m: int| 0 <= m < ss.len() && ss[m] == t
}

/// Adds a string to a set kept as an insertion-ordered sequence.
pub open spec fn spec_add_str(ss: Seq<Seq<char>>, t: Seq<char>) -> Seq<Seq<char>> {
    if spec_contains_str(ss, t) {
        ss
    } else {
        ss.push(t)
    }
}

/// Whether a tag set already holds `t`.
pub fn contains_chars(v: &Vec<Vec<char>>, t: &Vec<char>) -> (r: bool)
    ensures
        r == spec_contains_str(v.deep_view(), t@),
{
    let mut k: usize = 0;
    while k < v.len()
        invariant
            k <= v@.len(),
            forall|m: int| 0 <= m < k ==> (#[trigger] v@[m])@ != t@,
        decreases v@.len() - k,
    {
        if crate::chars::eq_chars(&v[k], t) {
            proof {
                assert(v.deep_view()[k as int] == v@[k as int]@);
            }
            return true;
        }
        k = k + 1;
    }
    proof {
        assert forall|m: int| 0 <= m < v.deep_view().len() implies v.deep_view()[m] != t@ by {
            assert(v.deep_view()[m] == v@[m]@);
        }
    }
    false
}

/// Adds a string to a tag or link set, keeping first occurrences only.
pub fn add_str(v: &mut Vec<Vec<char>>, t: Vec<char>)
    ensures
        final(v).deep_view() == spec_add_str(old(v).deep_view(), t@),
{
    let ghost prev = *v;
    if !contains_chars(v, &t) {
        v.push(t);
        proof {
            crate::chars::lemma_deep_view_push(*v, prev, t);
            crate::chars::lemma_chars_deep_view(t);
        }
    }
}

/// The header's tags and links, folded in order.
pub open spec fn spec_header_tl(
    s: Seq<char>,
    i: int,
    tags: Seq<Seq<char>>,
    links: Seq<Seq<char>>,
) -> (Seq<Seq<char>>, Seq<Seq<char>>, int)
    decreases s.len() - i,
{
    let j = spec_skip_ws(s, i);
    if i <= j <= s.len() {
        match crate::scan::spec_scan_tag(s, j) {
            Some(e) => {
                if i < e <= s.len() {
                    spec_header_tl(s, e, spec_add_str(tags, s.subrange(j + 1, e)), links)
                } else {
                    (tags, links, i)
                }
            },
            None => {
                match crate::scan::spec_scan_link(s, j) {
                    Some(e) => {
                        if i < e <= s.len() {
                            spec_header_tl(
                                s,
                                e,
                                tags,
                                spec_add_str(links, s.subrange(j + 1, e)),
                            )
                        } else {
                            (tags, links, i)
                        }
                    },
                    None => (tags, links, i),
                }
            },
        }
    } else {
        (tags, links, i)
    }
}

/// Collects the header's tags and links.
pub fn header_tl(s: &Vec<char>, i: usize, tags: &mut Vec<Vec<char>>, links: &mut Vec<Vec<char>>)
    -> (e: usize)
    requires
        i <= s@.len(),
    ensures
        (final(tags).deep_view(), final(links).deep_view(), e as int) == spec_header_tl(
            s@,
            i as int,
            old(tags).deep_view(),
            old(links).deep_view(),
        ),
        i <= e <= s@.len(),
{
    let mut pos = i;
    loop
        invariant
            i <= pos <= s@.len(),
            spec_header_tl(s@, i as int, old(tags).deep_view(), old(links).deep_view())
                == spec_header_tl(s@, pos as int, tags.deep_view(), links.deep_view()),
        decreases s@.len() - pos,
    {
        let j = skip_ws(s, pos);
        match crate::scan::scan_tag(s, j) {
            Some(e) => {
                let name = copy_range(s, j + 1, e);
                add_str(tags, name);
                pos = e;
            },
            None => {
                match crate::scan::scan_link(s, j) {
                    Some(e) => {
                        let name = copy_range(s, j + 1, e);
                        add_str(links, name);
                        pos = e;
                    },
                    None => {
                        return pos;
                    },
                }
            },
        }
    }
}

} // verus!

// The transaction body fold and the transaction builder.

verus! {

/// One item of a transaction body.
pub enum BodyItemV {
    P(crate::model::PostingV),
    KV(crate::model::MetaEntryV),
    T(Seq<char>),
    L(Seq<char>),
}

/// What a transaction body has collected: postings, the transaction's own
/// metadata, and its tag and link sets.
pub struct BodyAccV {
    pub postings: Seq<crate::model::PostingV>,
    pub meta: Seq<crate::model::MetaEntryV>,
    pub tags: Seq<Seq<char>>,
    pub links: Seq<Seq<char>>,
}

/// Applies one body item: a posting is appended; a key/value pair attaches
/// to the last posting seen, or to the transaction when none has been; tags
/// and links join their sets.
pub open spec fn spec_body_apply(acc: BodyAccV, item: BodyItemV) -> BodyAccV {
    match item {
        BodyItemV::P(p) => BodyAccV { postings: acc.postings.push(p), ..acc },
        BodyItemV::KV(v) => {
            if acc.postings.len() > 0 {
                let last = acc.postings.len() - 1;
                let p = acc.postings[last];
                BodyAccV {
                    postings: acc.postings.update(
                        last,
                        crate::model::PostingV { meta: p.meta.push(v), ..p },
                    ),
                    ..acc
                }
            } else {
                BodyAccV { meta: acc.meta.push(v), ..acc }
            }
        },
        BodyItemV::T(t) => BodyAccV { tags: spec_add_str(acc.tags, t), ..acc },
        BodyItemV::L(l) => BodyAccV { links: spec_add_str(acc.links, l), ..acc },
    }
}

/// Closes a body line after its item: optional whitespace and comment, then
/// the line end.
pub open spec fn spec_line_close(s: Seq<char>, k: int, item: BodyItemV) -> BuildOutV<
    Option<BodyItemV>,
> {
    let j = spec_skip_ws(s, k);
    if k <= j <= s.len() {
        match crate::scan::spec_scan_eol(s, j) {
            Some(e) => BuildOutV::Got(Some(item), e),
            None => BuildOutV::Fail(ErrorKindV::Input("expected end of line"@), j),
        }
    } else {
        BuildOutV::NoMatch
    }
}

/// One line of a transaction body.
#[verifier::opaque]
pub open spec fn spec_build_body_line(s: Seq<char>, i: int, roots: RootNamesV) -> BuildOutV<
    Option<BodyItemV>,
> {
    if 0 <= i < s.len() && crate::chars::spec_hspace(s[i]) {
        let j = spec_skip_ws(s, i);
        if i < j <= s.len() {
            match crate::scan::spec_scan_eol(s, j) {
                Some(e) => BuildOutV::Got(None, e),
                None => {
                    match spec_build_posting(s, j, roots) {
                        BuildOutV::Got(p, k) => {
                            if j < k <= s.len() {
                                spec_line_close(s, k, BodyItemV::P(p))
                            } else {
                                BuildOutV::NoMatch
                            }
                        },
                        BuildOutV::Fail(k2, off) => BuildOutV::Fail(k2, off),
                        BuildOutV::NoMatch => {
                            match spec_build_kv(s, j, roots) {
                                BuildOutV::Got(v, k) => {
                                    if j < k <= s.len() {
                                        spec_line_close(s, k, BodyItemV::KV(v))
                                    } else {
                                        BuildOutV::NoMatch
                                    }
                                },
                                BuildOutV::Fail(k2, off) => BuildOutV::Fail(k2, off),
                                BuildOutV::NoMatch => {
                                    match crate::scan::spec_scan_tag(s, j) {
                                        Some(e2) => {
                                            if j < e2 <= s.len() {
                                                spec_line_close(
                                                    s,
                                                    e2,
                                                    BodyItemV::T(s.subrange(j + 1, e2)),
                                                )
                                            } else {
                                                BuildOutV::NoMatch
                                            }
                                        },
                                        None => {
                                            match crate::scan::spec_scan_link(s, j) {
                                                Some(e2) => {
                                                    if j < e2 <= s.len() {
                                                        spec_line_close(
                                                            s,
                                                            e2,
                                                            BodyItemV::L(
                                                                s.subrange(j + 1, e2),
                                                            ),
                                                        )
                                                    } else {
                                                        BuildOutV::NoMatch
                                                    }
                                                },
                                                None => BuildOutV::Fail(
                                                    ErrorKindV::Input(
                                                        "expected posting or metadata"@,
                                                    ),
                                                    j,
                                                ),
                                            }
                                        },
                                    }
                                },
                            }
                        },
                    }
                },
            }
        } else {
            BuildOutV::NoMatch
        }
    } else {
        BuildOutV::NoMatch
    }
}

/// The body fold: lines applied to the accumulator, as far as they reach.
pub open spec fn spec_build_body(s: Seq<char>, i: int, roots: RootNamesV, acc: BodyAccV)
    -> BuildOutV<BodyAccV>
    decreases s.len() - i,
{
    match spec_build_body_line(s, i, roots) {
        BuildOutV::Got(opt, j) => {
            if i < j <= s.len() {
                match opt {
                    Some(item) => spec_build_body(s, j, roots, spec_body_apply(acc, item)),
                    None => spec_build_body(s, j, roots, acc),
                }
            } else {
                BuildOutV::Got(acc, i)
            }
        },
        BuildOutV::NoMatch => BuildOutV::Got(acc, i),
        BuildOutV::Fail(k, off) => BuildOutV::Fail(k, off),
    }
}

/// Joins the pushed tags into a tag set, in stack order.
pub open spec fn spec_union_keys(tags: Seq<Seq<char>>, keys: Seq<Seq<char>>) -> Seq<Seq<char>>
    decreases keys.len(),
{
    if keys.len() == 0 {
        tags
    } else {
        spec_union_keys(spec_add_str(tags, keys[0]), keys.skip(1))
    }
}

/// A transaction under the current state: header, body fold, and the union
/// of the pushed tags into the tag set.
#[verifier::opaque]
pub open spec fn spec_build_transaction(
    s: Seq<char>,
    i: int,
    roots: RootNamesV,
    keys: Seq<Seq<char>>,
) -> BuildOutV<crate::directives::TransactionV> {
    match crate::scan::spec_scan_date(s, i) {
        Some(d) => {
            if i < d <= s.len() {
                let fj = spec_skip_ws(s, d);
                if d <= fj <= s.len() {
                    match crate::scan::spec_scan_flag(s, fj) {
                        Some(f) => {
                            if fj < f <= s.len() {
                                spec_build_txn_tail(s, i, d, fj, f, roots, keys)
                            } else {
                                BuildOutV::NoMatch
                            }
                        },
                        None => BuildOutV::NoMatch,
                    }
                } else {
                    BuildOutV::NoMatch
                }
            } else {
                BuildOutV::NoMatch
            }
        },
        None => BuildOutV::NoMatch,
    }
}

/// The committed part of a transaction, after its date and flag.
pub open spec fn spec_build_txn_tail(
    s: Seq<char>,
    i: int,
    d: int,
    fj: int,
    f: int,
    roots: RootNamesV,
    keys: Seq<Seq<char>>,
) -> BuildOutV<crate::directives::TransactionV> {
    let flagv = crate::model::spec_flag_of(s.subrange(fj, f));
    let sj = spec_skip_ws(s, f);
    if f <= sj <= s.len() {
        match crate::scan::spec_scan_quoted(s, sj) {
            None => BuildOutV::Fail(
                ErrorKindV::Input("expected payee and narration strings"@),
                sj,
            ),
            Some(q1) => {
                if sj < q1 <= s.len() {
                    let first = s.subrange(sj + 1, q1 - 1);
                    let pj = spec_skip_ws(s, q1);
                    let second: Option<(Seq<char>, int)> = if q1 <= pj < s.len() && s[pj]
                        == '|' {
                        let k = spec_skip_ws(s, pj + 1);
                        if pj < k <= s.len() {
                            match crate::scan::spec_scan_quoted(s, k) {
                                Some(q2) => if k < q2 <= s.len() {
                                    Some((s.subrange(k + 1, q2 - 1), q2))
                                } else {
                                    None
                                },
                                None => None,
                            }
                        } else {
                            None
                        }
                    } else if q1 <= pj <= s.len() {
                        match crate::scan::spec_scan_quoted(s, pj) {
                            Some(q2) => if pj < q2 <= s.len() {
                                Some((s.subrange(pj + 1, q2 - 1), q2))
                            } else {
                                None
                            },
                            None => None,
                        }
                    } else {
                        None
                    };
                    let payee: Option<Seq<char>> = if second is Some {
                        Some(first)
                    } else {
                        None
                    };
                    let narration: Seq<char> = match second {
                        Some(p) => p.0,
                        None => first,
                    };
                    let hend: int = match second {
                        Some(p) => p.1,
                        None => q1,
                    };
                    let tl = spec_header_tl(s, hend, Seq::empty(), Seq::empty());
                    let bj = spec_skip_ws(s, tl.2);
                    if hend <= tl.2 <= s.len() && tl.2 <= bj <= s.len() {
                        match crate::scan::spec_scan_eol(s, bj) {
                            None => BuildOutV::Fail(
                                ErrorKindV::Input("expected end of line"@),
                                bj,
                            ),
                            Some(e) => {
                                if bj <= e <= s.len() {
                                    let acc0 = BodyAccV {
                                        postings: Seq::empty(),
                                        meta: Seq::empty(),
                                        tags: tl.0,
                                        links: tl.1,
                                    };
                                    match spec_build_body(s, e, roots, acc0) {
                                        BuildOutV::Got(acc, bend) => BuildOutV::Got(
                                            crate::directives::TransactionV {
                                                date: s.subrange(i, d),
                                                flag: flagv,
                                                payee,
                                                narration,
                                                tags: spec_union_keys(acc.tags, keys),
                                                links: acc.links,
                                                postings: acc.postings,
                                                meta: acc.meta,
                                                source: Some(s.subrange(i, bend)),
                                            },
                                            bend,
                                        ),
                                        BuildOutV::NoMatch => BuildOutV::NoMatch,
                                        BuildOutV::Fail(k2, off) => BuildOutV::Fail(k2, off),
                                    }
                                } else {
                                    BuildOutV::NoMatch
                                }
                            },
                        }
                    } else {
                        BuildOutV::NoMatch
                    }
                } else {
                    BuildOutV::NoMatch
                }
            },
        }
    } else {
        BuildOutV::NoMatch
    }
}

} // verus!

// Executable transaction building.

verus! {

/// Joins the pushed tags into a tag set.
pub fn union_keys(tags: &mut Vec<Vec<char>>, keys: &Vec<Vec<char>>)
    ensures
        final(tags).deep_view() == spec_union_keys(old(tags).deep_view(), keys.deep_view()),
{
    let mut m: usize = 0;
    proof {
        assert(keys.deep_view().skip(0) =~= keys.deep_view());
    }
    while m < keys.len()
        invariant
            m <= keys@.len(),
            keys.deep_view().len() == keys@.len(),
            spec_union_keys(old(tags).deep_view(), keys.deep_view()) == spec_union_keys(
                tags.deep_view(),
                keys.deep_view().skip(m as int),
            ),
        decreases keys@.len() - m,
    {
        proof {
            crate::chars::lemma_chars_deep_view(keys@[m as int]);
            assert(keys.deep_view()[m as int] == keys@[m as int]@);
            assert(keys.deep_view().skip(m as int)[0] == keys.deep_view()[m as int]);
            assert(keys.deep_view().skip(m as int).skip(1) =~= keys.deep_view().skip(m + 1));
        }
        let name = crate::scan::clone_chars(&keys[m]);
        add_str(tags, name);
        m = m + 1;
    }
    proof {
        assert(keys.deep_view().skip(keys@.len() as int) =~= Seq::<Seq<char>>::empty());
    }
}

/// The view of the body accumulator held in four vectors.
pub open spec fn spec_body_acc(
    postings: Vec<crate::model::Posting>,
    meta: Vec<crate::model::MetaEntry>,
    tags: Vec<Vec<char>>,
    links: Vec<Vec<char>>,
) -> BodyAccV {
    BodyAccV {
        postings: postings.deep_view(),
        meta: meta.deep_view(),
        tags: tags.deep_view(),
        links: links.deep_view(),
    }
}

/// One body line carried out of the line builder.
pub enum BodyItem {
    P(crate::model::Posting),
    KV(crate::model::MetaEntry),
    T(Vec<char>),
    L(Vec<char>),
}

impl View for BodyItem {
    type V = BodyItemV;

    open spec fn view(&self) -> BodyItemV {
        match self {
            BodyItem::P(p) => BodyItemV::P(p@),
            BodyItem::KV(v) => BodyItemV::KV(v@),
            BodyItem::T(x) => BodyItemV::T(x@),
            BodyItem::L(x) => BodyItemV::L(x@),
        }
    }
}

pub open spec fn spec_body_item_valid(b: BodyItemV) -> bool {
    match b {
        BodyItemV::P(p) => crate::model::spec_posting_valid(p),
        BodyItemV::KV(v) => crate::model::spec_mv_valid(v.value),
        _ => true,
    }
}

/// Builds one line of a transaction body.
pub fn build_body_line(s: &Vec<char>, i: usize, roots: &RootNames) -> (r: Result<
    Option<(Option<BodyItem>, usize)>,
    ParseError,
>)
    requires
        i <= s@.len(),
        s@.len() < usize::MAX,
    ensures
        match r {
            Ok(Some((opt, e))) => spec_build_body_line(s@, i as int, roots@) == BuildOutV::Got(
                match opt {
                    Some(item) => Some(item@),
                    None => None,
                },
                e as int,
            ) && (opt matches Some(item) ==> spec_body_item_valid(item@)) && i < e <= s@.len(),
            Ok(None) => spec_build_body_line(s@, i as int, roots@) is NoMatch,
            Err(pe) => spec_build_body_line(s@, i as int, roots@) matches BuildOutV::Fail(
                k,
                off,
            ) && err_matches(s@, pe@, k, off),
        },
{
    proof {
        reveal(spec_build_body_line);
    }
    if !(i < s.len() && crate::chars::hspace(s[i])) {
        return Ok(None);
    }
    let j = skip_ws(s, i);
    if j == i {
        return Ok(None);
    }
    if let Some(e) = crate::scan::scan_eol(s, j) {
        return Ok(Some((None, e)));
    }
    match build_posting(s, j, roots) {
        Ok(Some((p, k))) => {
            let j2 = skip_ws(s, k);
            return match crate::scan::scan_eol(s, j2) {
                Some(e) => Ok(Some((Some(BodyItem::P(p)), e))),
                None => Err(err_input_at(s, j2, "expected end of line")),
            };
        },
        Err(pe) => {
            return Err(pe);
        },
        Ok(None) => {},
    }
    match build_kv(s, j, roots) {
        Ok(Some((v, k))) => {
            let j2 = skip_ws(s, k);
            return match crate::scan::scan_eol(s, j2) {
                Some(e) => Ok(Some((Some(BodyItem::KV(v)), e))),
                None => Err(err_input_at(s, j2, "expected end of line")),
            };
        },
        Err(pe) => {
            return Err(pe);
        },
        Ok(None) => {},
    }
    if let Some(e2) = crate::scan::scan_tag(s, j) {
        let j2 = skip_ws(s, e2);
        return match crate::scan::scan_eol(s, j2) {
            Some(e) => Ok(Some((Some(BodyItem::T(copy_range(s, j + 1, e2))), e))),
            None => Err(err_input_at(s, j2, "expected end of line")),
        };
    }
    if let Some(e2) = crate::scan::scan_link(s, j) {
        let j2 = skip_ws(s, e2);
        return match crate::scan::scan_eol(s, j2) {
            Some(e) => Ok(Some((Some(BodyItem::L(copy_range(s, j + 1, e2))), e))),
            None => Err(err_input_at(s, j2, "expected end of line")),
        };
    }
    Err(err_input_at(s, j, "expected posting or metadata"))
}

/// Folds the body lines into the accumulator vectors.
#[verifier::rlimit(100)]
pub fn build_body(
    s: &Vec<char>,
    i: usize,
    roots: &RootNames,
    postings0: Vec<crate::model::Posting>,
    tmeta0: Vec<crate::model::MetaEntry>,
    tags0: Vec<Vec<char>>,
    links0: Vec<Vec<char>>,
    acc_init: Ghost<BodyAccV>,
) -> (r: Result<
    (
        Vec<crate::model::Posting>,
        Vec<crate::model::MetaEntry>,
        Vec<Vec<char>>,
        Vec<Vec<char>>,
        usize,
    ),
    ParseError,
>)
    requires
        i <= s@.len(),
        s@.len() < usize::MAX,
        acc_init@ == spec_body_acc(postings0, tmeta0, tags0, links0),
        forall|k: int|
            0 <= k < postings0.deep_view().len() ==> crate::model::spec_posting_valid(
                #[trigger] postings0.deep_view()[k],
            ),
        crate::model::spec_meta_valid(tmeta0.deep_view()),
    ensures
        match r {
            Ok((p2, m2, t2, l2, e)) => spec_build_body(s@, i as int, roots@, acc_init@)
                == BuildOutV::Got(spec_body_acc(p2, m2, t2, l2), e as int) && i <= e <= s@.len()
                && (forall|k: int|
                0 <= k < p2.deep_view().len() ==> crate::model::spec_posting_valid(
                    #[trigger] p2.deep_view()[k],
                )) && crate::model::spec_meta_valid(m2.deep_view()),
            Err(pe) => spec_build_body(s@, i as int, roots@, acc_init@) matches BuildOutV::Fail(
                k,
                off,
            ) && err_matches(s@, pe@, k, off),
        },
{
    let mut postings = postings0;
    let mut tmeta = tmeta0;
    let mut tags = tags0;
    let mut links = links0;
    let ghost goal = spec_build_body(s@, i as int, roots@, acc_init@);
    let mut pos = i;
    loop
        invariant
            i <= pos <= s@.len(),
            s@.len() < usize::MAX,
            goal == spec_build_body(s@, i as int, roots@, acc_init@),
            goal == spec_build_body(
                s@,
                pos as int,
                roots@,
                spec_body_acc(postings, tmeta, tags, links),
            ),
            forall|k: int|
                0 <= k < postings.deep_view().len() ==> crate::model::spec_posting_valid(
                    #[trigger] postings.deep_view()[k],
                ),
            crate::model::spec_meta_valid(tmeta.deep_view()),
        ensures
            i <= pos <= s@.len(),
            goal == BuildOutV::Got(spec_body_acc(postings, tmeta, tags, links), pos as int),
            forall|k: int|
                0 <= k < postings.deep_view().len() ==> crate::model::spec_posting_valid(
                    #[trigger] postings.deep_view()[k],
                ),
            crate::model::spec_meta_valid(tmeta.deep_view()),
        decreases s@.len() - pos,
    {
        match build_body_line(s, pos, roots)? {
            None => {
                break ;
            },
            Some((opt, e)) => {
                match opt {
                    None => {
                        pos = e;
                    },
                    Some(item) => {
                        let ghost prev_postings = postings;
                        let ghost prev_meta = tmeta;
                        let ghost acc_before = spec_body_acc(postings, tmeta, tags, links);
                        let ghost itemv = item@;
                        match item {
                            BodyItem::P(p) => {
                                postings.push(p);
                                proof {
                                    crate::chars::lemma_deep_view_push(
                                        postings,
                                        prev_postings,
                                        p,
                                    );
                                }
                            },
                            BodyItem::KV(v) => {
                                if postings.len() > 0 {
                                    let mut p = match postings.pop() {
                                        Some(p) => p,
                                        None => {
                                            return Err(
                                                ParseError::invalid_state(
                                                    "a posting to attach to",
                                                ),
                                            );
                                        },
                                    };
                                    let ghost prev_p = p;
                                    let ghost prev_pmeta = p.meta;
                                    p.meta.push(v);
                                    proof {
                                        crate::chars::lemma_deep_view_push(
                                            p.meta,
                                            prev_pmeta,
                                            v,
                                        );
                                        assert(p@ == (crate::model::PostingV {
                                            meta: prev_p@.meta.push(v@),
                                            ..prev_p@
                                        }));
                                    }
                                    postings.push(p);
                                    proof {
                                        assert(postings.deep_view()
                                            =~= prev_postings.deep_view().update(
                                            prev_postings.deep_view().len() - 1,
                                            p@,
                                        ));
                                    }
                                } else {
                                    tmeta.push(v);
                                    proof {
                                        crate::chars::lemma_deep_view_push(
                                            tmeta,
                                            prev_meta,
                                            v,
                                        );
                                    }
                                }
                            },
                            BodyItem::T(x) => {
                                add_str(&mut tags, x);
                            },
                            BodyItem::L(x) => {
                                add_str(&mut links, x);
                            },
                        }
                        proof {
                            assert(spec_body_acc(postings, tmeta, tags, links)
                                == spec_body_apply(acc_before, itemv));
                        }
                        pos = e;
                    },
                }
            },
        }
    }
    Ok((postings, tmeta, tags, links, pos))
}

/// Builds a transaction; `keys` are the currently pushed tags.
#[verifier::rlimit(100)]
pub fn build_transaction(s: &Vec<char>, i: usize, roots: &RootNames, keys: &Vec<Vec<char>>)
    -> (r: Result<Option<(crate::directives::Transaction, usize)>, ParseError>)
    requires
        i <= s@.len(),
        s@.len() < usize::MAX,
    ensures
        match r {
            Ok(Some((t, e))) => spec_build_transaction(s@, i as int, roots@, keys.deep_view())
                == BuildOutV::Got(t@, e as int) && crate::directives::spec_txn_valid(t@) && i < e
                <= s@.len(),
            Ok(None) => spec_build_transaction(s@, i as int, roots@, keys.deep_view())
                is NoMatch,
            Err(pe) => spec_build_transaction(s@, i as int, roots@, keys.deep_view())
                matches BuildOutV::Fail(k, off) && err_matches(s@, pe@, k, off),
        },
{
    proof {
        reveal(spec_build_transaction);
    }
    let d = match crate::scan::scan_date(s, i) {
        Some(d) => d,
        None => {
            return Ok(None);
        },
    };
    let fj = skip_ws(s, d);
    let f = match crate::scan::scan_flag(s, fj) {
        Some(f) => f,
        None => {
            return Ok(None);
        },
    };
    let flag = crate::model::Flag::from_token(copy_range(s, fj, f));
    let sj = skip_ws(s, f);
    let (first, q1) = match build_quoted(s, sj) {
        Some(x) => x,
        None => {
            return Err(err_input_at(s, sj, "expected payee and narration strings"));
        },
    };
    let pj = skip_ws(s, q1);
    let mut payee: Option<Vec<char>> = None;
    let mut narration: Vec<char> = first;
    let mut hend: usize = q1;
    if pj < s.len() && s[pj] == '|' {
        let k = skip_ws(s, pj + 1);
        match build_quoted(s, k) {
            Some((secondv, q2)) => {
                payee = Some(narration);
                narration = secondv;
                hend = q2;
            },
            None => {},
        }
    } else {
        match build_quoted(s, pj) {
            Some((secondv, q2)) => {
                payee = Some(narration);
                narration = secondv;
                hend = q2;
            },
            None => {},
        }
    }
    let mut tags: Vec<Vec<char>> = Vec::new();
    let mut links: Vec<Vec<char>> = Vec::new();
    proof {
        crate::chars::lemma_deep_view_empty(tags);
        crate::chars::lemma_deep_view_empty(links);
    }
    let tlend = header_tl(s, hend, &mut tags, &mut links);
    let bj = skip_ws(s, tlend);
    let e0 = match crate::scan::scan_eol(s, bj) {
        Some(e) => e,
        None => {
            return Err(err_input_at(s, bj, "expected end of line"));
        },
    };
    let postings0: Vec<crate::model::Posting> = Vec::new();
    let tmeta0: Vec<crate::model::MetaEntry> = Vec::new();
    proof {
        crate::chars::lemma_deep_view_empty(postings0);
        crate::chars::lemma_deep_view_empty(tmeta0);
    }
    let ghost acc0 = spec_body_acc(postings0, tmeta0, tags, links);
    match build_body(s, e0, roots, postings0, tmeta0, tags, links, Ghost(acc0)) {
        Ok((postings, tmeta, mut tags2, links2, pos)) => {
            union_keys(&mut tags2, keys);
            let source = copy_range(s, i, pos);
            proof {
                crate::chars::lemma_chars_deep_view(source);
                crate::chars::lemma_chars_deep_view(narration);
                match &payee {
                    Some(pv) => {
                        crate::chars::lemma_chars_deep_view(*pv);
                    },
                    None => {},
                }
            }
            let t = crate::directives::Transaction {
                date: crate::model::Date { text: copy_range(s, i, d) },
                flag,
                payee,
                narration,
                tags: tags2,
                links: links2,
                postings,
                meta: tmeta,
                source: Some(source),
            };
            Ok(Some((t, pos)))
        },
        Err(pe) => Err(pe),
    }
}

} // verus!

// The directive builders.

verus! {

/// The date and keyword that open a dated directive.
pub fn build_dated(s: &Vec<char>, i: usize, kw: &str) -> (r: Option<(crate::model::Date, usize)>)
    requires
        i <= s@.len(),
        s@.len() < usize::MAX,
    ensures
        match r {
            Some((d, p)) => crate::syntax::spec_scan_dated_kw(s@, i as int, kw@) == Some(
                p as int,
            ) && (crate::scan::spec_scan_date(s@, i as int) matches Some(de) && d@
                == s@.subrange(i as int, de)) && i < p <= s@.len(),
            None => crate::syntax::spec_scan_dated_kw(s@, i as int, kw@) is None,
        },
{
    match crate::scan::scan_date(s, i) {
        Some(de) => {
            let j = skip_ws(s, de);
            match crate::scan::match_word(s, j, kw) {
                Some(k) => {
                    let p = skip_ws(s, k);
                    Some((crate::model::Date { text: copy_range(s, i, de) }, p))
                },
                None => None,
            }
        },
        None => None,
    }
}

/// `option "Name" "Value"`.
#[verifier::opaque]
pub open spec fn spec_build_option(s: Seq<char>, i: int) -> BuildOutV<
    crate::directives::BcOptionV,
> {
    if crate::scan::spec_match_lit(s, i, "option"@) {
        let p = spec_skip_ws(s, i + "option"@.len());
        if i <= p <= s.len() {
            match crate::scan::spec_scan_quoted(s, p) {
                Some(q1) => {
                    if p < q1 <= s.len() {
                        let p2 = spec_skip_ws(s, q1);
                        if q1 <= p2 <= s.len() {
                            match crate::scan::spec_scan_quoted(s, p2) {
                                Some(q2) => {
                                    if p2 < q2 <= s.len() {
                                        let j = spec_skip_ws(s, q2);
                                        match crate::scan::spec_scan_eol(s, j) {
                                            Some(e) => BuildOutV::Got(
                                                crate::directives::BcOptionV {
                                                    name: s.subrange(p + 1, q1 - 1),
                                                    val: s.subrange(p2 + 1, q2 - 1),
                                                    source: Some(s.subrange(i, e)),
                                                },
                                                e,
                                            ),
                                            None => BuildOutV::Fail(
                                                ErrorKindV::Input("expected end of line"@),
                                                j,
                                            ),
                                        }
                                    } else {
                                        BuildOutV::NoMatch
                                    }
                                },
                                None => BuildOutV::Fail(
                                    ErrorKindV::Input("expected quoted string"@),
                                    p2,
                                ),
                            }
                        } else {
                            BuildOutV::NoMatch
                        }
                    } else {
                        BuildOutV::NoMatch
                    }
                },
                None => BuildOutV::Fail(ErrorKindV::Input("expected quoted string"@), p),
            }
        } else {
            BuildOutV::NoMatch
        }
    } else {
        BuildOutV::NoMatch
    }
}

pub fn build_option(s: &Vec<char>, i: usize) -> (r: Result<
    Option<(crate::directives::BcOption, usize)>,
    ParseError,
>)
    requires
        i <= s@.len(),
        s@.len() < usize::MAX,
    ensures
        match r {
            Ok(Some((o, e))) => spec_build_option(s@, i as int) == BuildOutV::Got(o@, e as int)
                && i < e <= s@.len(),
            Ok(None) => spec_build_option(s@, i as int) is NoMatch,
            Err(pe) => spec_build_option(s@, i as int) matches BuildOutV::Fail(k, off)
                && err_matches(s@, pe@, k, off),
        },
{
    proof {
        reveal(spec_build_option);
    }
    let p = match crate::scan::match_word(s, i, "option") {
        Some(k) => skip_ws(s, k),
        None => {
            return Ok(None);
        },
    };
    let (name, q1) = match build_quoted(s, p) {
        Some(x) => x,
        None => {
            return Err(err_input_at(s, p, "expected quoted string"));
        },
    };
    let p2 = skip_ws(s, q1);
    let (val, q2) = match build_quoted(s, p2) {
        Some(x) => x,
        None => {
            return Err(err_input_at(s, p2, "expected quoted string"));
        },
    };
    let j = skip_ws(s, q2);
    let e = match crate::scan::scan_eol(s, j) {
        Some(e) => e,
        None => {
            return Err(err_input_at(s, j, "expected end of line"));
        },
    };
    let source = copy_range(s, i, e);
    proof {
        crate::chars::lemma_chars_deep_view(source);
    }
    Ok(Some((crate::directives::BcOption { name, val, source: Some(source) }, e)))
}

/// `plugin "module" ["config"]`.
#[verifier::opaque]
pub open spec fn spec_build_plugin(s: Seq<char>, i: int) -> BuildOutV<
    crate::directives::PluginV,
> {
    if crate::scan::spec_match_lit(s, i, "plugin"@) {
        let p = spec_skip_ws(s, i + "plugin"@.len());
        if i <= p <= s.len() {
            match crate::scan::spec_scan_quoted(s, p) {
                Some(q1) => {
                    if p < q1 <= s.len() {
                        let p2 = spec_skip_ws(s, q1);
                        let second: Option<(Seq<char>, int)> = if q1 <= p2 <= s.len() {
                            match crate::scan::spec_scan_quoted(s, p2) {
                                Some(q2) => if p2 < q2 <= s.len() {
                                    Some((s.subrange(p2 + 1, q2 - 1), q2))
                                } else {
                                    None
                                },
                                None => None,
                            }
                        } else {
                            None
                        };
                        let hend: int = match second {
                            Some(x) => x.1,
                            None => q1,
                        };
                        let j = spec_skip_ws(s, hend);
                        if hend <= j <= s.len() {
                            match crate::scan::spec_scan_eol(s, j) {
                                Some(e) => BuildOutV::Got(
                                    crate::directives::PluginV {
                                        module: s.subrange(p + 1, q1 - 1),
                                        config: match second {
                                            Some(x) => Some(x.0),
                                            None => None,
                                        },
                                        source: Some(s.subrange(i, e)),
                                    },
                                    e,
                                ),
                                None => BuildOutV::Fail(
                                    ErrorKindV::Input("expected end of line"@),
                                    j,
                                ),
                            }
                        } else {
                            BuildOutV::NoMatch
                        }
                    } else {
                        BuildOutV::NoMatch
                    }
                },
                None => BuildOutV::Fail(ErrorKindV::Input("expected quoted string"@), p),
            }
        } else {
            BuildOutV::NoMatch
        }
    } else {
        BuildOutV::NoMatch
    }
}

pub fn build_plugin(s: &Vec<char>, i: usize) -> (r: Result<
    Option<(crate::directives::Plugin, usize)>,
    ParseError,
>)
    requires
        i <= s@.len(),
        s@.len() < usize::MAX,
    ensures
        match r {
            Ok(Some((o, e))) => spec_build_plugin(s@, i as int) == BuildOutV::Got(o@, e as int)
                && i < e <= s@.len(),
            Ok(None) => spec_build_plugin(s@, i as int) is NoMatch,
            Err(pe) => spec_build_plugin(s@, i as int) matches BuildOutV::Fail(k, off)
                && err_matches(s@, pe@, k, off),
        },
{
    proof {
        reveal(spec_build_plugin);
    }
    let p = match crate::scan::match_word(s, i, "plugin") {
        Some(k) => skip_ws(s, k),
        None => {
            return Ok(None);
        },
    };
    let (module, q1) = match build_quoted(s, p) {
        Some(x) => x,
        None => {
            return Err(err_input_at(s, p, "expected quoted string"));
        },
    };
    let p2 = skip_ws(s, q1);
    let mut config: Option<Vec<char>> = None;
    let mut hend = q1;
    match build_quoted(s, p2) {
        Some((c, q2)) => {
            proof {
                crate::chars::lemma_chars_deep_view(c);
            }
            config = Some(c);
            hend = q2;
        },
        None => {},
    }
    let j = skip_ws(s, hend);
    let e = match crate::scan::scan_eol(s, j) {
        Some(e) => e,
        None => {
            return Err(err_input_at(s, j, "expected end of line"));
        },
    };
    let source = copy_range(s, i, e);
    proof {
        crate::chars::lemma_chars_deep_view(source);
    }
    Ok(Some((crate::directives::Plugin { module, config, source: Some(source) }, e)))
}

/// `include "filename"`.
#[verifier::opaque]
pub open spec fn spec_build_include(s: Seq<char>, i: int) -> BuildOutV<
    crate::directives::IncludeV,
> {
    if crate::scan::spec_match_lit(s, i, "include"@) {
        let p = spec_skip_ws(s, i + "include"@.len());
        if i <= p <= s.len() {
            match crate::scan::spec_scan_quoted(s, p) {
                Some(q1) => {
                    if p < q1 <= s.len() {
                        let j = spec_skip_ws(s, q1);
                        if q1 <= j <= s.len() {
                            match crate::scan::spec_scan_eol(s, j) {
                                Some(e) => BuildOutV::Got(
                                    crate::directives::IncludeV {
                                        filename: s.subrange(p + 1, q1 - 1),
                                        source: Some(s.subrange(i, e)),
                                    },
                                    e,
                                ),
                                None => BuildOutV::Fail(
                                    ErrorKindV::Input("expected end of line"@),
                                    j,
                                ),
                            }
                        } else {
                            BuildOutV::NoMatch
                        }
                    } else {
                        BuildOutV::NoMatch
                    }
                },
                None => BuildOutV::Fail(ErrorKindV::Input("expected quoted string"@), p),
            }
        } else {
            BuildOutV::NoMatch
        }
    } else {
        BuildOutV::NoMatch
    }
}

pub fn build_include(s: &Vec<char>, i: usize) -> (r: Result<
    Option<(crate::directives::Include, usize)>,
    ParseError,
>)
    requires
        i <= s@.len(),
        s@.len() < usize::MAX,
    ensures
        match r {
            Ok(Some((o, e))) => spec_build_include(s@, i as int) == BuildOutV::Got(o@, e as int)
                && i < e <= s@.len(),
            Ok(None) => spec_build_include(s@, i as int) is NoMatch,
            Err(pe) => spec_build_include(s@, i as int) matches BuildOutV::Fail(k, off)
                && err_matches(s@, pe@, k, off),
        },
{
    proof {
        reveal(spec_build_include);
    }
    let p = match crate::scan::match_word(s, i, "include") {
        Some(k) => skip_ws(s, k),
        None => {
            return Ok(None);
        },
    };
    let (filename, q1) = match build_quoted(s, p) {
        Some(x) => x,
        None => {
            return Err(err_input_at(s, p, "expected quoted string"));
        },
    };
    let j = skip_ws(s, q1);
    let e = match crate::scan::scan_eol(s, j) {
        Some(e) => e,
        None => {
            return Err(err_input_at(s, j, "expected end of line"));
        },
    };
    let source = copy_range(s, i, e);
    proof {
        crate::chars::lemma_chars_deep_view(source);
    }
    Ok(Some((crate::directives::Include { filename, source: Some(source) }, e)))
}

/// `pushtag #name` or `poptag #name`: the tag name and the line's end.
#[verifier::opaque]
pub open spec fn spec_build_tag_line(s: Seq<char>, i: int, kw: Seq<char>) -> BuildOutV<
    Seq<char>,
> {
    if crate::scan::spec_match_lit(s, i, kw) {
        let p = spec_skip_ws(s, i + kw.len());
        if i <= p <= s.len() {
            match crate::scan::spec_scan_tag(s, p) {
                Some(t) => {
                    if p < t <= s.len() {
                        let j = spec_skip_ws(s, t);
                        if t <= j <= s.len() {
                            match crate::scan::spec_scan_eol(s, j) {
                                Some(e) => BuildOutV::Got(s.subrange(p + 1, t), e),
                                None => BuildOutV::Fail(
                                    ErrorKindV::Input("expected end of line"@),
                                    j,
                                ),
                            }
                        } else {
                            BuildOutV::NoMatch
                        }
                    } else {
                        BuildOutV::NoMatch
                    }
                },
                None => BuildOutV::Fail(ErrorKindV::Input("expected tag"@), p),
            }
        } else {
            BuildOutV::NoMatch
        }
    } else {
        BuildOutV::NoMatch
    }
}

pub fn build_tag_line(s: &Vec<char>, i: usize, kw: &str) -> (r: Result<
    Option<(Vec<char>, usize)>,
    ParseError,
>)
    requires
        i <= s@.len(),
        s@.len() < usize::MAX,
    ensures
        match r {
            Ok(Some((t, e))) => spec_build_tag_line(s@, i as int, kw@) == BuildOutV::Got(
                t@,
                e as int,
            ) && i < e <= s@.len(),
            Ok(None) => spec_build_tag_line(s@, i as int, kw@) is NoMatch,
            Err(pe) => spec_build_tag_line(s@, i as int, kw@) matches BuildOutV::Fail(k, off)
                && err_matches(s@, pe@, k, off),
        },
{
    proof {
        reveal(spec_build_tag_line);
    }
    let p = match crate::scan::match_word(s, i, kw) {
        Some(k) => skip_ws(s, k),
        None => {
            return Ok(None);
        },
    };
    let t = match crate::scan::scan_tag(s, p) {
        Some(t) => t,
        None => {
            return Err(err_input_at(s, p, "expected tag"));
        },
    };
    let j = skip_ws(s, t);
    let e = match crate::scan::scan_eol(s, j) {
        Some(e) => e,
        None => {
            return Err(err_input_at(s, j, "expected end of line"));
        },
    };
    Ok(Some((copy_range(s, p + 1, t), e)))
}

} // verus!

// Dated directive builders.

verus! {

/// Case-insensitive equality of a character against a lower-case letter.
pub open spec fn spec_char_eqi(x: char, y: char) -> bool {
    x == y || ('A' <= x && x <= 'Z' && 'a' <= y && y <= 'z' && x as int + 32 == y as int)
}

/// Case-insensitive equality against a lower-case word.
pub open spec fn spec_eq_nocase(a: Seq<char>, b: Seq<char>) -> bool {
    a.len() == b.len() && forall|k: int| 0 <= k < a.len() ==> spec_char_eqi(a[k], #[trigger] b[k])
}

/// Compares a buffer against a lower-case word, ignoring ASCII case.
pub fn eq_nocase(a: &Vec<char>, b: &str) -> (r: bool)
    ensures
        r == spec_eq_nocase(a@, b@),
{
    let bv = crate::chars::chars_of_str(b);
    if a.len() != bv.len() {
        return false;
    }
    let mut k: usize = 0;
    while k < a.len()
        invariant
            k <= a@.len(),
            a@.len() == bv@.len(),
            bv@ == b@,
            forall|m: int| 0 <= m < k ==> spec_char_eqi(a@[m], #[trigger] bv@[m]),
        decreases a@.len() - k,
    {
        let x = a[k];
        let y = bv[k];
        let ok = x == y || ('A' <= x && x <= 'Z' && 'a' <= y && y <= 'z' && (x as u32) + 32
            == (y as u32));
        if !ok {
            return false;
        }
        k = k + 1;
    }
    true
}

/// The booking method a quoted string names, compared without regard to
/// ASCII case.
pub open spec fn spec_booking_of(t: Seq<char>) -> Option<crate::model::Booking> {
    if spec_eq_nocase(t, "strict"@) {
        Some(crate::model::Booking::Strict)
    } else if spec_eq_nocase(t, "none"@) {
        Some(crate::model::Booking::Disabled)
    } else if spec_eq_nocase(t, "average"@) {
        Some(crate::model::Booking::Average)
    } else if spec_eq_nocase(t, "fifo"@) {
        Some(crate::model::Booking::Fifo)
    } else if spec_eq_nocase(t, "lifo"@) {
        Some(crate::model::Booking::Lifo)
    } else {
        None
    }
}

pub fn booking_of(t: &Vec<char>) -> (r: Option<crate::model::Booking>)
    ensures
        r == spec_booking_of(t@),
{
    if eq_nocase(t, "strict") {
        Some(crate::model::Booking::Strict)
    } else if eq_nocase(t, "none") {
        Some(crate::model::Booking::Disabled)
    } else if eq_nocase(t, "average") {
        Some(crate::model::Booking::Average)
    } else if eq_nocase(t, "fifo") {
        Some(crate::model::Booking::Fifo)
    } else if eq_nocase(t, "lifo") {
        Some(crate::model::Booking::Lifo)
    } else {
        None
    }
}

/// `DATE close ACCOUNT` with metadata.
#[verifier::opaque]
pub open spec fn spec_build_close(s: Seq<char>, i: int, roots: RootNamesV) -> BuildOutV<
    crate::directives::CloseV,
> {
    match crate::syntax::spec_scan_dated_kw(s, i, "close"@) {
        Some(p) => {
            if i < p <= s.len() {
                match spec_build_account(s, p, roots) {
                    BuildOutV::Got(a, ae) => {
                        if p < ae <= s.len() {
                            match spec_build_meta(s, ae, roots) {
                                BuildOutV::Got(m, e) => BuildOutV::Got(
                                    crate::directives::CloseV {
                                        date: s.subrange(
                                            i,
                                            crate::scan::spec_scan_date(s, i)->Some_0,
                                        ),
                                        account: a,
                                        meta: m,
                                        source: Some(s.subrange(i, e)),
                                    },
                                    e,
                                ),
                                BuildOutV::NoMatch => BuildOutV::Fail(
                                    ErrorKindV::Input("expected end of line"@),
                                    spec_skip_ws(s, ae),
                                ),
                                BuildOutV::Fail(k, off) => BuildOutV::Fail(k, off),
                            }
                        } else {
                            BuildOutV::NoMatch
                        }
                    },
                    BuildOutV::NoMatch => BuildOutV::Fail(
                        ErrorKindV::Input("expected an account name"@),
                        p,
                    ),
                    BuildOutV::Fail(k, off) => BuildOutV::Fail(k, off),
                }
            } else {
                BuildOutV::NoMatch
            }
        },
        None => BuildOutV::NoMatch,
    }
}

pub fn build_close(s: &Vec<char>, i: usize, roots: &RootNames) -> (r: Result<
    Option<(crate::directives::Close, usize)>,
    ParseError,
>)
    requires
        i <= s@.len(),
        s@.len() < usize::MAX,
    ensures
        match r {
            Ok(Some((o, e))) => spec_build_close(s@, i as int, roots@) == BuildOutV::Got(
                o@,
                e as int,
            ) && crate::directives::spec_dir_valid(crate::directives::DirectiveV::Close(o@)) && i
                < e <= s@.len(),
            Ok(None) => spec_build_close(s@, i as int, roots@) is NoMatch,
            Err(pe) => spec_build_close(s@, i as int, roots@) matches BuildOutV::Fail(k, off)
                && err_matches(s@, pe@, k, off),
        },
{
    proof {
        reveal(spec_build_close);
    }
    let (date, p) = match build_dated(s, i, "close") {
        Some(x) => x,
        None => {
            return Ok(None);
        },
    };
    let (account, ae) = match build_account(s, p, roots)? {
        Some(x) => x,
        None => {
            return Err(err_input_at(s, p, "expected an account name"));
        },
    };
    let (meta, e) = match build_meta(s, ae, roots)? {
        Some(x) => x,
        None => {
            let j = skip_ws(s, ae);
            return Err(err_input_at(s, j, "expected end of line"));
        },
    };
    let source = copy_range(s, i, e);
    proof {
        crate::chars::lemma_chars_deep_view(source);
    }
    Ok(Some((crate::directives::Close { date, account, meta, source: Some(source) }, e)))
}

/// `DATE commodity NAME` with metadata.
#[verifier::opaque]
pub open spec fn spec_build_commodity(s: Seq<char>, i: int, roots: RootNamesV) -> BuildOutV<
    crate::directives::CommodityV,
> {
    match crate::syntax::spec_scan_dated_kw(s, i, "commodity"@) {
        Some(p) => {
            if i < p <= s.len() {
                match crate::scan::spec_scan_commodity(s, p) {
                    Some(c) => {
                        if p < c <= s.len() {
                            match spec_build_meta(s, c, roots) {
                                BuildOutV::Got(m, e) => BuildOutV::Got(
                                    crate::directives::CommodityV {
                                        date: s.subrange(
                                            i,
                                            crate::scan::spec_scan_date(s, i)->Some_0,
                                        ),
                                        name: s.subrange(p, c),
                                        meta: m,
                                        source: Some(s.subrange(i, e)),
                                    },
                                    e,
                                ),
                                BuildOutV::NoMatch => BuildOutV::Fail(
                                    ErrorKindV::Input("expected end of line"@),
                                    spec_skip_ws(s, c),
                                ),
                                BuildOutV::Fail(k, off) => BuildOutV::Fail(k, off),
                            }
                        } else {
                            BuildOutV::NoMatch
                        }
                    },
                    None => BuildOutV::Fail(ErrorKindV::Input("expected commodity"@), p),
                }
            } else {
                BuildOutV::NoMatch
            }
        },
        None => BuildOutV::NoMatch,
    }
}

pub fn build_commodity(s: &Vec<char>, i: usize, roots: &RootNames) -> (r: Result<
    Option<(crate::directives::Commodity, usize)>,
    ParseError,
>)
    requires
        i <= s@.len(),
        s@.len() < usize::MAX,
    ensures
        match r {
            Ok(Some((o, e))) => spec_build_commodity(s@, i as int, roots@) == BuildOutV::Got(
                o@,
                e as int,
            ) && crate::directives::spec_dir_valid(
                crate::directives::DirectiveV::Commodity(o@),
            ) && i < e <= s@.len(),
            Ok(None) => spec_build_commodity(s@, i as int, roots@) is NoMatch,
            Err(pe) => spec_build_commodity(s@, i as int, roots@) matches BuildOutV::Fail(
                k,
                off,
            ) && err_matches(s@, pe@, k, off),
        },
{
    proof {
        reveal(spec_build_commodity);
    }
    let (date, p) = match build_dated(s, i, "commodity") {
        Some(x) => x,
        None => {
            return Ok(None);
        },
    };
    let c = match crate::scan::scan_commodity(s, p) {
        Some(c) => c,
        None => {
            return Err(err_input_at(s, p, "expected commodity"));
        },
    };
    let name = copy_range(s, p, c);
    let (meta, e) = match build_meta(s, c, roots)? {
        Some(x) => x,
        None => {
            let j = skip_ws(s, c);
            return Err(err_input_at(s, j, "expected end of line"));
        },
    };
    let source = copy_range(s, i, e);
    proof {
        crate::chars::lemma_chars_deep_view(source);
    }
    Ok(Some((crate::directives::Commodity { date, name, meta, source: Some(source) }, e)))
}

/// `DATE balance ACCOUNT AMOUNT [~ TOL] CUR` with metadata.
#[verifier::opaque]
pub open spec fn spec_build_balance(s: Seq<char>, i: int, roots: RootNamesV) -> BuildOutV<
    crate::directives::BalanceV,
> {
    match crate::syntax::spec_scan_dated_kw(s, i, "balance"@) {
        Some(p) => {
            if i < p <= s.len() {
                match spec_build_account(s, p, roots) {
                    BuildOutV::Got(a, ae) => {
                        if p < ae <= s.len() {
                            let aj = spec_skip_ws(s, ae);
                            if ae <= aj <= s.len() {
                                match spec_build_amount_tolerance(s, aj) {
                                    BuildOutV::Got(at, te) => {
                                        if aj < te <= s.len() {
                                            match spec_build_meta(s, te, roots) {
                                                BuildOutV::Got(m, e) => BuildOutV::Got(
                                                    crate::directives::BalanceV {
                                                        date: s.subrange(
                                                            i,
                                                            crate::scan::spec_scan_date(
                                                                s,
                                                                i,
                                                            )->Some_0,
                                                        ),
                                                        account: a,
                                                        amount: at.0,
                                                        tolerance: at.1,
                                                        meta: m,
                                                        source: Some(s.subrange(i, e)),
                                                    },
                                                    e,
                                                ),
                                                BuildOutV::NoMatch => BuildOutV::Fail(
                                                    ErrorKindV::Input(
                                                        "expected end of line"@,
                                                    ),
                                                    spec_skip_ws(s, te),
                                                ),
                                                BuildOutV::Fail(k, off) => BuildOutV::Fail(
                                                    k,
                                                    off,
                                                ),
                                            }
                                        } else {
                                            BuildOutV::NoMatch
                                        }
                                    },
                                    BuildOutV::NoMatch => BuildOutV::Fail(
                                        ErrorKindV::Input("expected amount"@),
                                        aj,
                                    ),
                                    BuildOutV::Fail(k, off) => BuildOutV::Fail(k, off),
                                }
                            } else {
                                BuildOutV::NoMatch
                            }
                        } else {
                            BuildOutV::NoMatch
                        }
                    },
                    BuildOutV::NoMatch => BuildOutV::Fail(
                        ErrorKindV::Input("expected an account name"@),
                        p,
                    ),
                    BuildOutV::Fail(k, off) => BuildOutV::Fail(k, off),
                }
            } else {
                BuildOutV::NoMatch
            }
        },
        None => BuildOutV::NoMatch,
    }
}

pub fn build_balance(s: &Vec<char>, i: usize, roots: &RootNames) -> (r: Result<
    Option<(crate::directives::Balance, usize)>,
    ParseError,
>)
    requires
        i <= s@.len(),
        s@.len() < usize::MAX,
    ensures
        match r {
            Ok(Some((o, e))) => spec_build_balance(s@, i as int, roots@) == BuildOutV::Got(
                o@,
                e as int,
            ) && crate::directives::spec_dir_valid(
                crate::directives::DirectiveV::Balance(o@),
            ) && i < e <= s@.len(),
            Ok(None) => spec_build_balance(s@, i as int, roots@) is NoMatch,
            Err(pe) => spec_build_balance(s@, i as int, roots@) matches BuildOutV::Fail(k, off)
                && err_matches(s@, pe@, k, off),
        },
{
    proof {
        reveal(spec_build_balance);
    }
    let (date, p) = match build_dated(s, i, "balance") {
        Some(x) => x,
        None => {
            return Ok(None);
        },
    };
    let (account, ae) = match build_account(s, p, roots)? {
        Some(x) => x,
        None => {
            return Err(err_input_at(s, p, "expected an account name"));
        },
    };
    let aj = skip_ws(s, ae);
    let (amount, tolerance, te) = match build_amount_tolerance(s, aj)? {
        Some(x) => x,
        None => {
            return Err(err_input_at(s, aj, "expected amount"));
        },
    };
    let (meta, e) = match build_meta(s, te, roots)? {
        Some(x) => x,
        None => {
            let j = skip_ws(s, te);
            return Err(err_input_at(s, j, "expected end of line"));
        },
    };
    let source = copy_range(s, i, e);
    proof {
        crate::chars::lemma_chars_deep_view(source);
    }
    Ok(
        Some(
            (
                crate::directives::Balance {
                    date,
                    account,
                    amount,
                    tolerance,
                    meta,
                    source: Some(source),
                },
                e,
            ),
        ),
    )
}

} // verus!

// Note, pad, query, event, price builders.

verus! {

/// `DATE note ACCOUNT "COMMENT"` with metadata; the comment keeps its
/// quotes.
#[verifier::opaque]
pub open spec fn spec_build_note(s: Seq<char>, i: int, roots: RootNamesV) -> BuildOutV<
    crate::directives::NoteV,
> {
    match crate::syntax::spec_scan_dated_kw(s, i, "note"@) {
        Some(p) => {
            if i < p <= s.len() {
                match spec_build_account(s, p, roots) {
                    BuildOutV::Got(a, ae) => {
                        if p < ae <= s.len() {
                            let qj = spec_skip_ws(s, ae);
                            if ae <= qj <= s.len() {
                                match crate::scan::spec_scan_quoted(s, qj) {
                                    Some(q) => {
                                        if qj < q <= s.len() {
                                            match spec_build_meta(s, q, roots) {
                                                BuildOutV::Got(m, e) => BuildOutV::Got(
                                                    crate::directives::NoteV {
                                                        date: s.subrange(
                                                            i,
                                                            crate::scan::spec_scan_date(
                                                                s,
                                                                i,
                                                            )->Some_0,
                                                        ),
                                                        account: a,
                                                        comment: s.subrange(qj, q),
                                                        meta: m,
                                                        source: Some(s.subrange(i, e)),
                                                    },
                                                    e,
                                                ),
                                                BuildOutV::NoMatch => BuildOutV::Fail(
                                                    ErrorKindV::Input(
                                                        "expected end of line"@,
                                                    ),
                                                    spec_skip_ws(s, q),
                                                ),
                                                BuildOutV::Fail(k, off) => BuildOutV::Fail(
                                                    k,
                                                    off,
                                                ),
                                            }
                                        } else {
                                            BuildOutV::NoMatch
                                        }
                                    },
                                    None => BuildOutV::Fail(
                                        ErrorKindV::Input("expected quoted string"@),
                                        qj,
                                    ),
                                }
                            } else {
                                BuildOutV::NoMatch
                            }
                        } else {
                            BuildOutV::NoMatch
                        }
                    },
                    BuildOutV::NoMatch => BuildOutV::Fail(
                        ErrorKindV::Input("expected an account name"@),
                        p,
                    ),
                    BuildOutV::Fail(k, off) => BuildOutV::Fail(k, off),
                }
            } else {
                BuildOutV::NoMatch
            }
        },
        None => BuildOutV::NoMatch,
    }
}

pub fn build_note(s: &Vec<char>, i: usize, roots: &RootNames) -> (r: Result<
    Option<(crate::directives::Note, usize)>,
    ParseError,
>)
    requires
        i <= s@.len(),
        s@.len() < usize::MAX,
    ensures
        match r {
            Ok(Some((o, e))) => spec_build_note(s@, i as int, roots@) == BuildOutV::Got(
                o@,
                e as int,
            ) && crate::directives::spec_dir_valid(crate::directives::DirectiveV::Note(o@)) && i
                < e <= s@.len(),
            Ok(None) => spec_build_note(s@, i as int, roots@) is NoMatch,
            Err(pe) => spec_build_note(s@, i as int, roots@) matches BuildOutV::Fail(k, off)
                && err_matches(s@, pe@, k, off),
        },
{
    proof {
        reveal(spec_build_note);
    }
    let (date, p) = match build_dated(s, i, "note") {
        Some(x) => x,
        None => {
            return Ok(None);
        },
    };
    let (account, ae) = match build_account(s, p, roots)? {
        Some(x) => x,
        None => {
            return Err(err_input_at(s, p, "expected an account name"));
        },
    };
    let qj = skip_ws(s, ae);
    let q = match crate::scan::scan_quoted(s, qj) {
        Some(q) => q,
        None => {
            return Err(err_input_at(s, qj, "expected quoted string"));
        },
    };
    let comment = copy_range(s, qj, q);
    let (meta, e) = match build_meta(s, q, roots)? {
        Some(x) => x,
        None => {
            let j = skip_ws(s, q);
            return Err(err_input_at(s, j, "expected end of line"));
        },
    };
    let source = copy_range(s, i, e);
    proof {
        crate::chars::lemma_chars_deep_view(source);
    }
    Ok(
        Some(
            (crate::directives::Note { date, account, comment, meta, source: Some(source) }, e),
        ),
    )
}

/// `DATE pad TO FROM` with metadata.
#[verifier::opaque]
pub open spec fn spec_build_pad(s: Seq<char>, i: int, roots: RootNamesV) -> BuildOutV<
    crate::directives::PadV,
> {
    match crate::syntax::spec_scan_dated_kw(s, i, "pad"@) {
        Some(p) => {
            if i < p <= s.len() {
                match spec_build_account(s, p, roots) {
                    BuildOutV::Got(a, ae) => {
                        if p < ae <= s.len() {
                            let bj = spec_skip_ws(s, ae);
                            if ae <= bj <= s.len() {
                                match spec_build_account(s, bj, roots) {
                                    BuildOutV::Got(b, be) => {
                                        if bj < be <= s.len() {
                                            match spec_build_meta(s, be, roots) {
                                                BuildOutV::Got(m, e) => BuildOutV::Got(
                                                    crate::directives::PadV {
                                                        date: s.subrange(
                                                            i,
                                                            crate::scan::spec_scan_date(
                                                                s,
                                                                i,
                                                            )->Some_0,
                                                        ),
                                                        pad_to_account: a,
                                                        pad_from_account: b,
                                                        meta: m,
                                                        source: Some(s.subrange(i, e)),
                                                    },
                                                    e,
                                                ),
                                                BuildOutV::NoMatch => BuildOutV::Fail(
                                                    ErrorKindV::Input(
                                                        "expected end of line"@,
                                                    ),
                                                    spec_skip_ws(s, be),
                                                ),
                                                BuildOutV::Fail(k, off) => BuildOutV::Fail(
                                                    k,
                                                    off,
                                                ),
                                            }
                                        } else {
                                            BuildOutV::NoMatch
                                        }
                                    },
                                    BuildOutV::NoMatch => BuildOutV::Fail(
                                        ErrorKindV::Input("expected an account name"@),
                                        bj,
                                    ),
                                    BuildOutV::Fail(k, off) => BuildOutV::Fail(k, off),
                                }
                            } else {
                                BuildOutV::NoMatch
                            }
                        } else {
                            BuildOutV::NoMatch
                        }
                    },
                    BuildOutV::NoMatch => BuildOutV::Fail(
                        ErrorKindV::Input("expected an account name"@),
                        p,
                    ),
                    BuildOutV::Fail(k, off) => BuildOutV::Fail(k, off),
                }
            } else {
                BuildOutV::NoMatch
            }
        },
        None => BuildOutV::NoMatch,
    }
}

pub fn build_pad(s: &Vec<char>, i: usize, roots: &RootNames) -> (r: Result<
    Option<(crate::directives::Pad, usize)>,
    ParseError,
>)
    requires
        i <= s@.len(),
        s@.len() < usize::MAX,
    ensures
        match r {
            Ok(Some((o, e))) => spec_build_pad(s@, i as int, roots@) == BuildOutV::Got(
                o@,
                e as int,
            ) && crate::directives::spec_dir_valid(crate::directives::DirectiveV::Pad(o@)) && i
                < e <= s@.len(),
            Ok(None) => spec_build_pad(s@, i as int, roots@) is NoMatch,
            Err(pe) => spec_build_pad(s@, i as int, roots@) matches BuildOutV::Fail(k, off)
                && err_matches(s@, pe@, k, off),
        },
{
    proof {
        reveal(spec_build_pad);
    }
    let (date, p) = match build_dated(s, i, "pad") {
        Some(x) => x,
        None => {
            return Ok(None);
        },
    };
    let (pad_to_account, ae) = match build_account(s, p, roots)? {
        Some(x) => x,
        None => {
            return Err(err_input_at(s, p, "expected an account name"));
        },
    };
    let bj = skip_ws(s, ae);
    let (pad_from_account, be) = match build_account(s, bj, roots)? {
        Some(x) => x,
        None => {
            return Err(err_input_at(s, bj, "expected an account name"));
        },
    };
    let (meta, e) = match build_meta(s, be, roots)? {
        Some(x) => x,
        None => {
            let j = skip_ws(s, be);
            return Err(err_input_at(s, j, "expected end of line"));
        },
    };
    let source = copy_range(s, i, e);
    proof {
        crate::chars::lemma_chars_deep_view(source);
    }
    Ok(
        Some(
            (
                crate::directives::Pad {
                    date,
                    pad_to_account,
                    pad_from_account,
                    meta,
                    source: Some(source),
                },
                e,
            ),
        ),
    )
}

/// `DATE query "NAME" "SQL"` and `DATE event "NAME" "DESC"` share their
/// shape: two quoted strings and metadata.
#[verifier::opaque]
pub open spec fn spec_build_two_quoted(s: Seq<char>, i: int, kw: Seq<char>, roots: RootNamesV)
    -> BuildOutV<(Seq<char>, Seq<char>, Seq<MetaEntryVAlias>, Seq<char>)> {
    match crate::syntax::spec_scan_dated_kw(s, i, kw) {
        Some(p) => {
            if i < p <= s.len() {
                match crate::scan::spec_scan_quoted(s, p) {
                    Some(q1) => {
                        if p < q1 <= s.len() {
                            let p2 = spec_skip_ws(s, q1);
                            if q1 <= p2 <= s.len() {
                                match crate::scan::spec_scan_quoted(s, p2) {
                                    Some(q2) => {
                                        if p2 < q2 <= s.len() {
                                            match spec_build_meta(s, q2, roots) {
                                                BuildOutV::Got(m, e) => BuildOutV::Got(
                                                    (
                                                        s.subrange(p + 1, q1 - 1),
                                                        s.subrange(p2 + 1, q2 - 1),
                                                        m,
                                                        s.subrange(i, e),
                                                    ),
                                                    e,
                                                ),
                                                BuildOutV::NoMatch => BuildOutV::Fail(
                                                    ErrorKindV::Input(
                                                        "expected end of line"@,
                                                    ),
                                                    spec_skip_ws(s, q2),
                                                ),
                                                BuildOutV::Fail(k, off) => BuildOutV::Fail(
                                                    k,
                                                    off,
                                                ),
                                            }
                                        } else {
                                            BuildOutV::NoMatch
                                        }
                                    },
                                    None => BuildOutV::Fail(
                                        ErrorKindV::Input("expected quoted string"@),
                                        p2,
                                    ),
                                }
                            } else {
                                BuildOutV::NoMatch
                            }
                        } else {
                            BuildOutV::NoMatch
                        }
                    },
                    None => BuildOutV::Fail(
                        ErrorKindV::Input("expected quoted string"@),
                        p,
                    ),
                }
            } else {
                BuildOutV::NoMatch
            }
        },
        None => BuildOutV::NoMatch,
    }
}

/// A shorthand so the four-tuple above stays readable.
pub type MetaEntryVAlias = crate::model::MetaEntryV;

pub fn build_two_quoted(s: &Vec<char>, i: usize, kw: &str, roots: &RootNames) -> (r: Result<
    Option<
        (
            crate::model::Date,
            Vec<char>,
            Vec<char>,
            Vec<crate::model::MetaEntry>,
            Vec<char>,
            usize,
        ),
    >,
    ParseError,
>)
    requires
        i <= s@.len(),
        s@.len() < usize::MAX,
    ensures
        match r {
            Ok(Some((d, a, b, m, src, e))) => spec_build_two_quoted(s@, i as int, kw@, roots@)
                == BuildOutV::Got((a@, b@, m.deep_view(), src@), e as int) && (
            crate::scan::spec_scan_date(s@, i as int) matches Some(de) && d@ == s@.subrange(
                i as int,
                de,
            )) && crate::model::spec_meta_valid(m.deep_view()) && i < e <= s@.len(),
            Ok(None) => spec_build_two_quoted(s@, i as int, kw@, roots@) is NoMatch,
            Err(pe) => spec_build_two_quoted(s@, i as int, kw@, roots@) matches BuildOutV::Fail(
                k,
                off,
            ) && err_matches(s@, pe@, k, off),
        },
{
    proof {
        reveal(spec_build_two_quoted);
    }
    let (date, p) = match build_dated(s, i, kw) {
        Some(x) => x,
        None => {
            return Ok(None);
        },
    };
    let (a, q1) = match build_quoted(s, p) {
        Some(x) => x,
        None => {
            return Err(err_input_at(s, p, "expected quoted string"));
        },
    };
    let p2 = skip_ws(s, q1);
    let (b, q2) = match build_quoted(s, p2) {
        Some(x) => x,
        None => {
            return Err(err_input_at(s, p2, "expected quoted string"));
        },
    };
    let (meta, e) = match build_meta(s, q2, roots)? {
        Some(x) => x,
        None => {
            let j = skip_ws(s, q2);
            return Err(err_input_at(s, j, "expected end of line"));
        },
    };
    let source = copy_range(s, i, e);
    Ok(Some((date, a, b, meta, source, e)))
}

/// `DATE price CUR AMOUNT` with metadata.
#[verifier::opaque]
pub open spec fn spec_build_price_directive(s: Seq<char>, i: int, roots: RootNamesV)
    -> BuildOutV<crate::directives::PriceV> {
    match crate::syntax::spec_scan_dated_kw(s, i, "price"@) {
        Some(p) => {
            if i < p <= s.len() {
                match crate::scan::spec_scan_commodity(s, p) {
                    Some(c) => {
                        if p < c <= s.len() {
                            let aj = spec_skip_ws(s, c);
                            if c <= aj <= s.len() {
                                match spec_build_amount(s, aj) {
                                    BuildOutV::Got(a, ae) => {
                                        if aj < ae <= s.len() {
                                            match spec_build_meta(s, ae, roots) {
                                                BuildOutV::Got(m, e) => BuildOutV::Got(
                                                    crate::directives::PriceV {
                                                        date: s.subrange(
                                                            i,
                                                            crate::scan::spec_scan_date(
                                                                s,
                                                                i,
                                                            )->Some_0,
                                                        ),
                                                        currency: s.subrange(p, c),
                                                        amount: a,
                                                        meta: m,
                                                        source: Some(s.subrange(i, e)),
                                                    },
                                                    e,
                                                ),
                                                BuildOutV::NoMatch => BuildOutV::Fail(
                                                    ErrorKindV::Input(
                                                        "expected end of line"@,
                                                    ),
                                                    spec_skip_ws(s, ae),
                                                ),
                                                BuildOutV::Fail(k, off) => BuildOutV::Fail(
                                                    k,
                                                    off,
                                                ),
                                            }
                                        } else {
                                            BuildOutV::NoMatch
                                        }
                                    },
                                    BuildOutV::NoMatch => BuildOutV::Fail(
                                        ErrorKindV::Input("expected amount"@),
                                        aj,
                                    ),
                                    BuildOutV::Fail(k, off) => BuildOutV::Fail(k, off),
                                }
                            } else {
                                BuildOutV::NoMatch
                            }
                        } else {
                            BuildOutV::NoMatch
                        }
                    },
                    None => BuildOutV::Fail(ErrorKindV::Input("expected commodity"@), p),
                }
            } else {
                BuildOutV::NoMatch
            }
        },
        None => BuildOutV::NoMatch,
    }
}

pub fn build_price_directive(s: &Vec<char>, i: usize, roots: &RootNames) -> (r: Result<
    Option<(crate::directives::Price, usize)>,
    ParseError,
>)
    requires
        i <= s@.len(),
        s@.len() < usize::MAX,
    ensures
        match r {
            Ok(Some((o, e))) => spec_build_price_directive(s@, i as int, roots@)
                == BuildOutV::Got(o@, e as int) && crate::directives::spec_dir_valid(
                crate::directives::DirectiveV::Price(o@),
            ) && i < e <= s@.len(),
            Ok(None) => spec_build_price_directive(s@, i as int, roots@) is NoMatch,
            Err(pe) => spec_build_price_directive(s@, i as int, roots@) matches BuildOutV::Fail(
                k,
                off,
            ) && err_matches(s@, pe@, k, off),
        },
{
    proof {
        reveal(spec_build_price_directive);
    }
    let (date, p) = match build_dated(s, i, "price") {
        Some(x) => x,
        None => {
            return Ok(None);
        },
    };
    let c = match crate::scan::scan_commodity(s, p) {
        Some(c) => c,
        None => {
            return Err(err_input_at(s, p, "expected commodity"));
        },
    };
    let currency = copy_range(s, p, c);
    let aj = skip_ws(s, c);
    let (amount, ae) = match build_amount(s, aj)? {
        Some(x) => x,
        None => {
            return Err(err_input_at(s, aj, "expected amount"));
        },
    };
    let (meta, e) = match build_meta(s, ae, roots)? {
        Some(x) => x,
        None => {
            let j = skip_ws(s, ae);
            return Err(err_input_at(s, j, "expected end of line"));
        },
    };
    let source = copy_range(s, i, e);
    proof {
        crate::chars::lemma_chars_deep_view(source);
    }
    Ok(
        Some(
            (
                crate::directives::Price { date, currency, amount, meta, source: Some(source) },
                e,
            ),
        ),
    )
}

} // verus!

// Document, open and custom builders.

verus! {

/// `DATE document ACCOUNT "PATH" [tags and links]` with metadata.
#[verifier::opaque]
pub open spec fn spec_build_document(s: Seq<char>, i: int, roots: RootNamesV) -> BuildOutV<
    crate::directives::DocumentV,
> {
    match crate::syntax::spec_scan_dated_kw(s, i, "document"@) {
        Some(p) => {
            if i < p <= s.len() {
                match spec_build_account(s, p, roots) {
                    BuildOutV::Got(a, ae) => {
                        if p < ae <= s.len() {
                            let qj = spec_skip_ws(s, ae);
                            if ae <= qj <= s.len() {
                                match crate::scan::spec_scan_quoted(s, qj) {
                                    Some(q) => {
                                        if qj < q <= s.len() {
                                            let tl = spec_header_tl(
                                                s,
                                                q,
                                                Seq::empty(),
                                                Seq::empty(),
                                            );
                                            if q <= tl.2 <= s.len() {
                                                match spec_build_meta(s, tl.2, roots) {
                                                    BuildOutV::Got(m, e) => BuildOutV::Got(
                                                        crate::directives::DocumentV {
                                                            date: s.subrange(
                                                                i,
                                                                crate::scan::spec_scan_date(
                                                                    s,
                                                                    i,
                                                                )->Some_0,
                                                            ),
                                                            account: a,
                                                            path: s.subrange(
                                                                qj + 1,
                                                                q - 1,
                                                            ),
                                                            tags: tl.0,
                                                            links: tl.1,
                                                            meta: m,
                                                            source: Some(
                                                                s.subrange(i, e),
                                                            ),
                                                        },
                                                        e,
                                                    ),
                                                    BuildOutV::NoMatch => BuildOutV::Fail(
                                                        ErrorKindV::Input(
                                                            "expected end of line"@,
                                                        ),
                                                        spec_skip_ws(s, tl.2),
                                                    ),
                                                    BuildOutV::Fail(k, off) =>
                                                        BuildOutV::Fail(k, off),
                                                }
                                            } else {
                                                BuildOutV::NoMatch
                                            }
                                        } else {
                                            BuildOutV::NoMatch
                                        }
                                    },
                                    None => BuildOutV::Fail(
                                        ErrorKindV::Input("expected quoted string"@),
                                        qj,
                                    ),
                                }
                            } else {
                                BuildOutV::NoMatch
                            }
                        } else {
                            BuildOutV::NoMatch
                        }
                    },
                    BuildOutV::NoMatch => BuildOutV::Fail(
                        ErrorKindV::Input("expected an account name"@),
                        p,
                    ),
                    BuildOutV::Fail(k, off) => BuildOutV::Fail(k, off),
                }
            } else {
                BuildOutV::NoMatch
            }
        },
        None => BuildOutV::NoMatch,
    }
}

pub fn build_document(s: &Vec<char>, i: usize, roots: &RootNames) -> (r: Result<
    Option<(crate::directives::Document, usize)>,
    ParseError,
>)
    requires
        i <= s@.len(),
        s@.len() < usize::MAX,
    ensures
        match r {
            Ok(Some((o, e))) => spec_build_document(s@, i as int, roots@) == BuildOutV::Got(
                o@,
                e as int,
            ) && crate::directives::spec_dir_valid(
                crate::directives::DirectiveV::Document(o@),
            ) && i < e <= s@.len(),
            Ok(None) => spec_build_document(s@, i as int, roots@) is NoMatch,
            Err(pe) => spec_build_document(s@, i as int, roots@) matches BuildOutV::Fail(
                k,
                off,
            ) && err_matches(s@, pe@, k, off),
        },
{
    proof {
        reveal(spec_build_document);
    }
    let (date, p) = match build_dated(s, i, "document") {
        Some(x) => x,
        None => {
            return Ok(None);
        },
    };
    let (account, ae) = match build_account(s, p, roots)? {
        Some(x) => x,
        None => {
            return Err(err_input_at(s, p, "expected an account name"));
        },
    };
    let qj = skip_ws(s, ae);
    let (path, q) = match build_quoted(s, qj) {
        Some(x) => x,
        None => {
            return Err(err_input_at(s, qj, "expected quoted string"));
        },
    };
    let mut tags: Vec<Vec<char>> = Vec::new();
    let mut links: Vec<Vec<char>> = Vec::new();
    proof {
        crate::chars::lemma_deep_view_empty(tags);
        crate::chars::lemma_deep_view_empty(links);
    }
    let tlend = header_tl(s, q, &mut tags, &mut links);
    let (meta, e) = match build_meta(s, tlend, roots)? {
        Some(x) => x,
        None => {
            let j = skip_ws(s, tlend);
            return Err(err_input_at(s, j, "expected end of line"));
        },
    };
    let source = copy_range(s, i, e);
    proof {
        crate::chars::lemma_chars_deep_view(source);
    }
    Ok(
        Some(
            (
                crate::directives::Document {
                    date,
                    account,
                    path,
                    tags,
                    links,
                    meta,
                    source: Some(source),
                },
                e,
            ),
        ),
    )
}

/// The commodities listed on an `open`, in order.
pub open spec fn spec_open_currencies(s: Seq<char>, i: int, acc: Seq<Seq<char>>) -> (
    Seq<Seq<char>>,
    int,
)
    decreases s.len() - i,
{
    let j = spec_skip_ws(s, i);
    if i <= j <= s.len() {
        match crate::scan::spec_scan_commodity(s, j) {
            Some(c) => {
                if i < c <= s.len() {
                    spec_open_currencies(s, c, acc.push(s.subrange(j, c)))
                } else {
                    (acc, i)
                }
            },
            None => (acc, i),
        }
    } else {
        (acc, i)
    }
}

pub fn open_currencies(s: &Vec<char>, i: usize, acc: &mut Vec<Vec<char>>) -> (e: usize)
    requires
        i <= s@.len(),
    ensures
        (final(acc).deep_view(), e as int) == spec_open_currencies(
            s@,
            i as int,
            old(acc).deep_view(),
        ),
        i <= e <= s@.len(),
{
    let mut pos = i;
    loop
        invariant
            i <= pos <= s@.len(),
            spec_open_currencies(s@, i as int, old(acc).deep_view()) == spec_open_currencies(
                s@,
                pos as int,
                acc.deep_view(),
            ),
        decreases s@.len() - pos,
    {
        let j = skip_ws(s, pos);
        match crate::scan::scan_commodity(s, j) {
            Some(c) => {
                let ghost prev = *acc;
                let cur = copy_range(s, j, c);
                acc.push(cur);
                proof {
                    crate::chars::lemma_deep_view_push(*acc, prev, cur);
                    crate::chars::lemma_chars_deep_view(cur);
                }
                pos = c;
            },
            None => {
                return pos;
            },
        }
    }
}

/// `DATE open ACCOUNT [CUR ...] ["booking"]` with metadata.  A booking
/// string that names no method is the error "unknown booking method ..."
/// at the string's position; an absent booking string means `Strict`.
#[verifier::opaque]
pub open spec fn spec_build_open(s: Seq<char>, i: int, roots: RootNamesV) -> BuildOutV<
    crate::directives::OpenV,
> {
    match crate::syntax::spec_scan_dated_kw(s, i, "open"@) {
        Some(p) => {
            if i < p <= s.len() {
                match spec_build_account(s, p, roots) {
                    BuildOutV::Got(a, ae) => {
                        if p < ae <= s.len() {
                            let cs = spec_open_currencies(s, ae, Seq::empty());
                            if ae <= cs.1 <= s.len() {
                                let bj = spec_skip_ws(s, cs.1);
                                if cs.1 <= bj <= s.len() {
                                    match crate::scan::spec_scan_quoted(s, bj) {
                                        Some(bq) => {
                                            if bj < bq <= s.len() {
                                                match spec_booking_of(
                                                    s.subrange(bj + 1, bq - 1),
                                                ) {
                                                    Some(bk) => spec_open_finish(
                                                        s,
                                                        i,
                                                        a,
                                                        cs.0,
                                                        bk,
                                                        bq,
                                                        roots,
                                                    ),
                                                    None => BuildOutV::Fail(
                                                        ErrorKindV::Input(
                                                            "unknown booking method "@
                                                                + s.subrange(bj, bq),
                                                        ),
                                                        bj,
                                                    ),
                                                }
                                            } else {
                                                BuildOutV::NoMatch
                                            }
                                        },
                                        None => spec_open_finish(
                                            s,
                                            i,
                                            a,
                                            cs.0,
                                            crate::model::Booking::Strict,
                                            cs.1,
                                            roots,
                                        ),
                                    }
                                } else {
                                    BuildOutV::NoMatch
                                }
                            } else {
                                BuildOutV::NoMatch
                            }
                        } else {
                            BuildOutV::NoMatch
                        }
                    },
                    BuildOutV::NoMatch => BuildOutV::Fail(
                        ErrorKindV::Input("expected an account name"@),
                        p,
                    ),
                    BuildOutV::Fail(k, off) => BuildOutV::Fail(k, off),
                }
            } else {
                BuildOutV::NoMatch
            }
        },
        None => BuildOutV::NoMatch,
    }
}

pub open spec fn spec_open_finish(
    s: Seq<char>,
    i: int,
    a: AccountV,
    currencies: Seq<Seq<char>>,
    booking: crate::model::Booking,
    after: int,
    roots: RootNamesV,
) -> BuildOutV<crate::directives::OpenV> {
    match spec_build_meta(s, after, roots) {
        BuildOutV::Got(m, e) => BuildOutV::Got(
            crate::directives::OpenV {
                date: s.subrange(i, crate::scan::spec_scan_date(s, i)->Some_0),
                account: a,
                currencies,
                booking,
                meta: m,
                source: Some(s.subrange(i, e)),
            },
            e,
        ),
        BuildOutV::NoMatch => BuildOutV::Fail(
            ErrorKindV::Input("expected end of line"@),
            spec_skip_ws(s, after),
        ),
        BuildOutV::Fail(k, off) => BuildOutV::Fail(k, off),
    }
}

pub fn build_open(s: &Vec<char>, i: usize, roots: &RootNames) -> (r: Result<
    Option<(crate::directives::Open, usize)>,
    ParseError,
>)
    requires
        i <= s@.len(),
        s@.len() < usize::MAX,
    ensures
        match r {
            Ok(Some((o, e))) => spec_build_open(s@, i as int, roots@) == BuildOutV::Got(
                o@,
                e as int,
            ) && crate::directives::spec_dir_valid(crate::directives::DirectiveV::Open(o@)) && i
                < e <= s@.len(),
            Ok(None) => spec_build_open(s@, i as int, roots@) is NoMatch,
            Err(pe) => spec_build_open(s@, i as int, roots@) matches BuildOutV::Fail(k, off)
                && err_matches(s@, pe@, k, off),
        },
{
    proof {
        reveal(spec_build_open);
    }
    let (date, p) = match build_dated(s, i, "open") {
        Some(x) => x,
        None => {
            return Ok(None);
        },
    };
    let (account, ae) = match build_account(s, p, roots)? {
        Some(x) => x,
        None => {
            return Err(err_input_at(s, p, "expected an account name"));
        },
    };
    let mut currencies: Vec<Vec<char>> = Vec::new();
    proof {
        crate::chars::lemma_deep_view_empty(currencies);
    }
    let ce = open_currencies(s, ae, &mut currencies);
    let bj = skip_ws(s, ce);
    let mut booking = crate::model::Booking::Strict;
    let mut after = ce;
    match build_quoted(s, bj) {
        Some((bt, bq)) => {
            match booking_of(&bt) {
                Some(bk) => {
                    booking = bk;
                    after = bq;
                },
                None => {
                    let mut msg = crate::chars::chars_of_str("unknown booking method ");
                    let tok = copy_range(s, bj, bq);
                    crate::chars::append_chars(&mut msg, &tok);
                    return Err(err_input_msg_at(s, bj, msg));
                },
            }
        },
        None => {},
    }
    let (meta, e) = match build_meta(s, after, roots)? {
        Some(x) => x,
        None => {
            let j = skip_ws(s, after);
            return Err(err_input_at(s, j, "expected end of line"));
        },
    };
    let source = copy_range(s, i, e);
    proof {
        crate::chars::lemma_chars_deep_view(source);
    }
    Ok(
        Some(
            (
                crate::directives::Open {
                    date,
                    account,
                    currencies,
                    booking,
                    meta,
                    source: Some(source),
                },
                e,
            ),
        ),
    )
}

/// The arguments of a `custom` directive: quoted strings keep their inner
/// text, other values keep their raw text.
pub open spec fn spec_custom_args(s: Seq<char>, i: int, acc: Seq<Seq<char>>) -> (
    Seq<Seq<char>>,
    int,
)
    decreases s.len() - i,
{
    let j = spec_skip_ws(s, i);
    if i <= j <= s.len() {
        match crate::syntax::spec_scan_custom_value(s, j) {
            Some(e) => {
                if i < e <= s.len() {
                    let arg = if crate::scan::spec_scan_quoted(s, j) is Some {
                        s.subrange(j + 1, crate::scan::spec_scan_quoted(s, j)->Some_0 - 1)
                    } else {
                        s.subrange(j, e)
                    };
                    spec_custom_args(s, e, acc.push(arg))
                } else {
                    (acc, i)
                }
            },
            None => (acc, i),
        }
    } else {
        (acc, i)
    }
}

pub fn custom_args(s: &Vec<char>, i: usize, acc: &mut Vec<Vec<char>>) -> (e: usize)
    requires
        i <= s@.len(),
    ensures
        (final(acc).deep_view(), e as int) == spec_custom_args(
            s@,
            i as int,
            old(acc).deep_view(),
        ),
        i <= e <= s@.len(),
{
    let mut pos = i;
    loop
        invariant
            i <= pos <= s@.len(),
            spec_custom_args(s@, i as int, old(acc).deep_view()) == spec_custom_args(
                s@,
                pos as int,
                acc.deep_view(),
            ),
        decreases s@.len() - pos,
    {
        let j = skip_ws(s, pos);
        match crate::syntax::scan_custom_value(s, j) {
            Some(e) => {
                let ghost prev = *acc;
                let arg = match crate::scan::scan_quoted(s, j) {
                    Some(q) => {
                        proof {
                            crate::scan::lemma_quoted_inner_bounds(s@, j + 1);
                        }
                        copy_range(s, j + 1, q - 1)
                    },
                    None => copy_range(s, j, e),
                };
                acc.push(arg);
                proof {
                    crate::chars::lemma_deep_view_push(*acc, prev, arg);
                    crate::chars::lemma_chars_deep_view(arg);
                }
                pos = e;
            },
            None => {
                return pos;
            },
        }
    }
}

/// `DATE custom "NAME" [VALUE ...]` with metadata.
#[verifier::opaque]
pub open spec fn spec_build_custom(s: Seq<char>, i: int, roots: RootNamesV) -> BuildOutV<
    crate::directives::CustomV,
> {
    match crate::syntax::spec_scan_dated_kw(s, i, "custom"@) {
        Some(p) => {
            if i < p <= s.len() {
                match crate::scan::spec_scan_quoted(s, p) {
                    Some(q) => {
                        if p < q <= s.len() {
                            let ar = spec_custom_args(s, q, Seq::empty());
                            if q <= ar.1 <= s.len() {
                                match spec_build_meta(s, ar.1, roots) {
                                    BuildOutV::Got(m, e) => BuildOutV::Got(
                                        crate::directives::CustomV {
                                            date: s.subrange(
                                                i,
                                                crate::scan::spec_scan_date(s, i)->Some_0,
                                            ),
                                            name: s.subrange(p + 1, q - 1),
                                            args: ar.0,
                                            meta: m,
                                            source: Some(s.subrange(i, e)),
                                        },
                                        e,
                                    ),
                                    BuildOutV::NoMatch => BuildOutV::Fail(
                                        ErrorKindV::Input("expected end of line"@),
                                        spec_skip_ws(s, ar.1),
                                    ),
                                    BuildOutV::Fail(k, off) => BuildOutV::Fail(k, off),
                                }
                            } else {
                                BuildOutV::NoMatch
                            }
                        } else {
                            BuildOutV::NoMatch
                        }
                    },
                    None => BuildOutV::Fail(
                        ErrorKindV::Input("expected quoted string"@),
                        p,
                    ),
                }
            } else {
                BuildOutV::NoMatch
            }
        },
        None => BuildOutV::NoMatch,
    }
}

pub fn build_custom(s: &Vec<char>, i: usize, roots: &RootNames) -> (r: Result<
    Option<(crate::directives::Custom, usize)>,
    ParseError,
>)
    requires
        i <= s@.len(),
        s@.len() < usize::MAX,
    ensures
        match r {
            Ok(Some((o, e))) => spec_build_custom(s@, i as int, roots@) == BuildOutV::Got(
                o@,
                e as int,
            ) && crate::directives::spec_dir_valid(crate::directives::DirectiveV::Custom(o@))
                && i < e <= s@.len(),
            Ok(None) => spec_build_custom(s@, i as int, roots@) is NoMatch,
            Err(pe) => spec_build_custom(s@, i as int, roots@) matches BuildOutV::Fail(k, off)
                && err_matches(s@, pe@, k, off),
        },
{
    proof {
        reveal(spec_build_custom);
    }
    let (date, p) = match build_dated(s, i, "custom") {
        Some(x) => x,
        None => {
            return Ok(None);
        },
    };
    let (name, q) = match build_quoted(s, p) {
        Some(x) => x,
        None => {
            return Err(err_input_at(s, p, "expected quoted string"));
        },
    };
    let mut args: Vec<Vec<char>> = Vec::new();
    proof {
        crate::chars::lemma_deep_view_empty(args);
    }
    let ae = custom_args(s, q, &mut args);
    let (meta, e) = match build_meta(s, ae, roots)? {
        Some(x) => x,
        None => {
            let j = skip_ws(s, ae);
            return Err(err_input_at(s, j, "expected end of line"));
        },
    };
    let source = copy_range(s, i, e);
    proof {
        crate::chars::lemma_chars_deep_view(source);
    }
    Ok(
        Some(
            (crate::directives::Custom { date, name, args, meta, source: Some(source) }, e),
        ),
    )
}

} // verus!
