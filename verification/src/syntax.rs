//! Structural grammar: recognizers for the productions built from tokens.
//!
//! As in `scan`, every recognizer has a spec mirror returning the end
//! position of the match.  The recognizers are pure: they know nothing of
//! root-account names or decimal conversion, which are the constructor's
//! concern.

use vstd::prelude::*;
use crate::chars::{hspace, spec_hspace};
use crate::scan::{
    match_lit, match_word, opt_end_eq, scan_account, scan_bool, scan_commodity, scan_date, scan_eol,
    scan_flag, scan_key, scan_link, scan_num, scan_quoted, scan_tag, skip_to_eol, skip_ws,
    spec_match_lit, spec_scan_account, spec_scan_bool, spec_scan_commodity, spec_scan_date,
    spec_scan_eol, spec_scan_flag, spec_scan_key, spec_scan_link, spec_scan_num,
    spec_scan_quoted, spec_scan_tag, spec_skip_to_eol, spec_skip_ws,
};

verus! {

// ---------------------------------------------------------------------------
// Numeric expressions.
// ---------------------------------------------------------------------------

pub open spec fn spec_op_char(c: char) -> bool {
    c == '+' || c == '-' || c == '*' || c == '/'
}

/// A term: prefix signs, then a number or a parenthesized expression.
pub open spec fn spec_scan_term(s: Seq<char>, i: int) -> Option<int>
    decreases s.len() - i, 0int,
{
    if 0 <= i < s.len() {
        if s[i] == '+' || s[i] == '-' {
            let j = spec_skip_ws(s, i + 1);
            if i < j <= s.len() {
                spec_scan_term(s, j)
            } else {
                None
            }
        } else if s[i] == '(' {
            let j = spec_skip_ws(s, i + 1);
            if i < j <= s.len() {
                match spec_scan_num_expr(s, j) {
                    Some(k) => {
                        if j <= k <= s.len() {
                            let m = spec_skip_ws(s, k);
                            if k <= m < s.len() && s[m] == ')' {
                                Some(m + 1)
                            } else {
                                None
                            }
                        } else {
                            None
                        }
                    },
                    None => None,
                }
            } else {
                None
            }
        } else {
            spec_scan_num(s, i)
        }
    } else {
        None
    }
}

/// Infix operators and their right operands, as far as they reach.
pub open spec fn spec_scan_expr_rest(s: Seq<char>, j: int) -> int
    decreases s.len() - j, 2int,
{
    let j2 = spec_skip_ws(s, j);
    if j <= j2 < s.len() && spec_op_char(s[j2]) {
        let j3 = spec_skip_ws(s, j2 + 1);
        if j < j3 <= s.len() {
            match spec_scan_term(s, j3) {
                Some(t) => {
                    if j < t <= s.len() {
                        spec_scan_expr_rest(s, t)
                    } else {
                        j
                    }
                },
                None => j,
            }
        } else {
            j
        }
    } else {
        j
    }
}

/// A numeric expression: a term followed by infix operations.
pub open spec fn spec_scan_num_expr(s: Seq<char>, i: int) -> Option<int>
    decreases s.len() - i, 1int,
{
    match spec_scan_term(s, i) {
        Some(t) => {
            if i < t <= s.len() {
                Some(spec_scan_expr_rest(s, t))
            } else {
                None
            }
        },
        None => None,
    }
}

pub fn scan_term(s: &Vec<char>, i: usize) -> (r: Option<usize>)
    requires
        i <= s@.len(),
    ensures
        opt_end_eq(r, spec_scan_term(s@, i as int)),
        r matches Some(j) ==> i < j <= s@.len(),
    decreases s@.len() - i, 0int,
{
    if i < s.len() {
        if s[i] == '+' || s[i] == '-' {
            let j = skip_ws(s, i + 1);
            scan_term(s, j)
        } else if s[i] == '(' {
            let j = skip_ws(s, i + 1);
            match scan_num_expr(s, j) {
                Some(k) => {
                    let m = skip_ws(s, k);
                    if m < s.len() && s[m] == ')' {
                        Some(m + 1)
                    } else {
                        None
                    }
                },
                None => None,
            }
        } else {
            scan_num(s, i)
        }
    } else {
        None
    }
}

pub fn scan_expr_rest(s: &Vec<char>, j: usize) -> (r: usize)
    requires
        j <= s@.len(),
    ensures
        r as int == spec_scan_expr_rest(s@, j as int),
        j <= r <= s@.len(),
    decreases s@.len() - j, 2int,
{
    let mut pos = j;
    loop
        invariant
            j <= pos <= s@.len(),
            spec_scan_expr_rest(s@, j as int) == spec_scan_expr_rest(s@, pos as int),
        decreases s@.len() - pos,
    {
        let j2 = skip_ws(s, pos);
        if j2 < s.len() && (s[j2] == '+' || s[j2] == '-' || s[j2] == '*' || s[j2] == '/') {
            let j3 = skip_ws(s, j2 + 1);
            match scan_term(s, j3) {
                Some(t) => {
                    pos = t;
                },
                None => {
                    return pos;
                },
            }
        } else {
            return pos;
        }
    }
}

pub fn scan_num_expr(s: &Vec<char>, i: usize) -> (r: Option<usize>)
    requires
        i <= s@.len(),
    ensures
        opt_end_eq(r, spec_scan_num_expr(s@, i as int)),
        r matches Some(j) ==> i < j <= s@.len(),
    decreases s@.len() - i, 1int,
{
    match scan_term(s, i) {
        Some(t) => Some(scan_expr_rest(s, t)),
        None => None,
    }
}

// ---------------------------------------------------------------------------
// Amounts.
// ---------------------------------------------------------------------------

/// A full amount: a numeric expression and a commodity.
pub open spec fn spec_scan_amount(s: Seq<char>, i: int) -> Option<int> {
    match spec_scan_num_expr(s, i) {
        Some(n) => {
            if i < n <= s.len() {
                spec_scan_commodity(s, spec_skip_ws(s, n))
            } else {
                None
            }
        },
        None => None,
    }
}

pub fn scan_amount(s: &Vec<char>, i: usize) -> (r: Option<usize>)
    requires
        i <= s@.len(),
    ensures
        opt_end_eq(r, spec_scan_amount(s@, i as int)),
        r matches Some(j) ==> i < j <= s@.len(),
{
    match scan_num_expr(s, i) {
        Some(n) => scan_commodity(s, skip_ws(s, n)),
        None => None,
    }
}

/// A balance amount: a numeric expression, an optional `~ tolerance`, and a
/// commodity.
pub open spec fn spec_scan_amount_tolerance(s: Seq<char>, i: int) -> Option<int> {
    match spec_scan_num_expr(s, i) {
        Some(n) => {
            if i < n <= s.len() {
                let j = spec_skip_ws(s, n);
                if n <= j < s.len() && s[j] == '~' {
                    let k = spec_skip_ws(s, j + 1);
                    if j < k <= s.len() {
                        match spec_scan_num(s, k) {
                            Some(t) => {
                                if k < t <= s.len() {
                                    spec_scan_commodity(s, spec_skip_ws(s, t))
                                } else {
                                    None
                                }
                            },
                            None => None,
                        }
                    } else {
                        None
                    }
                } else {
                    spec_scan_commodity(s, j)
                }
            } else {
                None
            }
        },
        None => None,
    }
}

pub fn scan_amount_tolerance(s: &Vec<char>, i: usize) -> (r: Option<usize>)
    requires
        i <= s@.len(),
    ensures
        opt_end_eq(r, spec_scan_amount_tolerance(s@, i as int)),
        r matches Some(j) ==> i < j <= s@.len(),
{
    match scan_num_expr(s, i) {
        Some(n) => {
            let j = skip_ws(s, n);
            if j < s.len() && s[j] == '~' {
                let k = skip_ws(s, j + 1);
                match scan_num(s, k) {
                    Some(t) => scan_commodity(s, skip_ws(s, t)),
                    None => None,
                }
            } else {
                scan_commodity(s, j)
            }
        },
        None => None,
    }
}

/// An amount whose number and/or commodity may be elided (but not both).
pub open spec fn spec_scan_incomplete_amount(s: Seq<char>, i: int) -> Option<int> {
    match spec_scan_num_expr(s, i) {
        Some(n) => {
            if i < n <= s.len() {
                match spec_scan_commodity(s, spec_skip_ws(s, n)) {
                    Some(c) => Some(c),
                    None => Some(n),
                }
            } else {
                None
            }
        },
        None => spec_scan_commodity(s, i),
    }
}

pub fn scan_incomplete_amount(s: &Vec<char>, i: usize) -> (r: Option<usize>)
    requires
        i <= s@.len(),
    ensures
        opt_end_eq(r, spec_scan_incomplete_amount(s@, i as int)),
        r matches Some(j) ==> i < j <= s@.len(),
{
    match scan_num_expr(s, i) {
        Some(n) => {
            match scan_commodity(s, skip_ws(s, n)) {
                Some(c) => Some(c),
                None => Some(n),
            }
        },
        None => scan_commodity(s, i),
    }
}

// ---------------------------------------------------------------------------
// Metadata values and key/value pairs.
// ---------------------------------------------------------------------------

/// A metadata value, tried in order: quoted string, account, date, boolean,
/// tag, amount, numeric expression, commodity.
pub open spec fn spec_scan_value(s: Seq<char>, i: int) -> Option<int> {
    if spec_scan_quoted(s, i) is Some {
        spec_scan_quoted(s, i)
    } else if spec_scan_account(s, i) is Some {
        spec_scan_account(s, i)
    } else if spec_scan_date(s, i) is Some {
        spec_scan_date(s, i)
    } else if spec_scan_bool(s, i) is Some {
        spec_scan_bool(s, i)
    } else if spec_scan_tag(s, i) is Some {
        spec_scan_tag(s, i)
    } else if spec_scan_amount(s, i) is Some {
        spec_scan_amount(s, i)
    } else if spec_scan_num_expr(s, i) is Some {
        spec_scan_num_expr(s, i)
    } else {
        spec_scan_commodity(s, i)
    }
}

pub fn scan_value(s: &Vec<char>, i: usize) -> (r: Option<usize>)
    requires
        i <= s@.len(),
    ensures
        opt_end_eq(r, spec_scan_value(s@, i as int)),
        r matches Some(j) ==> i < j <= s@.len(),
{
    if let Some(j) = scan_quoted(s, i) {
        Some(j)
    } else if let Some(j) = scan_account(s, i) {
        Some(j)
    } else if let Some(j) = scan_date(s, i) {
        Some(j)
    } else if let Some(j) = scan_bool(s, i) {
        Some(j)
    } else if let Some(j) = scan_tag(s, i) {
        Some(j)
    } else if let Some(j) = scan_amount(s, i) {
        Some(j)
    } else if let Some(j) = scan_num_expr(s, i) {
        Some(j)
    } else {
        scan_commodity(s, i)
    }
}

/// A key, a colon, and a value.
pub open spec fn spec_scan_key_value(s: Seq<char>, i: int) -> Option<int> {
    match spec_scan_key(s, i) {
        Some(k) => {
            if k < s.len() && s[k] == ':' {
                let j = spec_skip_ws(s, k + 1);
                if k < j <= s.len() {
                    spec_scan_value(s, j)
                } else {
                    None
                }
            } else {
                None
            }
        },
        None => None,
    }
}

pub fn scan_key_value(s: &Vec<char>, i: usize) -> (r: Option<usize>)
    requires
        i <= s@.len(),
    ensures
        opt_end_eq(r, spec_scan_key_value(s@, i as int)),
        r matches Some(j) ==> i < j <= s@.len(),
{
    match scan_key(s, i) {
        Some(k) => {
            if k < s.len() && s[k] == ':' {
                let j = skip_ws(s, k + 1);
                scan_value(s, j)
            } else {
                None
            }
        },
        None => None,
    }
}

/// One line of a metadata block: indentation, then either nothing (a blank
/// or comment line) or a key/value pair, then the line end.
pub open spec fn spec_scan_kv_line(s: Seq<char>, i: int) -> Option<int> {
    if 0 <= i < s.len() && spec_hspace(s[i]) {
        let j = spec_skip_ws(s, i);
        if i < j <= s.len() {
            match spec_scan_eol(s, j) {
                Some(e) => Some(e),
                None => {
                    match spec_scan_key_value(s, j) {
                        Some(k) => {
                            if j < k <= s.len() {
                                spec_scan_eol(s, spec_skip_ws(s, k))
                            } else {
                                None
                            }
                        },
                        None => None,
                    }
                },
            }
        } else {
            None
        }
    } else {
        None
    }
}

pub fn scan_kv_line(s: &Vec<char>, i: usize) -> (r: Option<usize>)
    requires
        i <= s@.len(),
    ensures
        opt_end_eq(r, spec_scan_kv_line(s@, i as int)),
        r matches Some(j) ==> i < j <= s@.len(),
{
    if i < s.len() && hspace(s[i]) {
        let j = skip_ws(s, i);
        match scan_eol(s, j) {
            Some(e) => Some(e),
            None => {
                match scan_key_value(s, j) {
                    Some(k) => scan_eol(s, skip_ws(s, k)),
                    None => None,
                }
            },
        }
    } else {
        None
    }
}

/// The lines of a metadata block, as far as they reach.
pub open spec fn spec_scan_kv_lines(s: Seq<char>, i: int) -> int
    decreases s.len() - i,
{
    match spec_scan_kv_line(s, i) {
        Some(j) => {
            if i < j <= s.len() {
                spec_scan_kv_lines(s, j)
            } else {
                i
            }
        },
        None => i,
    }
}

pub fn scan_kv_lines(s: &Vec<char>, i: usize) -> (r: usize)
    requires
        i <= s@.len(),
    ensures
        r as int == spec_scan_kv_lines(s@, i as int),
        i <= r <= s@.len(),
{
    let mut pos = i;
    loop
        invariant
            i <= pos <= s@.len(),
            spec_scan_kv_lines(s@, i as int) == spec_scan_kv_lines(s@, pos as int),
        decreases s@.len() - pos,
    {
        match scan_kv_line(s, pos) {
            Some(j) => {
                pos = j;
            },
            None => {
                return pos;
            },
        }
    }
}

/// The metadata block after a directive: optional trailing whitespace and
/// comment, the line end, and the indented key/value lines.
pub open spec fn spec_scan_meta(s: Seq<char>, i: int) -> Option<int> {
    let j = spec_skip_ws(s, i);
    if i <= j <= s.len() {
        match spec_scan_eol(s, j) {
            Some(e) => {
                if j <= e <= s.len() {
                    Some(spec_scan_kv_lines(s, e))
                } else {
                    None
                }
            },
            None => None,
        }
    } else {
        None
    }
}

pub fn scan_meta(s: &Vec<char>, i: usize) -> (r: Option<usize>)
    requires
        i <= s@.len(),
    ensures
        opt_end_eq(r, spec_scan_meta(s@, i as int)),
        r matches Some(j) ==> i <= j <= s@.len(),
{
    let j = skip_ws(s, i);
    match scan_eol(s, j) {
        Some(e) => Some(scan_kv_lines(s, e)),
        None => None,
    }
}

/// The plain end of a directive line: optional whitespace and comment, then
/// the line end.
pub open spec fn spec_scan_line_end(s: Seq<char>, i: int) -> Option<int> {
    spec_scan_eol(s, spec_skip_ws(s, i))
}

pub fn scan_line_end(s: &Vec<char>, i: usize) -> (r: Option<usize>)
    requires
        i <= s@.len(),
    ensures
        opt_end_eq(r, spec_scan_line_end(s@, i as int)),
        r matches Some(j) ==> i <= j <= s@.len(),
{
    scan_eol(s, skip_ws(s, i))
}

} // verus!

// The remainder of this file: postings, cost specifications, transactions,
// and the line-level directives.

verus! {

// ---------------------------------------------------------------------------
// Compound amounts and cost specifications.
// ---------------------------------------------------------------------------

/// A compound amount inside a cost: `PER [# TOTAL] [CUR]`, `# [TOTAL] [CUR]`,
/// or a bare commodity.
pub open spec fn spec_scan_compound_amount(s: Seq<char>, i: int) -> Option<int> {
    match spec_scan_num_expr(s, i) {
        Some(n) => {
            if i < n <= s.len() {
                let j = spec_skip_ws(s, n);
                let p = if n <= j < s.len() && s[j] == '#' {
                    let k = spec_skip_ws(s, j + 1);
                    if j < k <= s.len() {
                        match spec_scan_num_expr(s, k) {
                            Some(t) => t,
                            None => j + 1,
                        }
                    } else {
                        j + 1
                    }
                } else {
                    n
                };
                if i < p <= s.len() {
                    match spec_scan_commodity(s, spec_skip_ws(s, p)) {
                        Some(c) => Some(c),
                        None => Some(p),
                    }
                } else {
                    None
                }
            } else {
                None
            }
        },
        None => {
            if 0 <= i < s.len() && s[i] == '#' {
                let k = spec_skip_ws(s, i + 1);
                let p = if i < k <= s.len() {
                    match spec_scan_num_expr(s, k) {
                        Some(t) => t,
                        None => i + 1,
                    }
                } else {
                    i + 1
                };
                if i < p <= s.len() {
                    match spec_scan_commodity(s, spec_skip_ws(s, p)) {
                        Some(c) => Some(c),
                        None => Some(p),
                    }
                } else {
                    None
                }
            } else {
                spec_scan_commodity(s, i)
            }
        },
    }
}

pub fn scan_compound_amount(s: &Vec<char>, i: usize) -> (r: Option<usize>)
    requires
        i <= s@.len(),
    ensures
        opt_end_eq(r, spec_scan_compound_amount(s@, i as int)),
        r matches Some(j) ==> i < j <= s@.len(),
{
    match scan_num_expr(s, i) {
        Some(n) => {
            let j = skip_ws(s, n);
            let p = if j < s.len() && s[j] == '#' {
                let k = skip_ws(s, j + 1);
                match scan_num_expr(s, k) {
                    Some(t) => t,
                    None => j + 1,
                }
            } else {
                n
            };
            match scan_commodity(s, skip_ws(s, p)) {
                Some(c) => Some(c),
                None => Some(p),
            }
        },
        None => {
            if i < s.len() && s[i] == '#' {
                let k = skip_ws(s, i + 1);
                let p = match scan_num_expr(s, k) {
                    Some(t) => t,
                    None => i + 1,
                };
                match scan_commodity(s, skip_ws(s, p)) {
                    Some(c) => Some(c),
                    None => Some(p),
                }
            } else {
                scan_commodity(s, i)
            }
        },
    }
}

/// One component of a cost: a date, a label, a lone `*`, or a compound
/// amount.
pub open spec fn spec_scan_cost_comp(s: Seq<char>, i: int) -> Option<int> {
    if spec_scan_date(s, i) is Some {
        spec_scan_date(s, i)
    } else if spec_scan_quoted(s, i) is Some {
        spec_scan_quoted(s, i)
    } else if 0 <= i < s.len() && s[i] == '*' {
        Some(i + 1)
    } else {
        spec_scan_compound_amount(s, i)
    }
}

pub fn scan_cost_comp(s: &Vec<char>, i: usize) -> (r: Option<usize>)
    requires
        i <= s@.len(),
    ensures
        opt_end_eq(r, spec_scan_cost_comp(s@, i as int)),
        r matches Some(j) ==> i < j <= s@.len(),
{
    if let Some(j) = scan_date(s, i) {
        Some(j)
    } else if let Some(j) = scan_quoted(s, i) {
        Some(j)
    } else if i < s.len() && s[i] == '*' {
        Some(i + 1)
    } else {
        scan_compound_amount(s, i)
    }
}

/// Further comma-separated cost components, as far as they reach.
pub open spec fn spec_scan_comp_rest(s: Seq<char>, i: int) -> int
    decreases s.len() - i,
{
    let j = spec_skip_ws(s, i);
    if i <= j < s.len() && s[j] == ',' {
        let k = spec_skip_ws(s, j + 1);
        if i < k <= s.len() {
            match spec_scan_cost_comp(s, k) {
                Some(e) => {
                    if i < e <= s.len() {
                        spec_scan_comp_rest(s, e)
                    } else {
                        i
                    }
                },
                None => i,
            }
        } else {
            i
        }
    } else {
        i
    }
}

pub fn scan_comp_rest(s: &Vec<char>, i: usize) -> (r: usize)
    requires
        i <= s@.len(),
    ensures
        r as int == spec_scan_comp_rest(s@, i as int),
        i <= r <= s@.len(),
{
    let mut pos = i;
    loop
        invariant
            i <= pos <= s@.len(),
            spec_scan_comp_rest(s@, i as int) == spec_scan_comp_rest(s@, pos as int),
        decreases s@.len() - pos,
    {
        let j = skip_ws(s, pos);
        if j < s.len() && s[j] == ',' {
            let k = skip_ws(s, j + 1);
            match scan_cost_comp(s, k) {
                Some(e) => {
                    pos = e;
                },
                None => {
                    return pos;
                },
            }
        } else {
            return pos;
        }
    }
}

/// A cost specification: `{ ... }` per-unit or `{{ ... }}` total, holding an
/// optional comma-separated component list.
pub open spec fn spec_scan_cost_spec(s: Seq<char>, i: int) -> Option<int> {
    if spec_match_lit(s, i, "{{"@) {
        let j = spec_skip_ws(s, i + "{{"@.len());
        if i <= j <= s.len() {
            let m = match spec_scan_cost_comp(s, j) {
                Some(c) => {
                    if j < c <= s.len() {
                        spec_skip_ws(s, spec_scan_comp_rest(s, c))
                    } else {
                        j
                    }
                },
                None => j,
            };
            if 0 <= m <= s.len() && spec_match_lit(s, m, "}}"@) {
                Some(m + "}}"@.len())
            } else {
                None
            }
        } else {
            None
        }
    } else if 0 <= i < s.len() && s[i] == '{' {
        let j = spec_skip_ws(s, i + 1);
        if i <= j <= s.len() {
            let m = match spec_scan_cost_comp(s, j) {
                Some(c) => {
                    if j < c <= s.len() {
                        spec_skip_ws(s, spec_scan_comp_rest(s, c))
                    } else {
                        j
                    }
                },
                None => j,
            };
            if 0 <= m < s.len() && s[m] == '}' {
                Some(m + 1)
            } else {
                None
            }
        } else {
            None
        }
    } else {
        None
    }
}

pub fn scan_cost_spec(s: &Vec<char>, i: usize) -> (r: Option<usize>)
    requires
        i <= s@.len(),
    ensures
        opt_end_eq(r, spec_scan_cost_spec(s@, i as int)),
        r matches Some(j) ==> i < j <= s@.len(),
{
    proof {
        reveal_strlit("{{");
        reveal_strlit("}}");
    }
    let n = s.len();
    if match_lit(s, i, "{{") {
        let j = skip_ws(s, i + 2);
        let m = match scan_cost_comp(s, j) {
            Some(c) => skip_ws(s, scan_comp_rest(s, c)),
            None => j,
        };
        if match_lit(s, m, "}}") {
            Some(m + 2)
        } else {
            None
        }
    } else if i < s.len() && s[i] == '{' {
        let j = skip_ws(s, i + 1);
        let m = match scan_cost_comp(s, j) {
            Some(c) => skip_ws(s, scan_comp_rest(s, c)),
            None => j,
        };
        if m < s.len() && s[m] == '}' {
            Some(m + 1)
        } else {
            None
        }
    } else {
        None
    }
}

/// A price annotation: `@@` (total) or `@` (per-unit), then an amount whose
/// parts may be elided.
pub open spec fn spec_scan_price_annotation(s: Seq<char>, i: int) -> Option<int> {
    if spec_match_lit(s, i, "@@"@) {
        let j = spec_skip_ws(s, i + "@@"@.len());
        if i <= j <= s.len() {
            spec_scan_incomplete_amount(s, j)
        } else {
            None
        }
    } else if 0 <= i < s.len() && s[i] == '@' {
        let j = spec_skip_ws(s, i + 1);
        if i <= j <= s.len() {
            spec_scan_incomplete_amount(s, j)
        } else {
            None
        }
    } else {
        None
    }
}

pub fn scan_price_annotation(s: &Vec<char>, i: usize) -> (r: Option<usize>)
    requires
        i <= s@.len(),
    ensures
        opt_end_eq(r, spec_scan_price_annotation(s@, i as int)),
        r matches Some(j) ==> i < j <= s@.len(),
{
    proof {
        reveal_strlit("@@");
    }
    let n = s.len();
    if match_lit(s, i, "@@") {
        let j = skip_ws(s, i + 2);
        scan_incomplete_amount(s, j)
    } else if i < s.len() && s[i] == '@' {
        let j = skip_ws(s, i + 1);
        scan_incomplete_amount(s, j)
    } else {
        None
    }
}

// ---------------------------------------------------------------------------
// Postings.
// ---------------------------------------------------------------------------

/// Where the account of a posting starts: past an optional flag, which
/// counts as a flag only when followed by horizontal whitespace.
pub open spec fn spec_posting_account_pos(s: Seq<char>, i: int) -> int {
    match spec_scan_flag(s, i) {
        Some(f) => {
            if i < f < s.len() && spec_hspace(s[f]) {
                spec_skip_ws(s, f)
            } else {
                i
            }
        },
        None => i,
    }
}

/// A posting: an optional flag, an account, and optional units, cost and
/// price annotation.
pub open spec fn spec_scan_posting(s: Seq<char>, i: int) -> Option<int> {
    let a0 = spec_posting_account_pos(s, i);
    if i <= a0 <= s.len() {
        match spec_scan_account(s, a0) {
            Some(a) => {
                if a0 < a <= s.len() {
                    let p1 = match spec_scan_incomplete_amount(s, spec_skip_ws(s, a)) {
                        Some(u) => if a < u <= s.len() { u } else { a },
                        None => a,
                    };
                    let p2 = match spec_scan_cost_spec(s, spec_skip_ws(s, p1)) {
                        Some(c) => if p1 < c <= s.len() { c } else { p1 },
                        None => p1,
                    };
                    let p3 = match spec_scan_price_annotation(s, spec_skip_ws(s, p2)) {
                        Some(p) => if p2 < p <= s.len() { p } else { p2 },
                        None => p2,
                    };
                    Some(p3)
                } else {
                    None
                }
            },
            None => None,
        }
    } else {
        None
    }
}

pub fn posting_account_pos(s: &Vec<char>, i: usize) -> (r: usize)
    requires
        i <= s@.len(),
    ensures
        r as int == spec_posting_account_pos(s@, i as int),
        i <= r <= s@.len(),
{
    match scan_flag(s, i) {
        Some(f) => {
            if f < s.len() && hspace(s[f]) {
                skip_ws(s, f)
            } else {
                i
            }
        },
        None => i,
    }
}

pub fn scan_posting(s: &Vec<char>, i: usize) -> (r: Option<usize>)
    requires
        i <= s@.len(),
    ensures
        opt_end_eq(r, spec_scan_posting(s@, i as int)),
        r matches Some(j) ==> i < j <= s@.len(),
{
    let a0 = posting_account_pos(s, i);
    match scan_account(s, a0) {
        Some(a) => {
            let p1 = match scan_incomplete_amount(s, skip_ws(s, a)) {
                Some(u) => u,
                None => a,
            };
            let p2 = match scan_cost_spec(s, skip_ws(s, p1)) {
                Some(c) => c,
                None => p1,
            };
            let p3 = match scan_price_annotation(s, skip_ws(s, p2)) {
                Some(p) => p,
                None => p2,
            };
            Some(p3)
        },
        None => None,
    }
}

// ---------------------------------------------------------------------------
// Transaction headers and bodies.
// ---------------------------------------------------------------------------

/// The payee/narration strings: one quoted string, optionally followed by a
/// second (with a deprecated `|` separator allowed between them).
pub open spec fn spec_scan_txn_strings(s: Seq<char>, i: int) -> Option<int> {
    match spec_scan_quoted(s, i) {
        Some(q1) => {
            if i < q1 <= s.len() {
                let j = spec_skip_ws(s, q1);
                if q1 <= j < s.len() && s[j] == '|' {
                    let k = spec_skip_ws(s, j + 1);
                    if j < k <= s.len() {
                        match spec_scan_quoted(s, k) {
                            Some(q2) => Some(q2),
                            None => Some(q1),
                        }
                    } else {
                        Some(q1)
                    }
                } else if q1 <= j <= s.len() {
                    match spec_scan_quoted(s, j) {
                        Some(q2) => Some(q2),
                        None => Some(q1),
                    }
                } else {
                    Some(q1)
                }
            } else {
                None
            }
        },
        None => None,
    }
}

pub fn scan_txn_strings(s: &Vec<char>, i: usize) -> (r: Option<usize>)
    requires
        i <= s@.len(),
    ensures
        opt_end_eq(r, spec_scan_txn_strings(s@, i as int)),
        r matches Some(j) ==> i < j <= s@.len(),
{
    match scan_quoted(s, i) {
        Some(q1) => {
            let j = skip_ws(s, q1);
            if j < s.len() && s[j] == '|' {
                let k = skip_ws(s, j + 1);
                match scan_quoted(s, k) {
                    Some(q2) => Some(q2),
                    None => Some(q1),
                }
            } else {
                match scan_quoted(s, j) {
                    Some(q2) => Some(q2),
                    None => Some(q1),
                }
            }
        },
        None => None,
    }
}

/// A tag or a link.
pub open spec fn spec_scan_tag_or_link(s: Seq<char>, i: int) -> Option<int> {
    if spec_scan_tag(s, i) is Some {
        spec_scan_tag(s, i)
    } else {
        spec_scan_link(s, i)
    }
}

pub fn scan_tag_or_link(s: &Vec<char>, i: usize) -> (r: Option<usize>)
    requires
        i <= s@.len(),
    ensures
        opt_end_eq(r, spec_scan_tag_or_link(s@, i as int)),
        r matches Some(j) ==> i < j <= s@.len(),
{
    if let Some(j) = scan_tag(s, i) {
        Some(j)
    } else {
        scan_link(s, i)
    }
}

/// Further tags and links, as far as they reach.
pub open spec fn spec_scan_tl_rest(s: Seq<char>, i: int) -> int
    decreases s.len() - i,
{
    let j = spec_skip_ws(s, i);
    if i <= j <= s.len() {
        match spec_scan_tag_or_link(s, j) {
            Some(e) => {
                if i < e <= s.len() {
                    spec_scan_tl_rest(s, e)
                } else {
                    i
                }
            },
            None => i,
        }
    } else {
        i
    }
}

pub fn scan_tl_rest(s: &Vec<char>, i: usize) -> (r: usize)
    requires
        i <= s@.len(),
    ensures
        r as int == spec_scan_tl_rest(s@, i as int),
        i <= r <= s@.len(),
{
    let mut pos = i;
    loop
        invariant
            i <= pos <= s@.len(),
            spec_scan_tl_rest(s@, i as int) == spec_scan_tl_rest(s@, pos as int),
        decreases s@.len() - pos,
    {
        let j = skip_ws(s, pos);
        match scan_tag_or_link(s, j) {
            Some(e) => {
                pos = e;
            },
            None => {
                return pos;
            },
        }
    }
}

/// A sequence of tags and links.
pub open spec fn spec_scan_tags_links(s: Seq<char>, i: int) -> Option<int> {
    match spec_scan_tag_or_link(s, i) {
        Some(e) => {
            if i < e <= s.len() {
                Some(spec_scan_tl_rest(s, e))
            } else {
                None
            }
        },
        None => None,
    }
}

pub fn scan_tags_links(s: &Vec<char>, i: usize) -> (r: Option<usize>)
    requires
        i <= s@.len(),
    ensures
        opt_end_eq(r, spec_scan_tags_links(s@, i as int)),
        r matches Some(j) ==> i < j <= s@.len(),
{
    match scan_tag_or_link(s, i) {
        Some(e) => Some(scan_tl_rest(s, e)),
        None => None,
    }
}

/// One line of a transaction body: indentation, then a blank or comment
/// line, or a posting, key/value pair, tag or link, then the line end.
pub open spec fn spec_scan_body_line(s: Seq<char>, i: int) -> Option<int> {
    if 0 <= i < s.len() && spec_hspace(s[i]) {
        let j = spec_skip_ws(s, i);
        if i < j <= s.len() {
            match spec_scan_eol(s, j) {
                Some(e) => Some(e),
                None => {
                    let item = if spec_scan_posting(s, j) is Some {
                        spec_scan_posting(s, j)
                    } else if spec_scan_key_value(s, j) is Some {
                        spec_scan_key_value(s, j)
                    } else {
                        spec_scan_tag_or_link(s, j)
                    };
                    match item {
                        Some(k) => {
                            if j < k <= s.len() {
                                spec_scan_eol(s, spec_skip_ws(s, k))
                            } else {
                                None
                            }
                        },
                        None => None,
                    }
                },
            }
        } else {
            None
        }
    } else {
        None
    }
}

pub fn scan_body_line(s: &Vec<char>, i: usize) -> (r: Option<usize>)
    requires
        i <= s@.len(),
    ensures
        opt_end_eq(r, spec_scan_body_line(s@, i as int)),
        r matches Some(j) ==> i < j <= s@.len(),
{
    if i < s.len() && hspace(s[i]) {
        let j = skip_ws(s, i);
        if j == i {
            return None;
        }
        match scan_eol(s, j) {
            Some(e) => Some(e),
            None => {
                let item = if let Some(k) = scan_posting(s, j) {
                    Some(k)
                } else if let Some(k) = scan_key_value(s, j) {
                    Some(k)
                } else {
                    scan_tag_or_link(s, j)
                };
                match item {
                    Some(k) => scan_eol(s, skip_ws(s, k)),
                    None => None,
                }
            },
        }
    } else {
        None
    }
}

/// The lines of a transaction body, as far as they reach.
pub open spec fn spec_scan_body_lines(s: Seq<char>, i: int) -> int
    decreases s.len() - i,
{
    match spec_scan_body_line(s, i) {
        Some(j) => {
            if i < j <= s.len() {
                spec_scan_body_lines(s, j)
            } else {
                i
            }
        },
        None => i,
    }
}

pub fn scan_body_lines(s: &Vec<char>, i: usize) -> (r: usize)
    requires
        i <= s@.len(),
    ensures
        r as int == spec_scan_body_lines(s@, i as int),
        i <= r <= s@.len(),
{
    let mut pos = i;
    loop
        invariant
            i <= pos <= s@.len(),
            spec_scan_body_lines(s@, i as int) == spec_scan_body_lines(s@, pos as int),
        decreases s@.len() - pos,
    {
        match scan_body_line(s, pos) {
            Some(j) => {
                pos = j;
            },
            None => {
                return pos;
            },
        }
    }
}

/// A transaction: date, flag, strings, optional tags and links, and the
/// indented body.
pub open spec fn spec_scan_transaction(s: Seq<char>, i: int) -> Option<int> {
    match spec_scan_date(s, i) {
        Some(d) => {
            if i < d <= s.len() {
                match spec_scan_flag(s, spec_skip_ws(s, d)) {
                    Some(f) => {
                        if d <= f <= s.len() {
                            match spec_scan_txn_strings(s, spec_skip_ws(s, f)) {
                                Some(t) => {
                                    if f <= t <= s.len() {
                                        let p = match spec_scan_tags_links(
                                            s,
                                            spec_skip_ws(s, t),
                                        ) {
                                            Some(e) => if t < e <= s.len() { e } else { t },
                                            None => t,
                                        };
                                        match spec_scan_eol(s, spec_skip_ws(s, p)) {
                                            Some(e) => {
                                                if p <= e <= s.len() {
                                                    Some(spec_scan_body_lines(s, e))
                                                } else {
                                                    None
                                                }
                                            },
                                            None => None,
                                        }
                                    } else {
                                        None
                                    }
                                },
                                None => None,
                            }
                        } else {
                            None
                        }
                    },
                    None => None,
                }
            } else {
                None
            }
        },
        None => None,
    }
}

pub fn scan_transaction(s: &Vec<char>, i: usize) -> (r: Option<usize>)
    requires
        i <= s@.len(),
    ensures
        opt_end_eq(r, spec_scan_transaction(s@, i as int)),
        r matches Some(j) ==> i < j <= s@.len(),
{
    match scan_date(s, i) {
        Some(d) => {
            match scan_flag(s, skip_ws(s, d)) {
                Some(f) => {
                    match scan_txn_strings(s, skip_ws(s, f)) {
                        Some(t) => {
                            let p = match scan_tags_links(s, skip_ws(s, t)) {
                                Some(e) => e,
                                None => t,
                            };
                            match scan_eol(s, skip_ws(s, p)) {
                                Some(e) => Some(scan_body_lines(s, e)),
                                None => None,
                            }
                        },
                        None => None,
                    }
                },
                None => None,
            }
        },
        None => None,
    }
}

} // verus!

// The line-level directives.

verus! {

// ---------------------------------------------------------------------------
// Undated directives and stand-alone lines.
// ---------------------------------------------------------------------------

/// An org-mode title: a `*` at the start of a line, then the rest of the
/// line.
pub open spec fn spec_scan_org_title(s: Seq<char>, i: int) -> Option<int> {
    if 0 <= i < s.len() && s[i] == '*' {
        spec_scan_eol(s, spec_skip_to_eol(s, i + 1))
    } else {
        None
    }
}

pub fn scan_org_title(s: &Vec<char>, i: usize) -> (r: Option<usize>)
    requires
        i <= s@.len(),
    ensures
        opt_end_eq(r, spec_scan_org_title(s@, i as int)),
        r matches Some(j) ==> i < j <= s@.len(),
{
    if i < s.len() && s[i] == '*' {
        scan_eol(s, skip_to_eol(s, i + 1))
    } else {
        None
    }
}

/// `option "Name" "Value"`.
pub open spec fn spec_scan_option(s: Seq<char>, i: int) -> Option<int> {
    if spec_match_lit(s, i, "option"@) {
        match spec_scan_quoted(s, spec_skip_ws(s, i + "option"@.len())) {
            Some(q1) => {
                if i < q1 <= s.len() {
                    match spec_scan_quoted(s, spec_skip_ws(s, q1)) {
                        Some(q2) => {
                            if q1 <= q2 <= s.len() {
                                spec_scan_line_end(s, q2)
                            } else {
                                None
                            }
                        },
                        None => None,
                    }
                } else {
                    None
                }
            },
            None => None,
        }
    } else {
        None
    }
}

pub fn scan_option(s: &Vec<char>, i: usize) -> (r: Option<usize>)
    requires
        i <= s@.len(),
    ensures
        opt_end_eq(r, spec_scan_option(s@, i as int)),
        r matches Some(j) ==> i <= j <= s@.len(),
{
    match match_word(s, i, "option") {
        Some(k) => {
            match scan_quoted(s, skip_ws(s, k)) {
                Some(q1) => {
                    match scan_quoted(s, skip_ws(s, q1)) {
                        Some(q2) => scan_line_end(s, q2),
                        None => None,
                    }
                },
                None => None,
            }
        },
        None => None,
    }
}

/// `plugin "module" ["config"]`.
pub open spec fn spec_scan_plugin(s: Seq<char>, i: int) -> Option<int> {
    if spec_match_lit(s, i, "plugin"@) {
        match spec_scan_quoted(s, spec_skip_ws(s, i + "plugin"@.len())) {
            Some(q1) => {
                if i < q1 <= s.len() {
                    let p = match spec_scan_quoted(s, spec_skip_ws(s, q1)) {
                        Some(q2) => if q1 < q2 <= s.len() { q2 } else { q1 },
                        None => q1,
                    };
                    spec_scan_line_end(s, p)
                } else {
                    None
                }
            },
            None => None,
        }
    } else {
        None
    }
}

pub fn scan_plugin(s: &Vec<char>, i: usize) -> (r: Option<usize>)
    requires
        i <= s@.len(),
    ensures
        opt_end_eq(r, spec_scan_plugin(s@, i as int)),
        r matches Some(j) ==> i <= j <= s@.len(),
{
    match match_word(s, i, "plugin") {
        Some(k) => {
            match scan_quoted(s, skip_ws(s, k)) {
                Some(q1) => {
                    let p = match scan_quoted(s, skip_ws(s, q1)) {
                        Some(q2) => q2,
                        None => q1,
                    };
                    scan_line_end(s, p)
                },
                None => None,
            }
        },
        None => None,
    }
}

/// `include "filename"`.
pub open spec fn spec_scan_include(s: Seq<char>, i: int) -> Option<int> {
    if spec_match_lit(s, i, "include"@) {
        match spec_scan_quoted(s, spec_skip_ws(s, i + "include"@.len())) {
            Some(q) => {
                if i <= q <= s.len() {
                    spec_scan_line_end(s, q)
                } else {
                    None
                }
            },
            None => None,
        }
    } else {
        None
    }
}

pub fn scan_include(s: &Vec<char>, i: usize) -> (r: Option<usize>)
    requires
        i <= s@.len(),
    ensures
        opt_end_eq(r, spec_scan_include(s@, i as int)),
        r matches Some(j) ==> i <= j <= s@.len(),
{
    match match_word(s, i, "include") {
        Some(k) => {
            match scan_quoted(s, skip_ws(s, k)) {
                Some(q) => scan_line_end(s, q),
                None => None,
            }
        },
        None => None,
    }
}

/// `pushtag #name`.
pub open spec fn spec_scan_pushtag(s: Seq<char>, i: int) -> Option<int> {
    if spec_match_lit(s, i, "pushtag"@) {
        match spec_scan_tag(s, spec_skip_ws(s, i + "pushtag"@.len())) {
            Some(t) => {
                if i <= t <= s.len() {
                    spec_scan_line_end(s, t)
                } else {
                    None
                }
            },
            None => None,
        }
    } else {
        None
    }
}

pub fn scan_pushtag(s: &Vec<char>, i: usize) -> (r: Option<usize>)
    requires
        i <= s@.len(),
    ensures
        opt_end_eq(r, spec_scan_pushtag(s@, i as int)),
        r matches Some(j) ==> i <= j <= s@.len(),
{
    match match_word(s, i, "pushtag") {
        Some(k) => {
            match scan_tag(s, skip_ws(s, k)) {
                Some(t) => scan_line_end(s, t),
                None => None,
            }
        },
        None => None,
    }
}

/// `poptag #name`.
pub open spec fn spec_scan_poptag(s: Seq<char>, i: int) -> Option<int> {
    if spec_match_lit(s, i, "poptag"@) {
        match spec_scan_tag(s, spec_skip_ws(s, i + "poptag"@.len())) {
            Some(t) => {
                if i <= t <= s.len() {
                    spec_scan_line_end(s, t)
                } else {
                    None
                }
            },
            None => None,
        }
    } else {
        None
    }
}

pub fn scan_poptag(s: &Vec<char>, i: usize) -> (r: Option<usize>)
    requires
        i <= s@.len(),
    ensures
        opt_end_eq(r, spec_scan_poptag(s@, i as int)),
        r matches Some(j) ==> i <= j <= s@.len(),
{
    match match_word(s, i, "poptag") {
        Some(k) => {
            match scan_tag(s, skip_ws(s, k)) {
                Some(t) => scan_line_end(s, t),
                None => None,
            }
        },
        None => None,
    }
}

// ---------------------------------------------------------------------------
// Dated directives.
// ---------------------------------------------------------------------------

/// The date and keyword that open a dated directive; yields the position
/// after the keyword and following whitespace.
pub open spec fn spec_scan_dated_kw(s: Seq<char>, i: int, kw: Seq<char>) -> Option<int> {
    match spec_scan_date(s, i) {
        Some(d) => {
            if i < d <= s.len() {
                let j = spec_skip_ws(s, d);
                if d <= j <= s.len() && spec_match_lit(s, j, kw) {
                    Some(spec_skip_ws(s, j + kw.len()))
                } else {
                    None
                }
            } else {
                None
            }
        },
        None => None,
    }
}

pub fn scan_dated_kw(s: &Vec<char>, i: usize, kw: &str) -> (r: Option<usize>)
    requires
        i <= s@.len(),
    ensures
        opt_end_eq(r, spec_scan_dated_kw(s@, i as int, kw@)),
        r matches Some(j) ==> i <= j <= s@.len(),
{
    match scan_date(s, i) {
        Some(d) => {
            let j = skip_ws(s, d);
            match match_word(s, j, kw) {
                Some(k) => Some(skip_ws(s, k)),
                None => None,
            }
        },
        None => None,
    }
}

/// `DATE close ACCOUNT` with metadata.
pub open spec fn spec_scan_close(s: Seq<char>, i: int) -> Option<int> {
    match spec_scan_dated_kw(s, i, "close"@) {
        Some(p) => {
            if i <= p <= s.len() {
                match spec_scan_account(s, p) {
                    Some(a) => {
                        if p < a <= s.len() {
                            spec_scan_meta(s, a)
                        } else {
                            None
                        }
                    },
                    None => None,
                }
            } else {
                None
            }
        },
        None => None,
    }
}

pub fn scan_close(s: &Vec<char>, i: usize) -> (r: Option<usize>)
    requires
        i <= s@.len(),
    ensures
        opt_end_eq(r, spec_scan_close(s@, i as int)),
        r matches Some(j) ==> i <= j <= s@.len(),
{
    match scan_dated_kw(s, i, "close") {
        Some(p) => {
            match scan_account(s, p) {
                Some(a) => scan_meta(s, a),
                None => None,
            }
        },
        None => None,
    }
}

/// `DATE commodity NAME` with metadata.
pub open spec fn spec_scan_commodity_directive(s: Seq<char>, i: int) -> Option<int> {
    match spec_scan_dated_kw(s, i, "commodity"@) {
        Some(p) => {
            if i <= p <= s.len() {
                match spec_scan_commodity(s, p) {
                    Some(c) => {
                        if p < c <= s.len() {
                            spec_scan_meta(s, c)
                        } else {
                            None
                        }
                    },
                    None => None,
                }
            } else {
                None
            }
        },
        None => None,
    }
}

pub fn scan_commodity_directive(s: &Vec<char>, i: usize) -> (r: Option<usize>)
    requires
        i <= s@.len(),
    ensures
        opt_end_eq(r, spec_scan_commodity_directive(s@, i as int)),
        r matches Some(j) ==> i <= j <= s@.len(),
{
    match scan_dated_kw(s, i, "commodity") {
        Some(p) => {
            match scan_commodity(s, p) {
                Some(c) => scan_meta(s, c),
                None => None,
            }
        },
        None => None,
    }
}

/// `DATE balance ACCOUNT AMOUNT [~ TOLERANCE] CUR` with metadata.
pub open spec fn spec_scan_balance(s: Seq<char>, i: int) -> Option<int> {
    match spec_scan_dated_kw(s, i, "balance"@) {
        Some(p) => {
            if i <= p <= s.len() {
                match spec_scan_account(s, p) {
                    Some(a) => {
                        if p < a <= s.len() {
                            match spec_scan_amount_tolerance(s, spec_skip_ws(s, a)) {
                                Some(t) => {
                                    if a <= t <= s.len() {
                                        spec_scan_meta(s, t)
                                    } else {
                                        None
                                    }
                                },
                                None => None,
                            }
                        } else {
                            None
                        }
                    },
                    None => None,
                }
            } else {
                None
            }
        },
        None => None,
    }
}

pub fn scan_balance(s: &Vec<char>, i: usize) -> (r: Option<usize>)
    requires
        i <= s@.len(),
    ensures
        opt_end_eq(r, spec_scan_balance(s@, i as int)),
        r matches Some(j) ==> i <= j <= s@.len(),
{
    match scan_dated_kw(s, i, "balance") {
        Some(p) => {
            match scan_account(s, p) {
                Some(a) => {
                    match scan_amount_tolerance(s, skip_ws(s, a)) {
                        Some(t) => scan_meta(s, t),
                        None => None,
                    }
                },
                None => None,
            }
        },
        None => None,
    }
}

/// `DATE note ACCOUNT "COMMENT"` with metadata.
pub open spec fn spec_scan_note(s: Seq<char>, i: int) -> Option<int> {
    match spec_scan_dated_kw(s, i, "note"@) {
        Some(p) => {
            if i <= p <= s.len() {
                match spec_scan_account(s, p) {
                    Some(a) => {
                        if p < a <= s.len() {
                            match spec_scan_quoted(s, spec_skip_ws(s, a)) {
                                Some(q) => {
                                    if a <= q <= s.len() {
                                        spec_scan_meta(s, q)
                                    } else {
                                        None
                                    }
                                },
                                None => None,
                            }
                        } else {
                            None
                        }
                    },
                    None => None,
                }
            } else {
                None
            }
        },
        None => None,
    }
}

pub fn scan_note(s: &Vec<char>, i: usize) -> (r: Option<usize>)
    requires
        i <= s@.len(),
    ensures
        opt_end_eq(r, spec_scan_note(s@, i as int)),
        r matches Some(j) ==> i <= j <= s@.len(),
{
    match scan_dated_kw(s, i, "note") {
        Some(p) => {
            match scan_account(s, p) {
                Some(a) => {
                    match scan_quoted(s, skip_ws(s, a)) {
                        Some(q) => scan_meta(s, q),
                        None => None,
                    }
                },
                None => None,
            }
        },
        None => None,
    }
}

/// `DATE pad TO FROM` with metadata.
pub open spec fn spec_scan_pad(s: Seq<char>, i: int) -> Option<int> {
    match spec_scan_dated_kw(s, i, "pad"@) {
        Some(p) => {
            if i <= p <= s.len() {
                match spec_scan_account(s, p) {
                    Some(a) => {
                        if p < a <= s.len() {
                            match spec_scan_account(s, spec_skip_ws(s, a)) {
                                Some(b) => {
                                    if a <= b <= s.len() {
                                        spec_scan_meta(s, b)
                                    } else {
                                        None
                                    }
                                },
                                None => None,
                            }
                        } else {
                            None
                        }
                    },
                    None => None,
                }
            } else {
                None
            }
        },
        None => None,
    }
}

pub fn scan_pad(s: &Vec<char>, i: usize) -> (r: Option<usize>)
    requires
        i <= s@.len(),
    ensures
        opt_end_eq(r, spec_scan_pad(s@, i as int)),
        r matches Some(j) ==> i <= j <= s@.len(),
{
    match scan_dated_kw(s, i, "pad") {
        Some(p) => {
            match scan_account(s, p) {
                Some(a) => {
                    match scan_account(s, skip_ws(s, a)) {
                        Some(b) => scan_meta(s, b),
                        None => None,
                    }
                },
                None => None,
            }
        },
        None => None,
    }
}

/// `DATE query "NAME" "SQL"` with metadata; `event` shares the shape.
pub open spec fn spec_scan_two_quoted(s: Seq<char>, p: int) -> Option<int> {
    match spec_scan_quoted(s, p) {
        Some(q1) => {
            if p < q1 <= s.len() {
                match spec_scan_quoted(s, spec_skip_ws(s, q1)) {
                    Some(q2) => {
                        if q1 <= q2 <= s.len() {
                            spec_scan_meta(s, q2)
                        } else {
                            None
                        }
                    },
                    None => None,
                }
            } else {
                None
            }
        },
        None => None,
    }
}

pub fn scan_two_quoted(s: &Vec<char>, p: usize) -> (r: Option<usize>)
    requires
        p <= s@.len(),
    ensures
        opt_end_eq(r, spec_scan_two_quoted(s@, p as int)),
        r matches Some(j) ==> p <= j <= s@.len(),
{
    match scan_quoted(s, p) {
        Some(q1) => {
            match scan_quoted(s, skip_ws(s, q1)) {
                Some(q2) => scan_meta(s, q2),
                None => None,
            }
        },
        None => None,
    }
}

pub open spec fn spec_scan_query(s: Seq<char>, i: int) -> Option<int> {
    match spec_scan_dated_kw(s, i, "query"@) {
        Some(p) => {
            if i <= p <= s.len() {
                spec_scan_two_quoted(s, p)
            } else {
                None
            }
        },
        None => None,
    }
}

pub fn scan_query(s: &Vec<char>, i: usize) -> (r: Option<usize>)
    requires
        i <= s@.len(),
    ensures
        opt_end_eq(r, spec_scan_query(s@, i as int)),
        r matches Some(j) ==> i <= j <= s@.len(),
{
    match scan_dated_kw(s, i, "query") {
        Some(p) => scan_two_quoted(s, p),
        None => None,
    }
}

pub open spec fn spec_scan_event(s: Seq<char>, i: int) -> Option<int> {
    match spec_scan_dated_kw(s, i, "event"@) {
        Some(p) => {
            if i <= p <= s.len() {
                spec_scan_two_quoted(s, p)
            } else {
                None
            }
        },
        None => None,
    }
}

pub fn scan_event(s: &Vec<char>, i: usize) -> (r: Option<usize>)
    requires
        i <= s@.len(),
    ensures
        opt_end_eq(r, spec_scan_event(s@, i as int)),
        r matches Some(j) ==> i <= j <= s@.len(),
{
    match scan_dated_kw(s, i, "event") {
        Some(p) => scan_two_quoted(s, p),
        None => None,
    }
}

/// `DATE price CUR AMOUNT` with metadata.
pub open spec fn spec_scan_price(s: Seq<char>, i: int) -> Option<int> {
    match spec_scan_dated_kw(s, i, "price"@) {
        Some(p) => {
            if i <= p <= s.len() {
                match spec_scan_commodity(s, p) {
                    Some(c) => {
                        if p < c <= s.len() {
                            match spec_scan_amount(s, spec_skip_ws(s, c)) {
                                Some(a) => {
                                    if c <= a <= s.len() {
                                        spec_scan_meta(s, a)
                                    } else {
                                        None
                                    }
                                },
                                None => None,
                            }
                        } else {
                            None
                        }
                    },
                    None => None,
                }
            } else {
                None
            }
        },
        None => None,
    }
}

pub fn scan_price(s: &Vec<char>, i: usize) -> (r: Option<usize>)
    requires
        i <= s@.len(),
    ensures
        opt_end_eq(r, spec_scan_price(s@, i as int)),
        r matches Some(j) ==> i <= j <= s@.len(),
{
    match scan_dated_kw(s, i, "price") {
        Some(p) => {
            match scan_commodity(s, p) {
                Some(c) => {
                    match scan_amount(s, skip_ws(s, c)) {
                        Some(a) => scan_meta(s, a),
                        None => None,
                    }
                },
                None => None,
            }
        },
        None => None,
    }
}

/// `DATE document ACCOUNT "PATH" [tags and links]` with metadata.
pub open spec fn spec_scan_document(s: Seq<char>, i: int) -> Option<int> {
    match spec_scan_dated_kw(s, i, "document"@) {
        Some(p) => {
            if i <= p <= s.len() {
                match spec_scan_account(s, p) {
                    Some(a) => {
                        if p < a <= s.len() {
                            match spec_scan_quoted(s, spec_skip_ws(s, a)) {
                                Some(q) => {
                                    if a <= q <= s.len() {
                                        let e = match spec_scan_tags_links(
                                            s,
                                            spec_skip_ws(s, q),
                                        ) {
                                            Some(t) => if q < t <= s.len() { t } else { q },
                                            None => q,
                                        };
                                        spec_scan_meta(s, e)
                                    } else {
                                        None
                                    }
                                },
                                None => None,
                            }
                        } else {
                            None
                        }
                    },
                    None => None,
                }
            } else {
                None
            }
        },
        None => None,
    }
}

pub fn scan_document(s: &Vec<char>, i: usize) -> (r: Option<usize>)
    requires
        i <= s@.len(),
    ensures
        opt_end_eq(r, spec_scan_document(s@, i as int)),
        r matches Some(j) ==> i <= j <= s@.len(),
{
    match scan_dated_kw(s, i, "document") {
        Some(p) => {
            match scan_account(s, p) {
                Some(a) => {
                    match scan_quoted(s, skip_ws(s, a)) {
                        Some(q) => {
                            let e = match scan_tags_links(s, skip_ws(s, q)) {
                                Some(t) => t,
                                None => q,
                            };
                            scan_meta(s, e)
                        },
                        None => None,
                    }
                },
                None => None,
            }
        },
        None => None,
    }
}

/// Further commodities in a list, as far as they reach.
pub open spec fn spec_scan_commodity_rest(s: Seq<char>, i: int) -> int
    decreases s.len() - i,
{
    let j = spec_skip_ws(s, i);
    if i <= j <= s.len() {
        match spec_scan_commodity(s, j) {
            Some(c) => {
                if i < c <= s.len() {
                    spec_scan_commodity_rest(s, c)
                } else {
                    i
                }
            },
            None => i,
        }
    } else {
        i
    }
}

pub fn scan_commodity_rest(s: &Vec<char>, i: usize) -> (r: usize)
    requires
        i <= s@.len(),
    ensures
        r as int == spec_scan_commodity_rest(s@, i as int),
        i <= r <= s@.len(),
{
    let mut pos = i;
    loop
        invariant
            i <= pos <= s@.len(),
            spec_scan_commodity_rest(s@, i as int) == spec_scan_commodity_rest(s@, pos as int),
        decreases s@.len() - pos,
    {
        let j = skip_ws(s, pos);
        match scan_commodity(s, j) {
            Some(c) => {
                pos = c;
            },
            None => {
                return pos;
            },
        }
    }
}

/// `DATE open ACCOUNT [CUR ...] ["booking"]` with metadata.
pub open spec fn spec_scan_open(s: Seq<char>, i: int) -> Option<int> {
    match spec_scan_dated_kw(s, i, "open"@) {
        Some(p) => {
            if i <= p <= s.len() {
                match spec_scan_account(s, p) {
                    Some(a) => {
                        if p < a <= s.len() {
                            let p1 = spec_scan_commodity_rest(s, a);
                            if a <= p1 <= s.len() {
                                let p2 = match spec_scan_quoted(s, spec_skip_ws(s, p1)) {
                                    Some(q) => if p1 < q <= s.len() { q } else { p1 },
                                    None => p1,
                                };
                                spec_scan_meta(s, p2)
                            } else {
                                None
                            }
                        } else {
                            None
                        }
                    },
                    None => None,
                }
            } else {
                None
            }
        },
        None => None,
    }
}

pub fn scan_open(s: &Vec<char>, i: usize) -> (r: Option<usize>)
    requires
        i <= s@.len(),
    ensures
        opt_end_eq(r, spec_scan_open(s@, i as int)),
        r matches Some(j) ==> i <= j <= s@.len(),
{
    match scan_dated_kw(s, i, "open") {
        Some(p) => {
            match scan_account(s, p) {
                Some(a) => {
                    let p1 = scan_commodity_rest(s, a);
                    let p2 = match scan_quoted(s, skip_ws(s, p1)) {
                        Some(q) => q,
                        None => p1,
                    };
                    scan_meta(s, p2)
                },
                None => None,
            }
        },
        None => None,
    }
}

/// One argument of a `custom` directive.
pub open spec fn spec_scan_custom_value(s: Seq<char>, i: int) -> Option<int> {
    if spec_scan_quoted(s, i) is Some {
        spec_scan_quoted(s, i)
    } else if spec_scan_date(s, i) is Some {
        spec_scan_date(s, i)
    } else if spec_scan_bool(s, i) is Some {
        spec_scan_bool(s, i)
    } else if spec_scan_amount(s, i) is Some {
        spec_scan_amount(s, i)
    } else if spec_scan_num_expr(s, i) is Some {
        spec_scan_num_expr(s, i)
    } else if spec_scan_account(s, i) is Some {
        spec_scan_account(s, i)
    } else {
        spec_scan_commodity(s, i)
    }
}

pub fn scan_custom_value(s: &Vec<char>, i: usize) -> (r: Option<usize>)
    requires
        i <= s@.len(),
    ensures
        opt_end_eq(r, spec_scan_custom_value(s@, i as int)),
        r matches Some(j) ==> i < j <= s@.len(),
{
    if let Some(j) = scan_quoted(s, i) {
        Some(j)
    } else if let Some(j) = scan_date(s, i) {
        Some(j)
    } else if let Some(j) = scan_bool(s, i) {
        Some(j)
    } else if let Some(j) = scan_amount(s, i) {
        Some(j)
    } else if let Some(j) = scan_num_expr(s, i) {
        Some(j)
    } else if let Some(j) = scan_account(s, i) {
        Some(j)
    } else {
        scan_commodity(s, i)
    }
}

/// Further custom-directive arguments, as far as they reach.
pub open spec fn spec_scan_custom_rest(s: Seq<char>, i: int) -> int
    decreases s.len() - i,
{
    let j = spec_skip_ws(s, i);
    if i <= j <= s.len() {
        match spec_scan_custom_value(s, j) {
            Some(e) => {
                if i < e <= s.len() {
                    spec_scan_custom_rest(s, e)
                } else {
                    i
                }
            },
            None => i,
        }
    } else {
        i
    }
}

pub fn scan_custom_rest(s: &Vec<char>, i: usize) -> (r: usize)
    requires
        i <= s@.len(),
    ensures
        r as int == spec_scan_custom_rest(s@, i as int),
        i <= r <= s@.len(),
{
    let mut pos = i;
    loop
        invariant
            i <= pos <= s@.len(),
            spec_scan_custom_rest(s@, i as int) == spec_scan_custom_rest(s@, pos as int),
        decreases s@.len() - pos,
    {
        let j = skip_ws(s, pos);
        match scan_custom_value(s, j) {
            Some(e) => {
                pos = e;
            },
            None => {
                return pos;
            },
        }
    }
}

/// `DATE custom "NAME" [VALUE ...]` with metadata.
pub open spec fn spec_scan_custom(s: Seq<char>, i: int) -> Option<int> {
    match spec_scan_dated_kw(s, i, "custom"@) {
        Some(p) => {
            if i <= p <= s.len() {
                match spec_scan_quoted(s, p) {
                    Some(q) => {
                        if p < q <= s.len() {
                            let e = spec_scan_custom_rest(s, q);
                            if q <= e <= s.len() {
                                spec_scan_meta(s, e)
                            } else {
                                None
                            }
                        } else {
                            None
                        }
                    },
                    None => None,
                }
            } else {
                None
            }
        },
        None => None,
    }
}

pub fn scan_custom(s: &Vec<char>, i: usize) -> (r: Option<usize>)
    requires
        i <= s@.len(),
    ensures
        opt_end_eq(r, spec_scan_custom(s@, i as int)),
        r matches Some(j) ==> i <= j <= s@.len(),
{
    match scan_dated_kw(s, i, "custom") {
        Some(p) => {
            match scan_quoted(s, p) {
                Some(q) => {
                    let e = scan_custom_rest(s, q);
                    scan_meta(s, e)
                },
                None => None,
            }
        },
        None => None,
    }
}

} // verus!

// The `eol_kv_list` rule is a metadata block tried on its own.

verus! {

pub open spec fn spec_scan_eol_kv_list(s: Seq<char>, i: int) -> Option<int> {
    spec_scan_meta(s, i)
}

pub fn scan_eol_kv_list(s: &Vec<char>, i: usize) -> (r: Option<usize>)
    requires
        i <= s@.len(),
    ensures
        opt_end_eq(r, spec_scan_eol_kv_list(s@, i as int)),
        r matches Some(j) ==> i <= j <= s@.len(),
{
    scan_meta(s, i)
}

} // verus!
