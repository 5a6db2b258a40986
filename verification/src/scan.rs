//! Token-level grammar: recognizers for the lexical rules.
//!
//! Each recognizer has a spec mirror over `Seq<char>` returning the end
//! position of the token when it matches at position `i`; the executable
//! function is proved equal to the mirror.  Horizontal whitespace and
//! comments (`;` to end of line) are insignificant between tokens; end of
//! line is significant.

use vstd::prelude::*;
use crate::chars::{
    account_word_char, chars_of_str, commodity_char, digit, hspace, key_char, lower,
    name_piece_char, spec_account_word_char, spec_commodity_char, spec_digit, spec_hspace,
    spec_key_char, spec_lower, spec_name_piece_char, spec_tag_char, spec_upper, spec_upper_alnum,
    tag_char, upper, upper_alnum,
};

verus! {

pub open spec fn opt_end_eq(r: Option<usize>, sp: Option<int>) -> bool {
    match r {
        Some(a) => sp == Some(a as int),
        None => sp is None,
    }
}

// ---------------------------------------------------------------------------
// Whitespace, comments, line ends.
// ---------------------------------------------------------------------------

pub open spec fn spec_skip_hspace(s: Seq<char>, i: int) -> int
    decreases s.len() - i,
{
    if 0 <= i < s.len() && spec_hspace(s[i]) {
        spec_skip_hspace(s, i + 1)
    } else {
        i
    }
}

/// Advances to the next `'\n'` or `'\r'` or the end of input.
pub open spec fn spec_skip_to_eol(s: Seq<char>, i: int) -> int
    decreases s.len() - i,
{
    if 0 <= i < s.len() && s[i] != '\n' && s[i] != '\r' {
        spec_skip_to_eol(s, i + 1)
    } else {
        i
    }
}

/// Skips horizontal whitespace and a trailing comment.
pub open spec fn spec_skip_ws(s: Seq<char>, i: int) -> int {
    let j = spec_skip_hspace(s, i);
    if j < s.len() && s[j] == ';' {
        spec_skip_to_eol(s, j)
    } else {
        j
    }
}

/// A line end: a newline, a carriage return and newline, or end of input
/// (which consumes nothing).
pub open spec fn spec_scan_eol(s: Seq<char>, i: int) -> Option<int> {
    if i == s.len() {
        Some(i)
    } else if 0 <= i < s.len() && s[i] == '\n' {
        Some(i + 1)
    } else if 0 <= i && i + 2 <= s.len() && s[i] == '\r' && s[i + 1] == '\n' {
        Some(i + 2)
    } else {
        None
    }
}

pub fn skip_hspace(s: &Vec<char>, i: usize) -> (r: usize)
    requires
        i <= s@.len(),
    ensures
        r as int == spec_skip_hspace(s@, i as int),
        i <= r <= s@.len(),
{
    let mut j = i;
    while j < s.len() && hspace(s[j])
        invariant
            i <= j <= s@.len(),
            spec_skip_hspace(s@, i as int) == spec_skip_hspace(s@, j as int),
        decreases s@.len() - j,
    {
        j = j + 1;
    }
    j
}

pub fn skip_to_eol(s: &Vec<char>, i: usize) -> (r: usize)
    requires
        i <= s@.len(),
    ensures
        r as int == spec_skip_to_eol(s@, i as int),
        i <= r <= s@.len(),
{
    let mut j = i;
    while j < s.len() && s[j] != '\n' && s[j] != '\r'
        invariant
            i <= j <= s@.len(),
            spec_skip_to_eol(s@, i as int) == spec_skip_to_eol(s@, j as int),
        decreases s@.len() - j,
    {
        j = j + 1;
    }
    j
}

pub fn skip_ws(s: &Vec<char>, i: usize) -> (r: usize)
    requires
        i <= s@.len(),
    ensures
        r as int == spec_skip_ws(s@, i as int),
        i <= r <= s@.len(),
{
    let j = skip_hspace(s, i);
    if j < s.len() && s[j] == ';' {
        skip_to_eol(s, j)
    } else {
        j
    }
}

pub fn scan_eol(s: &Vec<char>, i: usize) -> (r: Option<usize>)
    requires
        i <= s@.len(),
    ensures
        opt_end_eq(r, spec_scan_eol(s@, i as int)),
        r matches Some(j) ==> i <= j <= s@.len(),
{
    if i == s.len() {
        Some(i)
    } else if s[i] == '\n' {
        Some(i + 1)
    } else if s.len() - i >= 2 && s[i] == '\r' && s[i + 1] == '\n' {
        Some(i + 2)
    } else {
        None
    }
}

// ---------------------------------------------------------------------------
// Literal matching.
// ---------------------------------------------------------------------------

pub open spec fn spec_match_lit(s: Seq<char>, i: int, lit: Seq<char>) -> bool {
    0 <= i && i + lit.len() <= s.len() && s.subrange(i, i + lit.len()) == lit
}

/// Whether the characters of `lit` stand at position `i` of `s`.
pub fn match_lit(s: &Vec<char>, i: usize, lit: &str) -> (b: bool)
    requires
        i <= s@.len(),
    ensures
        b == spec_match_lit(s@, i as int, lit@),
{
    let l = chars_of_str(lit);
    if s.len() - i < l.len() {
        return false;
    }
    let mut k: usize = 0;
    while k < l.len()
        invariant
            0 <= k <= l@.len(),
            i + l@.len() <= s@.len(),
            s@.len() <= usize::MAX,
            l@ == lit@,
            forall|m: int| 0 <= m < k ==> s@[i + m] == l@[m],
        decreases l@.len() - k,
    {
        proof {
            assert(i + k < s@.len());
        }
        if s[i + k] != l[k] {
            proof {
                assert(s@.subrange(i as int, i + lit@.len())[k as int] == s@[i + k]);
            }
            return false;
        }
        k = k + 1;
    }
    proof {
        assert(s@.subrange(i as int, i + lit@.len()) =~= lit@);
    }
    true
}

/// Like `match_lit`, but returns the end position of the match.
pub fn match_word(s: &Vec<char>, i: usize, lit: &str) -> (r: Option<usize>)
    requires
        i <= s@.len(),
    ensures
        opt_end_eq(
            r,
            if spec_match_lit(s@, i as int, lit@) {
                Some(i + lit@.len())
            } else {
                None
            },
        ),
        r matches Some(j) ==> i <= j <= s@.len(),
{
    let l = chars_of_str(lit);
    let n = s.len();
    if match_lit(s, i, lit) {
        proof {
            assert(i + l@.len() <= n);
        }
        Some(i + l.len())
    } else {
        None
    }
}

// ---------------------------------------------------------------------------
// Simple character-class tokens.
// ---------------------------------------------------------------------------

pub open spec fn spec_skip_class(s: Seq<char>, i: int, cls: spec_fn(char) -> bool) -> int
    decreases s.len() - i,
{
    if 0 <= i < s.len() && cls(s[i]) {
        spec_skip_class(s, i + 1, cls)
    } else {
        i
    }
}

// ---------------------------------------------------------------------------
// Dates.
// ---------------------------------------------------------------------------

pub open spec fn spec_date_sep(c: char) -> bool {
    c == '-' || c == '/'
}

/// A month between 01 and 12, written with two digits.
pub open spec fn spec_month_ok(a: char, b: char) -> bool {
    (a == '0' && '1' <= b && b <= '9') || (a == '1' && '0' <= b && b <= '2')
}

/// A day between 01 and 31, written with two digits.
pub open spec fn spec_day_ok(a: char, b: char) -> bool {
    (a == '0' && '1' <= b && b <= '9') || ((a == '1' || a == '2') && '0' <= b && b <= '9') || (a
        == '3' && (b == '0' || b == '1'))
}

/// `YYYY sep MM sep DD`, with a bounded month and day.
pub open spec fn spec_scan_date(s: Seq<char>, i: int) -> Option<int> {
    if 0 <= i && i + 10 <= s.len() && spec_digit(s[i]) && spec_digit(s[i + 1]) && spec_digit(
        s[i + 2],
    ) && spec_digit(s[i + 3]) && spec_date_sep(s[i + 4]) && spec_month_ok(s[i + 5], s[i + 6])
        && spec_date_sep(s[i + 7]) && spec_day_ok(s[i + 8], s[i + 9]) {
        Some(i + 10)
    } else {
        None
    }
}

pub fn scan_date(s: &Vec<char>, i: usize) -> (r: Option<usize>)
    requires
        i <= s@.len(),
    ensures
        opt_end_eq(r, spec_scan_date(s@, i as int)),
        r matches Some(j) ==> i < j <= s@.len(),
{
    if s.len() - i < 10 {
        return None;
    }
    let d0 = digit(s[i]) && digit(s[i + 1]) && digit(s[i + 2]) && digit(s[i + 3]);
    let s0 = s[i + 4] == '-' || s[i + 4] == '/';
    let m0 = (s[i + 5] == '0' && '1' <= s[i + 6] && s[i + 6] <= '9') || (s[i + 5] == '1' && '0'
        <= s[i + 6] && s[i + 6] <= '2');
    let s1 = s[i + 7] == '-' || s[i + 7] == '/';
    let d1 = (s[i + 8] == '0' && '1' <= s[i + 9] && s[i + 9] <= '9') || ((s[i + 8] == '1' || s[i
        + 8] == '2') && '0' <= s[i + 9] && s[i + 9] <= '9') || (s[i + 8] == '3' && (s[i + 9] == '0'
        || s[i + 9] == '1'));
    if d0 && s0 && m0 && s1 && d1 {
        Some(i + 10)
    } else {
        None
    }
}

// ---------------------------------------------------------------------------
// Numbers.
// ---------------------------------------------------------------------------

pub open spec fn spec_skip_digits(s: Seq<char>, i: int) -> int
    decreases s.len() - i,
{
    if 0 <= i < s.len() && spec_digit(s[i]) {
        spec_skip_digits(s, i + 1)
    } else {
        i
    }
}

pub fn skip_digits(s: &Vec<char>, i: usize) -> (r: usize)
    requires
        i <= s@.len(),
    ensures
        r as int == spec_skip_digits(s@, i as int),
        i <= r <= s@.len(),
{
    let mut j = i;
    while j < s.len() && digit(s[j])
        invariant
            i <= j <= s@.len(),
            spec_skip_digits(s@, i as int) == spec_skip_digits(s@, j as int),
        decreases s@.len() - j,
    {
        j = j + 1;
    }
    j
}

/// Thousands groups: a comma followed by exactly three digits, repeated.
/// A partial group is not consumed.
pub open spec fn spec_skip_groups(s: Seq<char>, i: int) -> int
    decreases s.len() - i,
{
    if 0 <= i && i + 4 <= s.len() && s[i] == ',' && spec_digit(s[i + 1]) && spec_digit(s[i + 2])
        && spec_digit(s[i + 3]) {
        spec_skip_groups(s, i + 4)
    } else {
        i
    }
}

pub fn skip_groups(s: &Vec<char>, i: usize) -> (r: usize)
    requires
        i <= s@.len(),
    ensures
        r as int == spec_skip_groups(s@, i as int),
        i <= r <= s@.len(),
{
    let mut j = i;
    while s.len() - j >= 4 && s[j] == ',' && digit(s[j + 1]) && digit(s[j + 2]) && digit(s[j + 3])
        invariant
            i <= j <= s@.len(),
            spec_skip_groups(s@, i as int) == spec_skip_groups(s@, j as int),
        decreases s@.len() - j,
    {
        j = j + 4;
    }
    j
}

/// A number: digits, optional comma-separated thousands groups, and an
/// optional fraction after a dot (which may be empty).
pub open spec fn spec_scan_num(s: Seq<char>, i: int) -> Option<int> {
    if 0 <= i < s.len() && spec_digit(s[i]) {
        let j = spec_skip_groups(s, spec_skip_digits(s, i));
        if j < s.len() && s[j] == '.' {
            Some(spec_skip_digits(s, j + 1))
        } else {
            Some(j)
        }
    } else {
        None
    }
}

pub fn scan_num(s: &Vec<char>, i: usize) -> (r: Option<usize>)
    requires
        i <= s@.len(),
    ensures
        opt_end_eq(r, spec_scan_num(s@, i as int)),
        r matches Some(j) ==> i < j <= s@.len(),
{
    if i < s.len() && digit(s[i]) {
        let j = skip_groups(s, skip_digits(s, i + 1));
        if j < s.len() && s[j] == '.' {
            Some(skip_digits(s, j + 1))
        } else {
            Some(j)
        }
    } else {
        None
    }
}

// ---------------------------------------------------------------------------
// Commodities.
// ---------------------------------------------------------------------------

/// Greedy scan of commodity characters, at most `cap` of them.
pub open spec fn spec_skip_commodity_chars(s: Seq<char>, i: int, cap: int) -> int
    decreases s.len() - i,
{
    if 0 <= i < s.len() && cap > 0 && spec_commodity_char(s[i]) {
        spec_skip_commodity_chars(s, i + 1, cap - 1)
    } else {
        i
    }
}

/// Drops trailing characters that are not upper-case alphanumeric, down to
/// (but never past) position `lo`.
pub open spec fn spec_trim_commodity(s: Seq<char>, lo: int, j: int) -> int
    decreases j - lo,
{
    if lo < j && j - 1 < s.len() && 0 <= j - 1 && !spec_upper_alnum(s[j - 1]) {
        spec_trim_commodity(s, lo, j - 1)
    } else {
        j
    }
}

/// A commodity: an upper-case letter followed by at most 23 further
/// characters from the commodity alphabet, not ending in a symbol.
pub open spec fn spec_scan_commodity(s: Seq<char>, i: int) -> Option<int> {
    if 0 <= i < s.len() && spec_upper(s[i]) {
        let j = spec_skip_commodity_chars(s, i + 1, 23);
        Some(spec_trim_commodity(s, i + 1, j))
    } else {
        None
    }
}

pub fn scan_commodity(s: &Vec<char>, i: usize) -> (r: Option<usize>)
    requires
        i <= s@.len(),
    ensures
        opt_end_eq(r, spec_scan_commodity(s@, i as int)),
        r matches Some(j) ==> i < j <= s@.len(),
{
    if i < s.len() && upper(s[i]) {
        let mut j = i + 1;
        let mut cap: usize = 23;
        while j < s.len() && cap > 0 && commodity_char(s[j])
            invariant
                i + 1 <= j <= s@.len(),
                j + cap == i + 24,
                spec_skip_commodity_chars(s@, i + 1, 23) == spec_skip_commodity_chars(
                    s@,
                    j as int,
                    cap as int,
                ),
            decreases s@.len() - j,
        {
            j = j + 1;
            cap = cap - 1;
        }
        let mut k = j;
        while k > i + 1 && !upper_alnum(s[k - 1])
            invariant
                i + 1 <= k <= j <= s@.len(),
                spec_trim_commodity(s@, i + 1, j as int) == spec_trim_commodity(
                    s@,
                    i + 1,
                    k as int,
                ),
            decreases k,
        {
            k = k - 1;
        }
        Some(k)
    } else {
        None
    }
}

// ---------------------------------------------------------------------------
// Accounts.
// ---------------------------------------------------------------------------

/// The root word of an account: an upper-case letter, then word characters.
pub open spec fn spec_scan_account_word(s: Seq<char>, i: int) -> Option<int> {
    if 0 <= i < s.len() && spec_upper(s[i]) {
        Some(spec_skip_class(s, i + 1, |c: char| spec_account_word_char(c)))
    } else {
        None
    }
}

pub fn scan_account_word(s: &Vec<char>, i: usize) -> (r: Option<usize>)
    requires
        i <= s@.len(),
    ensures
        opt_end_eq(r, spec_scan_account_word(s@, i as int)),
        r matches Some(j) ==> i < j <= s@.len(),
{
    if i < s.len() && upper(s[i]) {
        let mut j = i + 1;
        while j < s.len() && account_word_char(s[j])
            invariant
                i + 1 <= j <= s@.len(),
                spec_skip_class(s@, i + 1, |c: char| spec_account_word_char(c))
                    == spec_skip_class(s@, j as int, |c: char| spec_account_word_char(c)),
            decreases s@.len() - j,
        {
            j = j + 1;
        }
        Some(j)
    } else {
        None
    }
}

/// A name piece after the root: starts with an upper-case letter or digit.
pub open spec fn spec_scan_piece(s: Seq<char>, i: int) -> Option<int> {
    if 0 <= i < s.len() && (spec_upper(s[i]) || spec_digit(s[i])) {
        Some(spec_skip_class(s, i + 1, |c: char| spec_name_piece_char(c)))
    } else {
        None
    }
}

pub fn scan_piece(s: &Vec<char>, i: usize) -> (r: Option<usize>)
    requires
        i <= s@.len(),
    ensures
        opt_end_eq(r, spec_scan_piece(s@, i as int)),
        r matches Some(j) ==> i < j <= s@.len(),
{
    if i < s.len() && (upper(s[i]) || digit(s[i])) {
        let mut j = i + 1;
        while j < s.len() && name_piece_char(s[j])
            invariant
                i + 1 <= j <= s@.len(),
                spec_skip_class(s@, i + 1, |c: char| spec_name_piece_char(c)) == spec_skip_class(
                    s@,
                    j as int,
                    |c: char| spec_name_piece_char(c),
                ),
            decreases s@.len() - j,
        {
            j = j + 1;
        }
        Some(j)
    } else {
        None
    }
}

/// The colon-and-piece tail of an account, repeated as long as it matches.
pub open spec fn spec_scan_account_tail(s: Seq<char>, i: int) -> int
    decreases s.len() - i,
{
    if 0 <= i < s.len() && s[i] == ':' {
        match spec_scan_piece(s, i + 1) {
            Some(j) => if i < j <= s.len() {
                spec_scan_account_tail(s, j)
            } else {
                i
            },
            None => i,
        }
    } else {
        i
    }
}

/// An account: a root word and at least one `:`-separated name piece.
pub open spec fn spec_scan_account(s: Seq<char>, i: int) -> Option<int> {
    match spec_scan_account_word(s, i) {
        Some(w) => {
            if w < s.len() && s[w] == ':' && spec_scan_piece(s, w + 1) is Some {
                Some(spec_scan_account_tail(s, w))
            } else {
                None
            }
        },
        None => None,
    }
}

pub fn scan_account_tail(s: &Vec<char>, i: usize) -> (r: usize)
    requires
        i <= s@.len(),
    ensures
        r as int == spec_scan_account_tail(s@, i as int),
        i <= r <= s@.len(),
{
    let mut j = i;
    loop
        invariant
            i <= j <= s@.len(),
            spec_scan_account_tail(s@, i as int) == spec_scan_account_tail(s@, j as int),
        decreases s@.len() - j,
    {
        if j < s.len() && s[j] == ':' {
            match scan_piece(s, j + 1) {
                Some(k) => {
                    j = k;
                },
                None => {
                    return j;
                },
            }
        } else {
            return j;
        }
    }
}

pub fn scan_account(s: &Vec<char>, i: usize) -> (r: Option<usize>)
    requires
        i <= s@.len(),
    ensures
        opt_end_eq(r, spec_scan_account(s@, i as int)),
        r matches Some(j) ==> i < j <= s@.len(),
{
    match scan_account_word(s, i) {
        Some(w) => {
            if w < s.len() && s[w] == ':' && scan_piece(s, w + 1).is_some() {
                Some(scan_account_tail(s, w))
            } else {
                None
            }
        },
        None => None,
    }
}

// ---------------------------------------------------------------------------
// Tags, links, keys, flags, booleans.
// ---------------------------------------------------------------------------

/// The name after `#` or `^`: at least one tag character.
pub open spec fn spec_scan_tag_name(s: Seq<char>, i: int) -> Option<int> {
    if 0 <= i < s.len() && spec_tag_char(s[i]) {
        Some(spec_skip_class(s, i + 1, |c: char| spec_tag_char(c)))
    } else {
        None
    }
}

pub fn scan_tag_name(s: &Vec<char>, i: usize) -> (r: Option<usize>)
    requires
        i <= s@.len(),
    ensures
        opt_end_eq(r, spec_scan_tag_name(s@, i as int)),
        r matches Some(j) ==> i < j <= s@.len(),
{
    if i < s.len() && tag_char(s[i]) {
        let mut j = i + 1;
        while j < s.len() && tag_char(s[j])
            invariant
                i + 1 <= j <= s@.len(),
                spec_skip_class(s@, i + 1, |c: char| spec_tag_char(c)) == spec_skip_class(
                    s@,
                    j as int,
                    |c: char| spec_tag_char(c),
                ),
            decreases s@.len() - j,
        {
            j = j + 1;
        }
        Some(j)
    } else {
        None
    }
}

/// `#` followed by a tag name.
pub open spec fn spec_scan_tag(s: Seq<char>, i: int) -> Option<int> {
    if 0 <= i < s.len() && s[i] == '#' {
        spec_scan_tag_name(s, i + 1)
    } else {
        None
    }
}

pub fn scan_tag(s: &Vec<char>, i: usize) -> (r: Option<usize>)
    requires
        i <= s@.len(),
    ensures
        opt_end_eq(r, spec_scan_tag(s@, i as int)),
        r matches Some(j) ==> i < j <= s@.len(),
{
    if i < s.len() && s[i] == '#' {
        scan_tag_name(s, i + 1)
    } else {
        None
    }
}

/// `^` followed by a link name.
pub open spec fn spec_scan_link(s: Seq<char>, i: int) -> Option<int> {
    if 0 <= i < s.len() && s[i] == '^' {
        spec_scan_tag_name(s, i + 1)
    } else {
        None
    }
}

pub fn scan_link(s: &Vec<char>, i: usize) -> (r: Option<usize>)
    requires
        i <= s@.len(),
    ensures
        opt_end_eq(r, spec_scan_link(s@, i as int)),
        r matches Some(j) ==> i < j <= s@.len(),
{
    if i < s.len() && s[i] == '^' {
        scan_tag_name(s, i + 1)
    } else {
        None
    }
}

/// A metadata key: a lower-case letter, then at least one key character.
pub open spec fn spec_scan_key(s: Seq<char>, i: int) -> Option<int> {
    if 0 <= i && i + 1 < s.len() && spec_lower(s[i]) && spec_key_char(s[i + 1]) {
        Some(spec_skip_class(s, i + 2, |c: char| spec_key_char(c)))
    } else {
        None
    }
}

pub fn scan_key(s: &Vec<char>, i: usize) -> (r: Option<usize>)
    requires
        i <= s@.len(),
    ensures
        opt_end_eq(r, spec_scan_key(s@, i as int)),
        r matches Some(j) ==> i < j <= s@.len(),
{
    if s.len() - i >= 2 && lower(s[i]) && key_char(s[i + 1]) {
        let mut j = i + 2;
        while j < s.len() && key_char(s[j])
            invariant
                i + 2 <= j <= s@.len(),
                spec_skip_class(s@, i + 2, |c: char| spec_key_char(c)) == spec_skip_class(
                    s@,
                    j as int,
                    |c: char| spec_key_char(c),
                ),
            decreases s@.len() - j,
        {
            j = j + 1;
        }
        Some(j)
    } else {
        None
    }
}

pub open spec fn spec_flag_char(c: char) -> bool {
    c == '*' || c == '!' || c == 'P' || c == 'S' || c == 'T' || c == 'C' || c == 'U' || c == 'R'
        || c == 'M' || c == '#'
}

/// A transaction flag: `txn`, or one of the single flag characters.
pub open spec fn spec_scan_flag(s: Seq<char>, i: int) -> Option<int> {
    if spec_match_lit(s, i, "txn"@) {
        Some(i + "txn"@.len())
    } else if 0 <= i < s.len() && spec_flag_char(s[i]) {
        Some(i + 1)
    } else {
        None
    }
}

pub fn scan_flag(s: &Vec<char>, i: usize) -> (r: Option<usize>)
    requires
        i <= s@.len(),
    ensures
        opt_end_eq(r, spec_scan_flag(s@, i as int)),
        r matches Some(j) ==> i < j <= s@.len(),
{
    proof {
        reveal_strlit("txn");
    }
    match match_word(s, i, "txn") {
        Some(j) => Some(j),
        None => {
            if i < s.len() && (s[i] == '*' || s[i] == '!' || s[i] == 'P' || s[i] == 'S' || s[i]
                == 'T' || s[i] == 'C' || s[i] == 'U' || s[i] == 'R' || s[i] == 'M' || s[i]
                == '#') {
                Some(i + 1)
            } else {
                None
            }
        },
    }
}

/// A boolean literal.
pub open spec fn spec_scan_bool(s: Seq<char>, i: int) -> Option<int> {
    if spec_match_lit(s, i, "true"@) {
        Some(i + "true"@.len())
    } else if spec_match_lit(s, i, "True"@) {
        Some(i + "True"@.len())
    } else if spec_match_lit(s, i, "TRUE"@) {
        Some(i + "TRUE"@.len())
    } else if spec_match_lit(s, i, "false"@) {
        Some(i + "false"@.len())
    } else if spec_match_lit(s, i, "False"@) {
        Some(i + "False"@.len())
    } else if spec_match_lit(s, i, "FALSE"@) {
        Some(i + "FALSE"@.len())
    } else {
        None
    }
}

pub fn scan_bool(s: &Vec<char>, i: usize) -> (r: Option<usize>)
    requires
        i <= s@.len(),
    ensures
        opt_end_eq(r, spec_scan_bool(s@, i as int)),
        r matches Some(j) ==> i < j <= s@.len(),
{
    proof {
        reveal_strlit("true");
        reveal_strlit("True");
        reveal_strlit("TRUE");
        reveal_strlit("false");
        reveal_strlit("False");
        reveal_strlit("FALSE");
    }
    match match_word(s, i, "true") {
        Some(j) => Some(j),
        None => match match_word(s, i, "True") {
            Some(j) => Some(j),
            None => match match_word(s, i, "TRUE") {
                Some(j) => Some(j),
                None => match match_word(s, i, "false") {
                    Some(j) => Some(j),
                    None => match match_word(s, i, "False") {
                        Some(j) => Some(j),
                        None => match match_word(s, i, "FALSE") {
                            Some(j) => Some(j),
                            None => None,
                        },
                    },
                },
            },
        },
    }
}

// ---------------------------------------------------------------------------
// Quoted strings.
// ---------------------------------------------------------------------------

/// The inside of a quoted string from `i`: the position of the closing
/// quote's end, if the string is terminated.  Escape sequences are a
/// backslash followed by any character; they are not resolved.
pub open spec fn spec_scan_quoted_inner(s: Seq<char>, i: int) -> Option<int>
    decreases s.len() - i,
{
    if 0 <= i < s.len() {
        if s[i] == '"' {
            Some(i + 1)
        } else if s[i] == '\\' {
            if i + 2 <= s.len() {
                spec_scan_quoted_inner(s, i + 2)
            } else {
                None
            }
        } else {
            spec_scan_quoted_inner(s, i + 1)
        }
    } else {
        None
    }
}

/// A double-quoted, backslash-escaped string.
pub open spec fn spec_scan_quoted(s: Seq<char>, i: int) -> Option<int> {
    if 0 <= i < s.len() && s[i] == '"' {
        spec_scan_quoted_inner(s, i + 1)
    } else {
        None
    }
}

pub fn scan_quoted_inner(s: &Vec<char>, i: usize) -> (r: Option<usize>)
    requires
        i <= s@.len(),
    ensures
        opt_end_eq(r, spec_scan_quoted_inner(s@, i as int)),
        r matches Some(j) ==> i < j <= s@.len(),
{
    let mut j = i;
    loop
        invariant
            i <= j <= s@.len(),
            spec_scan_quoted_inner(s@, i as int) == spec_scan_quoted_inner(s@, j as int),
        decreases s@.len() - j,
    {
        if j >= s.len() {
            return None;
        }
        if s[j] == '"' {
            return Some(j + 1);
        }
        if s[j] == '\\' {
            if s.len() - j >= 2 {
                j = j + 2;
            } else {
                return None;
            }
        } else {
            j = j + 1;
        }
    }
}

pub fn scan_quoted(s: &Vec<char>, i: usize) -> (r: Option<usize>)
    requires
        i <= s@.len(),
    ensures
        opt_end_eq(r, spec_scan_quoted(s@, i as int)),
        r matches Some(j) ==> i < j <= s@.len(),
{
    if i < s.len() && s[i] == '"' {
        scan_quoted_inner(s, i + 1)
    } else {
        None
    }
}

// ---------------------------------------------------------------------------
// Extraction.
// ---------------------------------------------------------------------------

/// Copies the characters of `s` between `lo` and `hi`.
pub fn copy_range(s: &Vec<char>, lo: usize, hi: usize) -> (r: Vec<char>)
    requires
        lo <= hi <= s@.len(),
    ensures
        r@ == s@.subrange(lo as int, hi as int),
{
    let mut r: Vec<char> = Vec::new();
    let mut k = lo;
    while k < hi
        invariant
            lo <= k <= hi <= s@.len(),
            r@ == s@.subrange(lo as int, k as int),
        decreases hi - k,
    {
        r.push(s[k]);
        proof {
            assert(r@ =~= s@.subrange(lo as int, k + 1));
        }
        k = k + 1;
    }
    r
}

} // verus!

// A whole-buffer copy, for taking owned copies of token text.

verus! {

/// Copies a character buffer.
pub fn clone_chars(v: &Vec<char>) -> (r: Vec<char>)
    ensures
        r@ == v@,
{
    let r = copy_range(v, 0, v.len());
    proof {
        assert(r@ =~= v@);
    }
    r
}

} // verus!

// A terminated quoted string spans at least its two quotes.

verus! {

pub proof fn lemma_quoted_inner_bounds(s: Seq<char>, i: int)
    ensures
        spec_scan_quoted_inner(s, i) matches Some(j) ==> j >= i + 1,
    decreases s.len() - i,
{
    if 0 <= i < s.len() {
        if s[i] == '"' {
        } else if s[i] == '\\' {
            if i + 2 <= s.len() {
                lemma_quoted_inner_bounds(s, i + 2);
            }
        } else {
            lemma_quoted_inner_bounds(s, i + 1);
        }
    }
}

} // verus!
