//! Character classes used by the grammar, and the two conversions between
//! `str`/`String` and the `Vec<char>` buffers the library works on.

use vstd::prelude::*;

verus! {

// ---------------------------------------------------------------------------
// Character classes (spec side).
// ---------------------------------------------------------------------------

pub open spec fn spec_digit(c: char) -> bool {
    '0' <= c && c <= '9'
}

pub open spec fn spec_upper(c: char) -> bool {
    'A' <= c && c <= 'Z'
}

pub open spec fn spec_lower(c: char) -> bool {
    'a' <= c && c <= 'z'
}

pub open spec fn spec_alpha(c: char) -> bool {
    spec_upper(c) || spec_lower(c)
}

/// Upper-case alphanumeric: the characters a commodity may end with.
pub open spec fn spec_upper_alnum(c: char) -> bool {
    spec_upper(c) || spec_digit(c)
}

/// Characters allowed inside a commodity name.
pub open spec fn spec_commodity_char(c: char) -> bool {
    spec_upper(c) || spec_digit(c) || c == '\'' || c == '.' || c == '_' || c == '-'
}

/// Characters allowed after the first character of an account name piece.
pub open spec fn spec_name_piece_char(c: char) -> bool {
    spec_alpha(c) || spec_digit(c) || c == '-'
}

/// Characters allowed in a tag or link name.
pub open spec fn spec_tag_char(c: char) -> bool {
    spec_alpha(c) || spec_digit(c) || c == '-' || c == '.' || c == '/' || c == '_'
}

/// Characters allowed after the first character of a metadata key.
pub open spec fn spec_key_char(c: char) -> bool {
    spec_alpha(c) || spec_digit(c) || c == '-' || c == '_'
}

/// Characters allowed after the first character of the root word of an
/// account.  Letters beyond ASCII are accepted here, as the surface syntax
/// allows renamed roots written in other languages.
pub open spec fn spec_account_word_char(c: char) -> bool {
    spec_alpha(c) || spec_digit(c) || c == '-' || c > '\u{7f}'
}

/// Horizontal whitespace.
pub open spec fn spec_hspace(c: char) -> bool {
    c == ' ' || c == '\t'
}

// ---------------------------------------------------------------------------
// Character classes (exec side).
// ---------------------------------------------------------------------------

pub fn digit(c: char) -> (b: bool)
    ensures
        b == spec_digit(c),
{
    '0' <= c && c <= '9'
}

pub fn upper(c: char) -> (b: bool)
    ensures
        b == spec_upper(c),
{
    'A' <= c && c <= 'Z'
}

pub fn lower(c: char) -> (b: bool)
    ensures
        b == spec_lower(c),
{
    'a' <= c && c <= 'z'
}

pub fn alpha(c: char) -> (b: bool)
    ensures
        b == spec_alpha(c),
{
    upper(c) || lower(c)
}

pub fn upper_alnum(c: char) -> (b: bool)
    ensures
        b == spec_upper_alnum(c),
{
    upper(c) || digit(c)
}

pub fn commodity_char(c: char) -> (b: bool)
    ensures
        b == spec_commodity_char(c),
{
    upper(c) || digit(c) || c == '\'' || c == '.' || c == '_' || c == '-'
}

pub fn name_piece_char(c: char) -> (b: bool)
    ensures
        b == spec_name_piece_char(c),
{
    alpha(c) || digit(c) || c == '-'
}

pub fn tag_char(c: char) -> (b: bool)
    ensures
        b == spec_tag_char(c),
{
    alpha(c) || digit(c) || c == '-' || c == '.' || c == '/' || c == '_'
}

pub fn key_char(c: char) -> (b: bool)
    ensures
        b == spec_key_char(c),
{
    alpha(c) || digit(c) || c == '-' || c == '_'
}

pub fn account_word_char(c: char) -> (b: bool)
    ensures
        b == spec_account_word_char(c),
{
    alpha(c) || digit(c) || c == '-' || c > '\u{7f}'
}

pub fn hspace(c: char) -> (b: bool)
    ensures
        b == spec_hspace(c),
{
    c == ' ' || c == '\t'
}

// ---------------------------------------------------------------------------
// Edge conversions.
// ---------------------------------------------------------------------------

/// Relies on `str::chars`: yields exactly the characters of the string,
/// in order.
#[verifier::external_body]
pub fn chars_of_str(s: &str) -> (r: Vec<char>)
    ensures
        r@ == s@,
{
    s.chars().collect()
}

/// Relies on `FromIterator<char> for String`: collecting characters builds
/// the string with exactly those characters, in order.
#[verifier::external_body]
pub fn string_from_chars(v: &Vec<char>) -> (r: String)
    ensures
        r@ == v@,
{
    v.iter().collect()
}

/// Compares two character buffers for equality of their contents.
pub fn eq_chars(a: &Vec<char>, b: &Vec<char>) -> (r: bool)
    ensures
        r == (a@ == b@),
{
    if a.len() != b.len() {
        proof {
            if a@ == b@ {
                assert(a@.len() == b@.len());
            }
        }
        return false;
    }
    let mut i: usize = 0;
    while i < a.len()
        invariant
            i <= a@.len(),
            a@.len() == b@.len(),
            forall|k: int| 0 <= k < i ==> a@[k] == b@[k],
        decreases a@.len() - i,
    {
        if a[i] != b[i] {
            return false;
        }
        i = i + 1;
    }
    proof {
        assert(a@ =~= b@);
    }
    true
}

/// Compares a character buffer against a string slice.
pub fn chars_eq_str(a: &Vec<char>, s: &str) -> (r: bool)
    ensures
        r == (a@ == s@),
{
    let b = chars_of_str(s);
    eq_chars(a, &b)
}

} // verus!

// Building message and output text.

verus! {

/// Appends the characters of `src` to `dst`.
pub fn append_chars(dst: &mut Vec<char>, src: &Vec<char>)
    ensures
        final(dst)@ == old(dst)@ + src@,
{
    let mut k: usize = 0;
    while k < src.len()
        invariant
            k <= src@.len(),
            dst@ == old(dst)@ + src@.take(k as int),
        decreases src@.len() - k,
    {
        dst.push(src[k]);
        proof {
            assert(old(dst)@ + src@.take(k as int) + seq![src@[k as int]] =~= old(dst)@
                + src@.take(k + 1));
        }
        k = k + 1;
    }
    proof {
        assert(src@.take(src@.len() as int) =~= src@);
    }
}

/// Appends the characters of a string literal to `dst`.
pub fn append_str(dst: &mut Vec<char>, src: &str)
    ensures
        final(dst)@ == old(dst)@ + src@,
{
    let v = chars_of_str(src);
    append_chars(dst, &v);
}

} // verus!

// Relating built vectors to their spec images.

verus! {

/// A `Vec<char>`'s deep view is its view.
pub proof fn lemma_chars_deep_view(v: Vec<char>)
    ensures
        v.deep_view() == v@,
{
    assert(v.deep_view() =~= v@);
}

/// Pushing onto a vector pushes onto its deep view.
pub proof fn lemma_deep_view_push<T: DeepView>(v: Vec<T>, prev: Vec<T>, x: T)
    requires
        v@ == prev@.push(x),
    ensures
        v.deep_view() == prev.deep_view().push(x.deep_view()),
{
    assert(v.deep_view() =~= prev.deep_view().push(x.deep_view()));
}

/// An empty vector's deep view is empty.
pub proof fn lemma_deep_view_empty<T: DeepView>(v: Vec<T>)
    requires
        v@.len() == 0,
    ensures
        v.deep_view() == Seq::<T::V>::empty(),
{
    assert(v.deep_view() =~= Seq::<T::V>::empty());
}

} // verus!

// Deep views of string vectors from elementwise facts.

verus! {

pub proof fn lemma_str_vec_deep_view(v: Vec<Vec<char>>, s: Seq<Seq<char>>)
    requires
        v@.len() == s.len(),
        forall|m: int| 0 <= m < s.len() ==> (#[trigger] v@[m])@ == s[m],
    ensures
        v.deep_view() == s,
{
    assert forall|m: int| 0 <= m < s.len() implies v.deep_view()[m] == s[m] by {
        lemma_chars_deep_view(v@[m]);
    }
    assert(v.deep_view() =~= s);
}

} // verus!
