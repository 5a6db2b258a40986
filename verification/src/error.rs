//! The error model: a kind, a (line, column) location, and constructors for
//! the three kinds of failure the parser can report.

use vstd::prelude::*;

verus! {

/// Spec-level image of an error kind: which kind, and the message text.
pub enum ErrorKindV {
    Decimal(Seq<char>),
    Input(Seq<char>),
    State(Seq<char>),
}

/// The three kinds of parse failure.
#[derive(Debug, Clone, PartialEq)]
pub enum ParseErrorKind {
    /// A number token could not be converted to a decimal value.
    DecimalError { message: String },
    /// The input breaks the grammar or a domain rule.
    InvalidInput { message: String },
    /// A defensive check failed that the grammar should have made
    /// unreachable; this signals a bug in the parser, not bad input.
    InvalidParserState { message: String },
}

impl View for ParseErrorKind {
    type V = ErrorKindV;

    open spec fn view(&self) -> ErrorKindV {
        match self {
            ParseErrorKind::DecimalError { message } => ErrorKindV::Decimal(message@),
            ParseErrorKind::InvalidInput { message } => ErrorKindV::Input(message@),
            ParseErrorKind::InvalidParserState { message } => ErrorKindV::State(message@),
        }
    }
}

impl ParseErrorKind {
    /// The message carried by the kind.
    pub fn message(&self) -> (r: &String)
        ensures
            r@ == self@.spec_message(),
    {
        match self {
            ParseErrorKind::DecimalError { message } => message,
            ParseErrorKind::InvalidInput { message } => message,
            ParseErrorKind::InvalidParserState { message } => message,
        }
    }
}

impl ErrorKindV {
    pub open spec fn spec_message(self) -> Seq<char> {
        match self {
            ErrorKindV::Decimal(m) => m,
            ErrorKindV::Input(m) => m,
            ErrorKindV::State(m) => m,
        }
    }
}

/// Spec-level image of a parse error.
pub struct ParseErrorV {
    pub kind: ErrorKindV,
    pub line: nat,
    pub column: nat,
}

/// A parse failure: what went wrong and where, as a 1-based
/// (line, column) pair.  A location of (0, 0) means no location is known.
#[derive(Debug)]
pub struct ParseError {
    pub kind: ParseErrorKind,
    pub location: (usize, usize),
}

impl View for ParseError {
    type V = ParseErrorV;

    open spec fn view(&self) -> ParseErrorV {
        ParseErrorV { kind: self.kind@, line: self.location.0 as nat, column: self.location.1 as nat }
    }
}

impl ParseError {
    /// A parser-state error with no location.
    pub fn invalid_state(msg: &str) -> (r: ParseError)
        ensures
            r@ == (ParseErrorV { kind: ErrorKindV::State(msg@), line: 0, column: 0 }),
    {
        ParseError {
            kind: ParseErrorKind::InvalidParserState { message: msg.to_owned() },
            location: (0, 0),
        }
    }

    /// A parser-state error at a location.
    pub fn invalid_state_at(msg: &str, location: (usize, usize)) -> (r: ParseError)
        ensures
            r@ == (ParseErrorV {
                kind: ErrorKindV::State(msg@),
                line: location.0 as nat,
                column: location.1 as nat,
            }),
    {
        ParseError {
            kind: ParseErrorKind::InvalidParserState { message: msg.to_owned() },
            location,
        }
    }

    /// An invalid-input error at a location, from a borrowed message.
    pub fn invalid_input_str_at(msg: &str, location: (usize, usize)) -> (r: ParseError)
        ensures
            r@ == (ParseErrorV {
                kind: ErrorKindV::Input(msg@),
                line: location.0 as nat,
                column: location.1 as nat,
            }),
    {
        ParseError {
            kind: ParseErrorKind::InvalidInput { message: msg.to_owned() },
            location,
        }
    }

    /// An invalid-input error at a location, from an owned message.
    pub fn invalid_input_at(message: String, location: (usize, usize)) -> (r: ParseError)
        ensures
            r@ == (ParseErrorV {
                kind: ErrorKindV::Input(message@),
                line: location.0 as nat,
                column: location.1 as nat,
            }),
    {
        ParseError { kind: ParseErrorKind::InvalidInput { message }, location }
    }

    /// A decimal-conversion error at a location.
    pub fn decimal_error_at(message: String, location: (usize, usize)) -> (r: ParseError)
        ensures
            r@ == (ParseErrorV {
                kind: ErrorKindV::Decimal(message@),
                line: location.0 as nat,
                column: location.1 as nat,
            }),
    {
        ParseError { kind: ParseErrorKind::DecimalError { message }, location }
    }
}

// ---------------------------------------------------------------------------
// Locations.
// ---------------------------------------------------------------------------

/// The 1-based (line, column) of the character position `pos` in `s`.
pub open spec fn spec_line_col(s: Seq<char>, pos: int) -> (int, int)
    decreases pos,
{
    if pos <= 0 {
        (1, 1)
    } else {
        let prev = spec_line_col(s, pos - 1);
        if s[pos - 1] == '\n' {
            (prev.0 + 1, 1)
        } else {
            (prev.0, prev.1 + 1)
        }
    }
}

pub proof fn lemma_line_col_bounds(s: Seq<char>, pos: int)
    requires
        pos >= 0,
    ensures
        1 <= spec_line_col(s, pos).0 <= pos + 1,
        1 <= spec_line_col(s, pos).1 <= pos + 1,
    decreases pos,
{
    if pos > 0 {
        lemma_line_col_bounds(s, pos - 1);
    }
}

/// Computes the 1-based (line, column) of `pos` within `s`.
pub fn line_col(s: &Vec<char>, pos: usize) -> (r: (usize, usize))
    requires
        pos <= s@.len(),
        pos < usize::MAX,
    ensures
        (r.0 as int, r.1 as int) == spec_line_col(s@, pos as int),
{
    let mut line: usize = 1;
    let mut col: usize = 1;
    let mut i: usize = 0;
    while i < pos
        invariant
            i <= pos,
            pos <= s@.len(),
            pos < usize::MAX,
            (line as int, col as int) == spec_line_col(s@, i as int),
        decreases pos - i,
    {
        proof {
            lemma_line_col_bounds(s@, i as int);
        }
        if s[i] == '\n' {
            line = line + 1;
            col = 1;
        } else {
            col = col + 1;
        }
        i = i + 1;
    }
    (line, col)
}

} // verus!
