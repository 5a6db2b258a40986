//! The typed ledger model: directives, postings, amounts, cost
//! specifications and metadata.
//!
//! Text is held as `Vec<char>`; every type has a spec-level image (its view)
//! over `Seq<char>`, which the parser's and renderer's contracts speak of.

use vstd::prelude::*;
use crate::decimal::Decimal;

verus! {

// ---------------------------------------------------------------------------
// Account types and accounts.
// ---------------------------------------------------------------------------

/// The five canonical account types.
#[derive(Debug, Clone, Copy, PartialEq, Eq, Hash, Structural)]
pub enum AccountType {
    Assets,
    Liabilities,
    Equity,
    Income,
    Expenses,
}

/// The default textual root for an account type.
pub open spec fn spec_default_name(ty: AccountType) -> Seq<char> {
    match ty {
        AccountType::Assets => "Assets"@,
        AccountType::Liabilities => "Liabilities"@,
        AccountType::Equity => "Equity"@,
        AccountType::Income => "Income"@,
        AccountType::Expenses => "Expenses"@,
    }
}

impl AccountType {
    /// The default name for this account type.
    pub fn default_name(&self) -> (r: &'static str)
        ensures
            r@ == spec_default_name(*self),
    {
        match self {
            AccountType::Assets => "Assets",
            AccountType::Liabilities => "Liabilities",
            AccountType::Equity => "Equity",
            AccountType::Income => "Income",
            AccountType::Expenses => "Expenses",
        }
    }
}

impl DeepView for AccountType {
    type V = AccountType;

    open spec fn deep_view(&self) -> AccountType {
        *self
    }
}

pub struct AccountV {
    pub ty: AccountType,
    pub parts: Seq<Seq<char>>,
}

/// An account: its canonical type, and the name pieces after the root.
#[derive(Debug, Clone, PartialEq)]
pub struct Account {
    /// Type of the account.
    pub ty: AccountType,
    /// Parts of the account name following the root word.
    pub parts: Vec<Vec<char>>,
}

impl View for Account {
    type V = AccountV;

    open spec fn view(&self) -> AccountV {
        AccountV { ty: self.ty, parts: self.parts.deep_view() }
    }
}

impl DeepView for Account {
    type V = AccountV;

    open spec fn deep_view(&self) -> AccountV {
        self@
    }
}

// ---------------------------------------------------------------------------
// Dates.
// ---------------------------------------------------------------------------

/// A date, kept as the validated text the grammar accepted.
#[derive(Debug, Clone, PartialEq, Eq, Hash)]
pub struct Date {
    pub text: Vec<char>,
}

impl View for Date {
    type V = Seq<char>;

    open spec fn view(&self) -> Seq<char> {
        self.text@
    }
}

impl DeepView for Date {
    type V = Seq<char>;

    open spec fn deep_view(&self) -> Seq<char> {
        self.text@
    }
}

impl Date {
    /// Wraps a string as a date without validating it.
    pub fn from_str_unchecked(s: &str) -> (r: Date)
        ensures
            r@ == s@,
    {
        Date { text: crate::chars::chars_of_str(s) }
    }

    /// Wraps an owned string as a date without validating it.
    pub fn from_string_unchecked(s: String) -> (r: Date)
        ensures
            r@ == s@,
    {
        Date { text: crate::chars::chars_of_str(s.as_str()) }
    }

    /// Wraps a character buffer as a date without validating it.
    pub fn from_chars_unchecked(s: Vec<char>) -> (r: Date)
        ensures
            r@ == s@,
    {
        Date { text: s }
    }
}

// ---------------------------------------------------------------------------
// Flags.
// ---------------------------------------------------------------------------

pub enum FlagV {
    Okay,
    Warning,
    Other(Seq<char>),
}

/// A flag on a transaction or posting.
#[derive(Debug, Clone, PartialEq, Eq, Hash)]
pub enum Flag {
    Okay,
    Warning,
    Other(Vec<char>),
}

impl View for Flag {
    type V = FlagV;

    open spec fn view(&self) -> FlagV {
        match self {
            Flag::Okay => FlagV::Okay,
            Flag::Warning => FlagV::Warning,
            Flag::Other(s) => FlagV::Other(s@),
        }
    }
}

impl DeepView for Flag {
    type V = FlagV;

    open spec fn deep_view(&self) -> FlagV {
        self@
    }
}

/// The flag a token denotes: `*` and `txn` mean Okay, `!` means Warning, and
/// anything else is kept as written.
pub open spec fn spec_flag_of(s: Seq<char>) -> FlagV {
    if s == "*"@ || s == "txn"@ {
        FlagV::Okay
    } else if s == "!"@ {
        FlagV::Warning
    } else {
        FlagV::Other(s)
    }
}

impl Flag {
    /// Classifies a flag token.
    pub fn from_token(s: Vec<char>) -> (r: Flag)
        ensures
            r@ == spec_flag_of(s@),
    {
        if crate::chars::chars_eq_str(&s, "*") || crate::chars::chars_eq_str(&s, "txn") {
            Flag::Okay
        } else if crate::chars::chars_eq_str(&s, "!") {
            Flag::Warning
        } else {
            Flag::Other(s)
        }
    }
}

impl Default for Flag {
    /// The default flag is Okay.
    fn default() -> (r: Flag)
        ensures
            r@ == FlagV::Okay,
    {
        Flag::Okay
    }
}

// ---------------------------------------------------------------------------
// Booking methods.
// ---------------------------------------------------------------------------

/// The booking methods for positions on accounts.
#[derive(Debug, Clone, Copy, PartialEq, Eq, Structural)]
pub enum Booking {
    /// Reject ambiguous matches with an error.
    Strict,
    /// Disable matching and accept the creation of mixed inventories.
    Disabled,
    /// Average cost booking: merge all matching lots before and after.
    Average,
    /// First-in first-out in the case of ambiguity.
    Fifo,
    /// Last-in first-out in the case of ambiguity.
    Lifo,
}

impl DeepView for Booking {
    type V = Booking;

    open spec fn deep_view(&self) -> Booking {
        *self
    }
}

// ---------------------------------------------------------------------------
// Amounts.
// ---------------------------------------------------------------------------

pub struct AmountV {
    pub num: Decimal,
    pub currency: Seq<char>,
}

/// A number of units of a commodity.
#[derive(Debug, Clone, PartialEq)]
pub struct Amount {
    pub num: Decimal,
    pub currency: Vec<char>,
}

impl View for Amount {
    type V = AmountV;

    open spec fn view(&self) -> AmountV {
        AmountV { num: self.num, currency: self.currency@ }
    }
}

impl DeepView for Amount {
    type V = AmountV;

    open spec fn deep_view(&self) -> AmountV {
        self@
    }
}

pub struct IncompleteAmountV {
    pub num: Option<Decimal>,
    pub currency: Option<Seq<char>>,
}

/// An amount whose number and/or commodity may be elided.
#[derive(Debug, Clone, PartialEq)]
pub struct IncompleteAmount {
    pub num: Option<Decimal>,
    pub currency: Option<Vec<char>>,
}

impl View for IncompleteAmount {
    type V = IncompleteAmountV;

    open spec fn view(&self) -> IncompleteAmountV {
        IncompleteAmountV { num: self.num, currency: self.currency.deep_view() }
    }
}

impl DeepView for IncompleteAmount {
    type V = IncompleteAmountV;

    open spec fn deep_view(&self) -> IncompleteAmountV {
        self@
    }
}

impl Amount {
    /// Completes an incomplete amount; fails when either field is elided.
    pub fn try_from(val: IncompleteAmount) -> (r: Result<Amount, ()>)
        ensures
            match r {
                Ok(a) => (val@.num matches Some(n) && a.num == n) && (val@.currency matches Some(
                    c,
                ) && a@.currency == c),
                Err(()) => val@.num is None || val@.currency is None,
            },
    {
        match (val.num, val.currency) {
            (Some(num), Some(currency)) => Ok(Amount { num, currency }),
            _ => Err(()),
        }
    }
}

impl IncompleteAmount {
    /// An amount with both fields present.
    pub fn from_amount(val: Amount) -> (r: IncompleteAmount)
        ensures
            r@.num == Some(val.num),
            r@.currency == Some(val@.currency),
    {
        IncompleteAmount { num: Some(val.num), currency: Some(val.currency) }
    }
}

// ---------------------------------------------------------------------------
// Cost and price specifications.
// ---------------------------------------------------------------------------

pub struct CostSpecV {
    pub number_per: Option<Decimal>,
    pub number_total: Option<Decimal>,
    pub currency: Option<Seq<char>>,
    pub date: Option<Seq<char>>,
    pub label: Option<Seq<char>>,
    pub merge_cost: bool,
}

/// A cost attached to a posting, written `{ ... }` or `{{ ... }}`.
#[derive(Debug, Clone, PartialEq)]
pub struct CostSpec {
    pub number_per: Option<Decimal>,
    pub number_total: Option<Decimal>,
    pub currency: Option<Vec<char>>,
    pub date: Option<Date>,
    pub label: Option<Vec<char>>,
    /// All lots are to be merged and average cost used.
    pub merge_cost: bool,
}

impl View for CostSpec {
    type V = CostSpecV;

    open spec fn view(&self) -> CostSpecV {
        CostSpecV {
            number_per: self.number_per,
            number_total: self.number_total,
            currency: self.currency.deep_view(),
            date: self.date.deep_view(),
            label: self.label.deep_view(),
            merge_cost: self.merge_cost,
        }
    }
}

impl DeepView for CostSpec {
    type V = CostSpecV;

    open spec fn deep_view(&self) -> CostSpecV {
        self@
    }
}

pub enum PriceSpecV {
    PerUnit(IncompleteAmountV),
    Total(IncompleteAmountV),
}

/// A price annotation: `@` gives a per-unit price, `@@` a total price.
#[derive(Debug, Clone, PartialEq)]
pub enum PriceSpec {
    PerUnit(IncompleteAmount),
    Total(IncompleteAmount),
}

impl View for PriceSpec {
    type V = PriceSpecV;

    open spec fn view(&self) -> PriceSpecV {
        match self {
            PriceSpec::PerUnit(a) => PriceSpecV::PerUnit(a@),
            PriceSpec::Total(a) => PriceSpecV::Total(a@),
        }
    }
}

impl DeepView for PriceSpec {
    type V = PriceSpecV;

    open spec fn deep_view(&self) -> PriceSpecV {
        self@
    }
}

// ---------------------------------------------------------------------------
// Metadata.
// ---------------------------------------------------------------------------

pub enum MetaValueV {
    Text(Seq<char>),
    Account(AccountV),
    Date(Seq<char>),
    Currency(Seq<char>),
    Tag(Seq<char>),
    Bool(bool),
    Amount(AmountV),
    Number(Decimal),
}

/// A value in a metadata map.
#[derive(Debug, Clone, PartialEq)]
pub enum MetaValue {
    Text(Vec<char>),
    Account(Account),
    Date(Date),
    Currency(Vec<char>),
    Tag(Vec<char>),
    Bool(bool),
    Amount(Amount),
    Number(Decimal),
}

impl View for MetaValue {
    type V = MetaValueV;

    open spec fn view(&self) -> MetaValueV {
        match self {
            MetaValue::Text(s) => MetaValueV::Text(s@),
            MetaValue::Account(a) => MetaValueV::Account(a@),
            MetaValue::Date(d) => MetaValueV::Date(d@),
            MetaValue::Currency(c) => MetaValueV::Currency(c@),
            MetaValue::Tag(t) => MetaValueV::Tag(t@),
            MetaValue::Bool(b) => MetaValueV::Bool(*b),
            MetaValue::Amount(a) => MetaValueV::Amount(a@),
            MetaValue::Number(n) => MetaValueV::Number(*n),
        }
    }
}

impl DeepView for MetaValue {
    type V = MetaValueV;

    open spec fn deep_view(&self) -> MetaValueV {
        self@
    }
}

pub struct MetaEntryV {
    pub key: Seq<char>,
    pub value: MetaValueV,
}

/// One key/value pair of metadata.  Metadata is an insertion-ordered
/// sequence of such pairs; duplicate keys are not rejected.
#[derive(Debug, Clone, PartialEq)]
pub struct MetaEntry {
    pub key: Vec<char>,
    pub value: MetaValue,
}

impl View for MetaEntry {
    type V = MetaEntryV;

    open spec fn view(&self) -> MetaEntryV {
        MetaEntryV { key: self.key@, value: self.value@ }
    }
}

impl DeepView for MetaEntry {
    type V = MetaEntryV;

    open spec fn deep_view(&self) -> MetaEntryV {
        self@
    }
}

// ---------------------------------------------------------------------------
// Postings.
// ---------------------------------------------------------------------------

pub struct PostingV {
    pub flag: Option<FlagV>,
    pub account: AccountV,
    pub units: IncompleteAmountV,
    pub cost: Option<CostSpecV>,
    pub price: Option<PriceSpecV>,
    pub meta: Seq<MetaEntryV>,
}

/// One leg of a transaction: an amount posted to an account.
#[derive(Debug, Clone, PartialEq)]
pub struct Posting {
    pub flag: Option<Flag>,
    pub account: Account,
    pub units: IncompleteAmount,
    pub cost: Option<CostSpec>,
    pub price: Option<PriceSpec>,
    pub meta: Vec<MetaEntry>,
}

impl View for Posting {
    type V = PostingV;

    open spec fn view(&self) -> PostingV {
        PostingV {
            flag: self.flag.deep_view(),
            account: self.account@,
            units: self.units@,
            cost: self.cost.deep_view(),
            price: self.price.deep_view(),
            meta: self.meta.deep_view(),
        }
    }
}

impl DeepView for Posting {
    type V = PostingV;

    open spec fn deep_view(&self) -> PostingV {
        self@
    }
}

} // verus!

// Which views carry only representable decimals.

verus! {

pub open spec fn spec_amount_valid(a: AmountV) -> bool {
    crate::decimal::dec_valid(a.num)
}

pub open spec fn spec_opt_dec_valid(d: Option<Decimal>) -> bool {
    d matches Some(x) ==> crate::decimal::dec_valid(x)
}

pub open spec fn spec_incomplete_valid(a: IncompleteAmountV) -> bool {
    spec_opt_dec_valid(a.num)
}

pub open spec fn spec_cost_valid(c: CostSpecV) -> bool {
    spec_opt_dec_valid(c.number_per) && spec_opt_dec_valid(c.number_total)
}

pub open spec fn spec_price_valid(p: PriceSpecV) -> bool {
    match p {
        PriceSpecV::PerUnit(a) => spec_incomplete_valid(a),
        PriceSpecV::Total(a) => spec_incomplete_valid(a),
    }
}

pub open spec fn spec_mv_valid(v: MetaValueV) -> bool {
    match v {
        MetaValueV::Amount(a) => spec_amount_valid(a),
        MetaValueV::Number(d) => crate::decimal::dec_valid(d),
        _ => true,
    }
}

pub open spec fn spec_meta_valid(m: Seq<MetaEntryV>) -> bool {
    forall|k: int| 0 <= k < m.len() ==> spec_mv_valid((#[trigger] m[k]).value)
}

pub open spec fn spec_posting_valid(p: PostingV) -> bool {
    &&& spec_incomplete_valid(p.units)
    &&& (p.cost matches Some(c) ==> spec_cost_valid(c))
    &&& (p.price matches Some(pr) ==> spec_price_valid(pr))
    &&& spec_meta_valid(p.meta)
}

} // verus!
