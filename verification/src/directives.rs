//! The directive types and the ledger that owns them.

use vstd::prelude::*;
use crate::decimal::Decimal;
use crate::model::{
    Account, AccountV, Amount, AmountV, Booking, Date, Flag, FlagV, MetaEntry, MetaEntryV,
    Posting, PostingV,
};

verus! {

pub struct OpenV {
    pub date: Seq<char>,
    pub account: AccountV,
    pub currencies: Seq<Seq<char>>,
    pub booking: Booking,
    pub meta: Seq<MetaEntryV>,
    pub source: Option<Seq<char>>,
}

/// Opens an account, with optional allowed commodities and booking method.
#[derive(Debug, Clone, PartialEq)]
pub struct Open {
    pub date: Date,
    pub account: Account,
    /// Commodities allowed on the account; empty means unrestricted.
    pub currencies: Vec<Vec<char>>,
    /// The booking method; `Strict` when the source named none.
    pub booking: Booking,
    pub meta: Vec<MetaEntry>,
    pub source: Option<Vec<char>>,
}

impl View for Open {
    type V = OpenV;

    open spec fn view(&self) -> OpenV {
        OpenV {
            date: self.date@,
            account: self.account@,
            currencies: self.currencies.deep_view(),
            booking: self.booking,
            meta: self.meta.deep_view(),
            source: self.source.deep_view(),
        }
    }
}

pub struct CloseV {
    pub date: Seq<char>,
    pub account: AccountV,
    pub meta: Seq<MetaEntryV>,
    pub source: Option<Seq<char>>,
}

/// Closes an account.
#[derive(Debug, Clone, PartialEq)]
pub struct Close {
    pub date: Date,
    pub account: Account,
    pub meta: Vec<MetaEntry>,
    pub source: Option<Vec<char>>,
}

impl View for Close {
    type V = CloseV;

    open spec fn view(&self) -> CloseV {
        CloseV {
            date: self.date@,
            account: self.account@,
            meta: self.meta.deep_view(),
            source: self.source.deep_view(),
        }
    }
}

pub struct BalanceV {
    pub date: Seq<char>,
    pub account: AccountV,
    pub amount: AmountV,
    pub tolerance: Option<Decimal>,
    pub meta: Seq<MetaEntryV>,
    pub source: Option<Seq<char>>,
}

/// Asserts the balance of an account at a date.
#[derive(Debug, Clone, PartialEq)]
pub struct Balance {
    pub date: Date,
    pub account: Account,
    pub amount: Amount,
    pub tolerance: Option<Decimal>,
    pub meta: Vec<MetaEntry>,
    pub source: Option<Vec<char>>,
}

impl View for Balance {
    type V = BalanceV;

    open spec fn view(&self) -> BalanceV {
        BalanceV {
            date: self.date@,
            account: self.account@,
            amount: self.amount@,
            tolerance: self.tolerance,
            meta: self.meta.deep_view(),
            source: self.source.deep_view(),
        }
    }
}

pub struct CommodityV {
    pub date: Seq<char>,
    pub name: Seq<char>,
    pub meta: Seq<MetaEntryV>,
    pub source: Option<Seq<char>>,
}

/// Declares a commodity.
#[derive(Debug, Clone, PartialEq)]
pub struct Commodity {
    pub date: Date,
    pub name: Vec<char>,
    pub meta: Vec<MetaEntry>,
    pub source: Option<Vec<char>>,
}

impl View for Commodity {
    type V = CommodityV;

    open spec fn view(&self) -> CommodityV {
        CommodityV {
            date: self.date@,
            name: self.name@,
            meta: self.meta.deep_view(),
            source: self.source.deep_view(),
        }
    }
}

pub struct PriceV {
    pub date: Seq<char>,
    pub currency: Seq<char>,
    pub amount: AmountV,
    pub meta: Seq<MetaEntryV>,
    pub source: Option<Seq<char>>,
}

/// States the rate of exchange between a commodity and another.
#[derive(Debug, Clone, PartialEq)]
pub struct Price {
    pub date: Date,
    /// The commodity being priced.
    pub currency: Vec<char>,
    pub amount: Amount,
    pub meta: Vec<MetaEntry>,
    pub source: Option<Vec<char>>,
}

impl View for Price {
    type V = PriceV;

    open spec fn view(&self) -> PriceV {
        PriceV {
            date: self.date@,
            currency: self.currency@,
            amount: self.amount@,
            meta: self.meta.deep_view(),
            source: self.source.deep_view(),
        }
    }
}

pub struct PadV {
    pub date: Seq<char>,
    pub pad_to_account: AccountV,
    pub pad_from_account: AccountV,
    pub meta: Seq<MetaEntryV>,
    pub source: Option<Seq<char>>,
}

/// Pads one account from another to satisfy a later balance assertion.
#[derive(Debug, Clone, PartialEq)]
pub struct Pad {
    pub date: Date,
    pub pad_to_account: Account,
    pub pad_from_account: Account,
    pub meta: Vec<MetaEntry>,
    pub source: Option<Vec<char>>,
}

impl View for Pad {
    type V = PadV;

    open spec fn view(&self) -> PadV {
        PadV {
            date: self.date@,
            pad_to_account: self.pad_to_account@,
            pad_from_account: self.pad_from_account@,
            meta: self.meta.deep_view(),
            source: self.source.deep_view(),
        }
    }
}

pub struct NoteV {
    pub date: Seq<char>,
    pub account: AccountV,
    pub comment: Seq<char>,
    pub meta: Seq<MetaEntryV>,
    pub source: Option<Seq<char>>,
}

/// Attaches a dated comment to an account, kept with its quotes.
#[derive(Debug, Clone, PartialEq)]
pub struct Note {
    pub date: Date,
    pub account: Account,
    /// The comment as written, including the surrounding quotes.
    pub comment: Vec<char>,
    pub meta: Vec<MetaEntry>,
    pub source: Option<Vec<char>>,
}

impl View for Note {
    type V = NoteV;

    open spec fn view(&self) -> NoteV {
        NoteV {
            date: self.date@,
            account: self.account@,
            comment: self.comment@,
            meta: self.meta.deep_view(),
            source: self.source.deep_view(),
        }
    }
}

pub struct DocumentV {
    pub date: Seq<char>,
    pub account: AccountV,
    pub path: Seq<char>,
    pub tags: Seq<Seq<char>>,
    pub links: Seq<Seq<char>>,
    pub meta: Seq<MetaEntryV>,
    pub source: Option<Seq<char>>,
}

/// Attaches an external file to the journal of an account.
#[derive(Debug, Clone, PartialEq)]
pub struct Document {
    pub date: Date,
    pub account: Account,
    pub path: Vec<char>,
    pub tags: Vec<Vec<char>>,
    pub links: Vec<Vec<char>>,
    pub meta: Vec<MetaEntry>,
    pub source: Option<Vec<char>>,
}

impl View for Document {
    type V = DocumentV;

    open spec fn view(&self) -> DocumentV {
        DocumentV {
            date: self.date@,
            account: self.account@,
            path: self.path@,
            tags: self.tags.deep_view(),
            links: self.links.deep_view(),
            meta: self.meta.deep_view(),
            source: self.source.deep_view(),
        }
    }
}

pub struct EventV {
    pub date: Seq<char>,
    pub name: Seq<char>,
    pub description: Seq<char>,
    pub meta: Seq<MetaEntryV>,
    pub source: Option<Seq<char>>,
}

/// Tracks the value of a named variable over time.
#[derive(Debug, Clone, PartialEq)]
pub struct Event {
    pub date: Date,
    pub name: Vec<char>,
    pub description: Vec<char>,
    pub meta: Vec<MetaEntry>,
    pub source: Option<Vec<char>>,
}

impl View for Event {
    type V = EventV;

    open spec fn view(&self) -> EventV {
        EventV {
            date: self.date@,
            name: self.name@,
            description: self.description@,
            meta: self.meta.deep_view(),
            source: self.source.deep_view(),
        }
    }
}

pub struct QueryV {
    pub date: Seq<char>,
    pub name: Seq<char>,
    pub query_string: Seq<char>,
    pub meta: Seq<MetaEntryV>,
    pub source: Option<Seq<char>>,
}

/// A named query kept in the stream of directives.
#[derive(Debug, Clone, PartialEq)]
pub struct Query {
    pub date: Date,
    pub name: Vec<char>,
    pub query_string: Vec<char>,
    pub meta: Vec<MetaEntry>,
    pub source: Option<Vec<char>>,
}

impl View for Query {
    type V = QueryV;

    open spec fn view(&self) -> QueryV {
        QueryV {
            date: self.date@,
            name: self.name@,
            query_string: self.query_string@,
            meta: self.meta.deep_view(),
            source: self.source.deep_view(),
        }
    }
}

pub struct CustomV {
    pub date: Seq<char>,
    pub name: Seq<char>,
    pub args: Seq<Seq<char>>,
    pub meta: Seq<MetaEntryV>,
    pub source: Option<Seq<char>>,
}

/// A generic directive carrying a name and a list of argument strings.
#[derive(Debug, Clone, PartialEq)]
pub struct Custom {
    pub date: Date,
    pub name: Vec<char>,
    pub args: Vec<Vec<char>>,
    pub meta: Vec<MetaEntry>,
    pub source: Option<Vec<char>>,
}

impl View for Custom {
    type V = CustomV;

    open spec fn view(&self) -> CustomV {
        CustomV {
            date: self.date@,
            name: self.name@,
            args: self.args.deep_view(),
            meta: self.meta.deep_view(),
            source: self.source.deep_view(),
        }
    }
}

pub struct TransactionV {
    pub date: Seq<char>,
    pub flag: FlagV,
    pub payee: Option<Seq<char>>,
    pub narration: Seq<char>,
    pub tags: Seq<Seq<char>>,
    pub links: Seq<Seq<char>>,
    pub postings: Seq<PostingV>,
    pub meta: Seq<MetaEntryV>,
    pub source: Option<Seq<char>>,
}

/// A transaction: a flagged, dated header and a list of postings.
#[derive(Debug, Clone, PartialEq)]
pub struct Transaction {
    pub date: Date,
    pub flag: Flag,
    pub payee: Option<Vec<char>>,
    pub narration: Vec<char>,
    /// The tag set, insertion-ordered and without duplicates.
    pub tags: Vec<Vec<char>>,
    /// The link set, insertion-ordered and without duplicates.
    pub links: Vec<Vec<char>>,
    pub postings: Vec<Posting>,
    pub meta: Vec<MetaEntry>,
    pub source: Option<Vec<char>>,
}

impl View for Transaction {
    type V = TransactionV;

    open spec fn view(&self) -> TransactionV {
        TransactionV {
            date: self.date@,
            flag: self.flag@,
            payee: self.payee.deep_view(),
            narration: self.narration@,
            tags: self.tags.deep_view(),
            links: self.links.deep_view(),
            postings: self.postings.deep_view(),
            meta: self.meta.deep_view(),
            source: self.source.deep_view(),
        }
    }
}

pub struct BcOptionV {
    pub name: Seq<char>,
    pub val: Seq<char>,
    pub source: Option<Seq<char>>,
}

/// A configuration option; some options affect the parsing of what follows.
#[derive(Debug, Clone, PartialEq)]
pub struct BcOption {
    pub name: Vec<char>,
    pub val: Vec<char>,
    pub source: Option<Vec<char>>,
}

impl View for BcOption {
    type V = BcOptionV;

    open spec fn view(&self) -> BcOptionV {
        BcOptionV { name: self.name@, val: self.val@, source: self.source.deep_view() }
    }
}

pub struct PluginV {
    pub module: Seq<char>,
    pub config: Option<Seq<char>>,
    pub source: Option<Seq<char>>,
}

/// A plugin directive; recorded, never executed.
#[derive(Debug, Clone, PartialEq)]
pub struct Plugin {
    pub module: Vec<char>,
    pub config: Option<Vec<char>>,
    pub source: Option<Vec<char>>,
}

impl View for Plugin {
    type V = PluginV;

    open spec fn view(&self) -> PluginV {
        PluginV {
            module: self.module@,
            config: self.config.deep_view(),
            source: self.source.deep_view(),
        }
    }
}

pub struct IncludeV {
    pub filename: Seq<char>,
    pub source: Option<Seq<char>>,
}

/// An include directive; recorded, not followed.
#[derive(Debug, Clone, PartialEq)]
pub struct Include {
    pub filename: Vec<char>,
    pub source: Option<Vec<char>>,
}

impl View for Include {
    type V = IncludeV;

    open spec fn view(&self) -> IncludeV {
        IncludeV { filename: self.filename@, source: self.source.deep_view() }
    }
}

// ---------------------------------------------------------------------------
// The directive sum and the ledger.
// ---------------------------------------------------------------------------

pub enum DirectiveV {
    Open(OpenV),
    Close(CloseV),
    Balance(BalanceV),
    Opt(BcOptionV),
    Commodity(CommodityV),
    Custom(CustomV),
    Document(DocumentV),
    Event(EventV),
    Include(IncludeV),
    Note(NoteV),
    Pad(PadV),
    Plugin(PluginV),
    Price(PriceV),
    Query(QueryV),
    Transaction(TransactionV),
    Unsupported,
}

/// A single top-level construct of a ledger.
#[derive(Debug, Clone, PartialEq)]
pub enum Directive {
    Open(Open),
    Close(Close),
    Balance(Balance),
    Opt(BcOption),
    Commodity(Commodity),
    Custom(Custom),
    Document(Document),
    Event(Event),
    Include(Include),
    Note(Note),
    Pad(Pad),
    Plugin(Plugin),
    Price(Price),
    Query(Query),
    Transaction(Transaction),
    /// Reserved for grammar productions the constructor deliberately skips.
    Unsupported,
}

impl View for Directive {
    type V = DirectiveV;

    open spec fn view(&self) -> DirectiveV {
        match self {
            Directive::Open(d) => DirectiveV::Open(d@),
            Directive::Close(d) => DirectiveV::Close(d@),
            Directive::Balance(d) => DirectiveV::Balance(d@),
            Directive::Opt(d) => DirectiveV::Opt(d@),
            Directive::Commodity(d) => DirectiveV::Commodity(d@),
            Directive::Custom(d) => DirectiveV::Custom(d@),
            Directive::Document(d) => DirectiveV::Document(d@),
            Directive::Event(d) => DirectiveV::Event(d@),
            Directive::Include(d) => DirectiveV::Include(d@),
            Directive::Note(d) => DirectiveV::Note(d@),
            Directive::Pad(d) => DirectiveV::Pad(d@),
            Directive::Plugin(d) => DirectiveV::Plugin(d@),
            Directive::Price(d) => DirectiveV::Price(d@),
            Directive::Query(d) => DirectiveV::Query(d@),
            Directive::Transaction(d) => DirectiveV::Transaction(d@),
            Directive::Unsupported => DirectiveV::Unsupported,
        }
    }
}

impl DeepView for Directive {
    type V = DirectiveV;

    open spec fn deep_view(&self) -> DirectiveV {
        self@
    }
}

pub struct LedgerV {
    pub directives: Seq<DirectiveV>,
}

/// The complete ledger: an ordered sequence of directives.
#[derive(Debug, Clone, PartialEq)]
pub struct Ledger {
    pub directives: Vec<Directive>,
}

impl View for Ledger {
    type V = LedgerV;

    open spec fn view(&self) -> LedgerV {
        LedgerV { directives: self.directives.deep_view() }
    }
}

} // verus!

// Which directives carry only representable decimals.

verus! {

pub open spec fn spec_txn_valid(t: TransactionV) -> bool {
    &&& forall|k: int|
        0 <= k < t.postings.len() ==> crate::model::spec_posting_valid(#[trigger] t.postings[k])
    &&& crate::model::spec_meta_valid(t.meta)
}

pub open spec fn spec_dir_valid(d: DirectiveV) -> bool {
    match d {
        DirectiveV::Open(x) => crate::model::spec_meta_valid(x.meta),
        DirectiveV::Close(x) => crate::model::spec_meta_valid(x.meta),
        DirectiveV::Balance(x) => crate::model::spec_amount_valid(x.amount)
            && crate::model::spec_opt_dec_valid(x.tolerance) && crate::model::spec_meta_valid(
            x.meta,
        ),
        DirectiveV::Opt(_) => true,
        DirectiveV::Commodity(x) => crate::model::spec_meta_valid(x.meta),
        DirectiveV::Custom(x) => crate::model::spec_meta_valid(x.meta),
        DirectiveV::Document(x) => crate::model::spec_meta_valid(x.meta),
        DirectiveV::Event(x) => crate::model::spec_meta_valid(x.meta),
        DirectiveV::Include(_) => true,
        DirectiveV::Note(x) => crate::model::spec_meta_valid(x.meta),
        DirectiveV::Pad(x) => crate::model::spec_meta_valid(x.meta),
        DirectiveV::Plugin(_) => true,
        DirectiveV::Price(x) => crate::model::spec_amount_valid(x.amount)
            && crate::model::spec_meta_valid(x.meta),
        DirectiveV::Query(x) => crate::model::spec_meta_valid(x.meta),
        DirectiveV::Transaction(x) => spec_txn_valid(x),
        DirectiveV::Unsupported => true,
    }
}

pub open spec fn spec_ledger_valid(l: LedgerV) -> bool {
    forall|k: int| 0 <= k < l.directives.len() ==> spec_dir_valid(#[trigger] l.directives[k])
}

} // verus!
