//! A parser and renderer for the Beancount plain-text accounting language.
//!
//! The library turns a source text into a typed ledger: a sequence of
//! directives with numeric expressions evaluated, accounts resolved against
//! configurable root names, and hierarchical tag scoping applied.  A renderer
//! writes a ledger back out in a canonical form.

pub mod chars;
pub mod construct;
pub mod decimal;
pub mod directives;
pub mod error;
pub mod laws;
pub mod model;
pub mod parser;
pub mod render;
pub mod rules;
pub mod scan;
pub mod state;
pub mod syntax;

pub use decimal::Decimal;
pub use directives::{
    Balance, BcOption, Close, Commodity, Custom, Directive, Document, Event, Include, Ledger,
    Note, Open, Pad, Plugin, Price, Query, Transaction,
};
pub use error::{ParseError, ParseErrorKind};
pub use model::{
    Account, AccountType, Amount, Booking, CostSpec, Date, Flag, IncompleteAmount, MetaEntry,
    MetaValue, Posting, PriceSpec,
};
pub use parser::parse;
pub use render::{render, BasicRenderer, BasicRendererError};
pub use rules::{BeancountParser, Rule};
pub use state::{ParseState, RootNames, TagStack};
