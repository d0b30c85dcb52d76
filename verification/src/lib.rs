//! Scoped visibility for declarative macros.
//!
//! A `macro_rules!` definition is textually scoped and, once exported, nameable
//! from the crate root only. This crate rewrites an annotated definition, given
//! as a token sequence, into a private definition plus a `use` re-export, so that
//! the macro obeys the ordinary visibility and import rules of items.
//!
//! - [`token`] holds the tokens and their views, over which every contract is
//!   stated.
//! - [`parse`] finds the macro definition in an annotated item.
//! - [`rewrite`] generates what replaces the item; [`macro_pub`] is its entry.
//! - [`fingerprint`] names an exported macro after the content of its item.
//!   The digest itself is computed by the `xxhash-rust` crate and is the one
//!   thing here that is taken on trust.
//! - [`probe`] says how to ask the compiler whether it takes the alternate
//!   declaration syntax, and what to make of its answer.
//! - [`theorems`] proves what holds of every rewrite.
//!
//! The library reads and writes token sequences only. Turning the compiler's
//! token streams into them, writing an item out as text and running the
//! compiler are left to the caller.

pub mod decimal;
pub mod fingerprint;
pub mod parse;
pub mod probe;
pub mod rewrite;
pub mod theorems;
pub mod token;

pub use parse::{parse, MacroDefinition, ParseOutcome};
pub use probe::{Prober, ProbeOutcome, SelfCheck};
pub use rewrite::{macro_pub, rewrite};
pub use token::{Delimiter, Spacing, Span, Token, TokenView};
