//! Error types that remember where they were raised.
//!
//! Each link of an error chain, an [`chain::ErrorNode`], carries the location
//! at which it was made ([`location::StaticLocationRef`]) and what caused it.
//! [`chain::ErrorNode::render_chain`] prints the chain, one line per link from
//! the outermost to the root cause:
//!
//! ```text
//! 1: MyError, at src/app.rs:29:13
//! 0: ErrorSubA, at src/app.rs:13:23
//! ```
//!
//! [`definition`] holds the rule by which a user's error type can take part:
//! a struct with named fields, or an enum whose variants all have named fields,
//! with a field called `location`.
use vstd::prelude::*;

pub mod chain;
pub mod definition;
pub mod laws;
pub mod location;

verus! {

/// Marks the types whose values are links of a rendered error chain.
pub trait TamanegiTrait {

}

impl TamanegiTrait for chain::ErrorNode {

}

} // verus!
