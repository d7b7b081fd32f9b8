//! How severe a reported issue is.
use vstd::prelude::*;

verus! {

/// The severity of an issue, from the mildest to the most severe.
#[derive(Clone, Copy, PartialEq, Eq, Debug, Hash)]
pub enum Level {
    Note,
    Help,
    Warning,
    Error,
}

} // verus!
