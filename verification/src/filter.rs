//! The verdict of a subscription's filters on a value.
use vstd::prelude::*;

verus! {

/// Why the filters of a subscription give no verdict on a value.
#[derive(Clone, Copy, Debug, PartialEq, Eq, Structural)]
pub enum FilterError {
    /// The filters compare numbers and the value is none.
    ValueIsNotANumber,
}

/// Whether the filters of a subscription let a value through.
pub type Verdict = Result<bool, FilterError>;

} // verus!
