//! Why a bulletin could not be rebuilt.

use vstd::prelude::*;
use vstd::string::StringExecFns;

verus! {

/// The expectation that a bulletin failed. Any of them ends the whole
/// reconstruction: no part of a report is returned.
#[derive(Debug, Clone, PartialEq, Eq)]
pub enum ReconstructError {
    /// An entry has a number of properties that its strategy has no use for.
    InvalidPropertyCount,
    /// A property lacks a part that its role needs.
    MissingPart,
    /// A property chosen for a role carries the type tag of another.
    TypeMismatch,
    /// The category tag of a block, which is none of the known ones.
    UnknownCategory(String),
}

impl ReconstructError {
    /// The message of this error, as characters.
    pub open spec fn message_text(&self) -> Seq<char> {
        match self {
            ReconstructError::InvalidPropertyCount => "invalid count of property"@,
            ReconstructError::MissingPart => "Property has no some property"@,
            ReconstructError::TypeMismatch => "Property has an unexpected type"@,
            ReconstructError::UnknownCategory(tag) => "unknown TimeSeriesInfo::_type "@ + tag@,
        }
    }

    /// A message that says which expectation failed.
    pub fn message(&self) -> (r: String)
        ensures
            r@ == self.message_text(),
    {
        match self {
            ReconstructError::InvalidPropertyCount => "invalid count of property".to_owned(),
            ReconstructError::MissingPart => "Property has no some property".to_owned(),
            ReconstructError::TypeMismatch => "Property has an unexpected type".to_owned(),
            ReconstructError::UnknownCategory(tag) => {
                "unknown TimeSeriesInfo::_type ".to_owned().concat(tag.as_str())
            },
        }
    }
}

} // verus!
