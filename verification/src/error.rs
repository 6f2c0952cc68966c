//! The one way in which setting up a technique can fail.

use vstd::prelude::*;

verus! {

/// Why a technique could not be made.
#[derive(Debug, Clone, Copy, PartialEq, Eq, Hash)]
pub enum Error {
    /// The settings asked for describe no usable technique.
    InvalidConfiguration,
}

impl Error {
    /// A sentence for the person who chose the settings.
    pub fn message(&self) -> (text: String)
        ensures
            text@ == "Break Factor for FlowTime is negative"@,
    {
        match self {
            Error::InvalidConfiguration => "Break Factor for FlowTime is negative".to_owned(),
        }
    }
}

} // verus!
