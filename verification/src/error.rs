//! The reasons for which no conversions are derived.

use vstd::prelude::*;
use vstd::string::StringExecFns;

verus! {

/// Why a derivation was refused.
#[derive(Clone, Debug, PartialEq, Eq)]
pub enum DeriveError {
    /// The input is not the declaration of a struct, an enum or a union. The
    /// field is the parser's own message.
    Syntax(String),
    /// The declaration is not that of an enumeration.
    NotAnEnum,
    /// A variant of the enumeration carries fields.
    NotUnit,
}

impl DeriveError {
    /// The text of the diagnostic for this error.
    pub open spec fn spec_message(self) -> Seq<char> {
        match self {
            DeriveError::Syntax(text) => text@,
            DeriveError::NotAnEnum => "can only derive this on enums"@,
            DeriveError::NotUnit => "can only derive for unit enums"@,
        }
    }

    /// The diagnostic with which a build that meets this error is aborted.
    pub fn message(&self) -> (text: String)
        ensures
            text@ == self.spec_message(),
    {
        match self {
            DeriveError::Syntax(text) => text.clone(),
            DeriveError::NotAnEnum => String::from_str("can only derive this on enums"),
            DeriveError::NotUnit => String::from_str("can only derive for unit enums"),
        }
    }
}

} // verus!
