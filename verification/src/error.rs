//! Why an expansion was given up.

use vstd::prelude::*;

verus! {

/// The reasons for which no implementation is generated.
///
/// Each of them is fatal: the caller is expected to stop the build and show
/// [`ExpandError::message`].
#[derive(Clone, Copy, Debug, PartialEq, Eq, Structural)]
pub enum ExpandError {
    /// The input did not parse as a type definition at all.
    Syntax,
    /// The definition is a struct or a union.
    NotAnEnum,
    /// An attribute in front of the deciding `level(..)` is no structured
    /// meta item.
    MalformedAttribute,
    /// `level()` with nothing between the parentheses.
    MissingArgument,
    /// The argument of `level(..)` is a literal such as `42`.
    LiteralArgument,
    /// The argument of `level(..)` is a path of several segments.
    NotAName,
    /// The argument of `level(..)` is a name other than the six severities.
    UnknownLevel,
}

impl ExpandError {
    /// The text of the message for this error.
    pub open spec fn message_text(self) -> Seq<char> {
        match self {
            ExpandError::Syntax => "the input is not a type definition"@,
            ExpandError::NotAnEnum => "can only implement error level on enums"@,
            ExpandError::MalformedAttribute => "an attribute is not a structured meta item"@,
            ExpandError::MissingArgument => "level needs one argument"@,
            ExpandError::LiteralArgument =>
                "nested argument list should not be a rust literal but a structured meta item"@,
            ExpandError::NotAName => "the argument of level must be a single name"@,
            ExpandError::UnknownLevel => "options are only: No, Trace, Debug, Info, Warn or Error"@,
        }
    }

    /// The message to abort the build with.
    pub fn message(&self) -> (text: &'static str)
        ensures
            text@ == self.message_text(),
    {
        match self {
            ExpandError::Syntax => "the input is not a type definition",
            ExpandError::NotAnEnum => "can only implement error level on enums",
            ExpandError::MalformedAttribute => "an attribute is not a structured meta item",
            ExpandError::MissingArgument => "level needs one argument",
            ExpandError::LiteralArgument =>
                "nested argument list should not be a rust literal but a structured meta item",
            ExpandError::NotAName => "the argument of level must be a single name",
            ExpandError::UnknownLevel => "options are only: No, Trace, Debug, Info, Warn or Error",
        }
    }
}

} // verus!
