//! What can go wrong while lowering a declaration.
use vstd::prelude::*;

verus! {

/// Why a declaration was not lowered.
///
/// All variants but [`LowerError::ArityMismatch`] describe a malformed program
/// or declarations handed over in the wrong order: a driver is expected to
/// abort the compilation on them.
#[derive(Debug, Clone, Copy, PartialEq, Eq, Structural)]
pub enum LowerError {
    /// The declaration has no debug name although one is needed.
    MissingDebugName,
    /// A type that the declaration refers to has not been declared yet.
    UndeclaredType,
    /// The first generic argument of a wrapper type is a user type.
    UnsupportedUserType,
    /// The first generic argument of a wrapper type is missing or is neither
    /// a type nor a user type.
    NotATypeArgument,
    /// The first generic argument of a constant is missing or is not a value.
    MissingLiteral,
    /// The value of a constant is not written as a decimal integer.
    LiteralNotDecimal,
    /// An integer type has a width that cannot be used: LLVM has no type of
    /// that width, or the field element is too wide to be widened.
    InvalidWidth,
    /// A helper function that a body calls is not in the module.
    MissingHelper,
    /// A helper function was called and did not yield an integer.
    HelperWithoutValue,
    /// The number of parameter types differs from what the operation takes.
    ArityMismatch { expected: usize, found: usize },
}

impl LowerError {
    /// Whether a driver has to abort the compilation on this error.
    pub open spec fn fatal(self) -> bool {
        !(self is ArityMismatch)
    }

    /// Whether a driver has to abort the compilation on this error.
    pub fn is_fatal(&self) -> (fatal: bool)
        ensures
            fatal == self.fatal(),
    {
        match self {
            LowerError::ArityMismatch { .. } => false,
            _ => true,
        }
    }

    /// The text that [`LowerError::message`] returns.
    pub open spec fn message_text(self) -> Seq<char> {
        match self {
            LowerError::MissingDebugName => "Debug name expected but none found"@,
            LowerError::UndeclaredType => "Type used before its declaration"@,
            LowerError::UnsupportedUserType => "User types are not supported yet"@,
            LowerError::NotATypeArgument => "NonZero only takes type or user type"@,
            LowerError::MissingLiteral => "No value for felt constant"@,
            LowerError::LiteralNotDecimal => "The value of the felt constant is not a decimal number"@,
            LowerError::InvalidWidth => "Integer width out of range"@,
            LowerError::MissingHelper => "A helper function should have been defined before"@,
            LowerError::HelperWithoutValue => "The helper function returned no integer"@,
            LowerError::ArityMismatch { .. } => "Wrong number of parameter types for the operation"@,
        }
    }

    /// A short description for logs and reports.
    pub fn message(&self) -> (text: &'static str)
        ensures
            text@ == self.message_text(),
    {
        match self {
            LowerError::MissingDebugName => "Debug name expected but none found",
            LowerError::UndeclaredType => "Type used before its declaration",
            LowerError::UnsupportedUserType => "User types are not supported yet",
            LowerError::NotATypeArgument => "NonZero only takes type or user type",
            LowerError::MissingLiteral => "No value for felt constant",
            LowerError::LiteralNotDecimal => "The value of the felt constant is not a decimal number",
            LowerError::InvalidWidth => "Integer width out of range",
            LowerError::MissingHelper => "A helper function should have been defined before",
            LowerError::HelperWithoutValue => "The helper function returned no integer",
            LowerError::ArityMismatch { .. } => "Wrong number of parameter types for the operation",
        }
    }
}

} // verus!
