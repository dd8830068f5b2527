//! The declarations of a Sierra program, as far as lowering reads them.
use vstd::prelude::*;

verus! {

/// The identity of a concrete type: a number that is unique in the program
/// and, optionally, a name for people.
pub struct ConcreteTypeId {
    pub id: u64,
    pub debug_name: Option<String>,
}

/// The identity of a concrete libfunc.
pub struct ConcreteLibfuncId {
    pub id: u64,
    pub debug_name: Option<String>,
}

/// One generic argument of a declaration.
pub enum GenericArg {
    /// A user type, by its number, written in decimal.
    UserType(String),
    /// A type declared earlier in the program.
    Type(ConcreteTypeId),
    /// A literal number, written in decimal.
    Value(String),
    /// A user function, by its number.
    UserFunc(u64),
    /// Another libfunc, by its number.
    Libfunc(u64),
}

/// The declaration of a concrete type.
pub struct TypeDeclaration {
    pub id: ConcreteTypeId,
    pub generic_args: Vec<GenericArg>,
}

/// The declaration of a concrete libfunc.
pub struct LibfuncDeclaration {
    pub id: ConcreteLibfuncId,
    pub generic_args: Vec<GenericArg>,
}

} // verus!
