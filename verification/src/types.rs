//! Type declarations: how the registry grows.
use vstd::prelude::*;
use crate::backend::BackendType;
use crate::compiler::has_debug_name;
use crate::compiler::Compiler;
use crate::compiler::NamedType;
use crate::errors::LowerError;
use crate::llvm::MAX_INT_BITS;
use crate::llvm::MIN_INT_BITS;
use crate::program::GenericArg;
use crate::program::TypeDeclaration;

verus! {

/// The width of a field element: the 252 bits that the prime of the field
/// takes, and one more, so that the difference of two elements keeps its
/// sign.
pub const FELT_BITS: u32 = 253;

impl<'ctx> Compiler<'ctx> {
    /// Why `integer` refuses a declaration, if it does: LLVM has no integer
    /// type of that width; or debug information is kept and the declaration
    /// has no name to file it under.
    pub open spec fn integer_refusal(&self, declaration: &TypeDeclaration, bits: u32) -> Option<
        LowerError,
    > {
        if !(MIN_INT_BITS <= bits <= MAX_INT_BITS) {
            Some(LowerError::InvalidWidth)
        } else if self.debug is Some && !has_debug_name(declaration.id.debug_name) {
            Some(LowerError::MissingDebugName)
        } else {
            None
        }
    }

    /// Whether the compiler `after` is the compiler `before` with one more
    /// integer type, of `bits` bits, declared by `declaration`: the registry
    /// has a type of that width under the number of the declaration and is
    /// otherwise as before; the name of the declaration, if it has one, now
    /// stands for that type; where debug information is kept, the mirror has
    /// a debug type of `bits` bits under the same number and is otherwise as
    /// before; and the module is as before.
    pub open spec fn declared_integer(
        before: Compiler<'ctx>,
        after: Compiler<'ctx>,
        declaration: &TypeDeclaration,
        bits: u32,
    ) -> bool {
        let id = declaration.id.id;
        &&& after.types@.dom() == before.types@.dom().insert(id)
        &&& after.types@[id].bits == bits
        &&& forall|other: u64|
            other != id && before.types@.contains_key(other) ==> after.types@[other]
                == before.types@[other]
        &&& after.backend == before.backend
        &&& after.current_line_estimate == before.current_line_estimate
        &&& match declaration.id.debug_name {
            Some(name) => {
                &&& after.type_names@.len() == before.type_names@.len() + 1
                &&& after.type_names@.drop_last() == before.type_names@
                &&& after.type_names@.last().name@ == name@
                &&& after.type_names@.last().id == id
                &&& after.type_named(name@) == Some(id)
            },
            None => after.type_names == before.type_names,
        }
        &&& after.debug is Some <==> before.debug is Some
        &&& before.debug is Some ==> {
            &&& after.debug_types().dom() == before.debug_types().dom().insert(id)
            &&& after.debug_types()[id].size_in_bits == bits
            &&& forall|other: u64|
                other != id && before.debug_types().contains_key(other) ==> after.debug_types()[other]
                    == before.debug_types()[other]
        }
    }

    /// Declares the field element: an integer type of `FELT_BITS` bits. See
    /// `integer`.
    pub fn felt(&mut self, type_declaration: &TypeDeclaration) -> (result: Result<(), LowerError>)
        requires
            old(self).well_formed(),
        ensures
            final(self).well_formed(),
            result is Err <==> old(self).integer_refusal(type_declaration, FELT_BITS) is Some,
            result matches Err(e) ==> {
                &&& old(self).integer_refusal(type_declaration, FELT_BITS) == Some(e)
                &&& *final(self) == *old(self)
            },
            result is Ok ==> Self::declared_integer(
                *old(self),
                *final(self),
                type_declaration,
                FELT_BITS,
            ),
    {
        self.integer(type_declaration, FELT_BITS)
    }

    /// Declares an integer type of `bits` bits: the field element, or an
    /// integer of the language. The registry gets a new backend type under
    /// the number of the declaration; if the declaration has a name, the type
    /// can be found under it from then on.
    ///
    /// Where debug information is kept, the mirror gets a basic debug type
    /// of `bits` bits under the name of the declaration.
    ///
    /// A declaration that is refused changes nothing.
    pub fn integer(&mut self, type_declaration: &TypeDeclaration, bits: u32) -> (result: Result<
        (),
        LowerError,
    >)
        requires
            old(self).well_formed(),
        ensures
            final(self).well_formed(),
            result is Err <==> old(self).integer_refusal(type_declaration, bits) is Some,
            result matches Err(e) ==> {
                &&& old(self).integer_refusal(type_declaration, bits) == Some(e)
                &&& *final(self) == *old(self)
            },
            result is Ok ==> Self::declared_integer(*old(self), *final(self), type_declaration, bits),
    {
        let ty = match BackendType::of_width(self.backend.context, bits) {
            Some(ty) => ty,
            None => {
                return Err(LowerError::InvalidWidth);
            },
        };
        let id = type_declaration.id.id;
        match &mut self.debug {
            Some(mirror) => {
                let name = match &type_declaration.id.debug_name {
                    Some(name) => name,
                    None => {
                        return Err(LowerError::MissingDebugName);
                    },
                };
                if !mirror.declare_basic_type(id, name.as_str(), bits as u64) {
                    return Err(LowerError::MissingDebugName);
                }
            },
            None => {},
        }
        self.types.insert(id, ty);
        match &type_declaration.id.debug_name {
            Some(name) => {
                let ghost before = self.type_names@;
                self.type_names.push(NamedType { name: name.clone(), id });
                assert(self.type_names@.drop_last() == before);
            },
            None => {},
        }
        Ok(())
    }

    /// Why `non_zero` refuses a declaration, if it does: the first generic
    /// argument is missing or is not a type; it is a type that has not been
    /// declared; or debug information is kept and the declaration has no
    /// name to file it under.
    pub open spec fn non_zero_refusal(&self, declaration: &TypeDeclaration) -> Option<LowerError> {
        if declaration.generic_args@.len() == 0 {
            Some(LowerError::NotATypeArgument)
        } else {
            match declaration.generic_args@[0] {
                GenericArg::Type(inner) => {
                    if !self.types@.contains_key(inner.id) {
                        Some(LowerError::UndeclaredType)
                    } else if self.debug is Some && !has_debug_name(declaration.id.debug_name) {
                        Some(LowerError::MissingDebugName)
                    } else {
                        None
                    }
                },
                GenericArg::UserType(_) => Some(LowerError::UnsupportedUserType),
                _ => Some(LowerError::NotATypeArgument),
            }
        }
    }

    /// The number of the type that a wrapper type wraps: that of its first
    /// generic argument.
    pub open spec fn wrapped_type(declaration: &TypeDeclaration) -> u64
        recommends
            declaration.generic_args@.len() > 0,
            declaration.generic_args@[0] is Type,
    {
        declaration.generic_args@[0]->Type_0.id
    }

    /// Declares `NonZero<T>`. The check that a value is not zero is of no
    /// concern to the backend, so the type is `T` under another number: the
    /// registry gets the very handle of `T` again, and no type is made.
    ///
    /// Where debug information is kept, the mirror gets a basic debug type
    /// of the size of the debug type of `T`, under the name of the
    /// declaration.
    ///
    /// `T` has to be declared first. A declaration that is refused changes
    /// nothing.
    pub fn non_zero(&mut self, type_declaration: &TypeDeclaration) -> (result: Result<
        (),
        LowerError,
    >)
        requires
            old(self).well_formed(),
        ensures
            final(self).well_formed(),
            result is Err <==> old(self).non_zero_refusal(type_declaration) is Some,
            result matches Err(e) ==> {
                &&& old(self).non_zero_refusal(type_declaration) == Some(e)
                &&& *final(self) == *old(self)
            },
            result is Ok ==> {
                let id = type_declaration.id.id;
                let inner = Self::wrapped_type(type_declaration);
                &&& final(self).types@ == old(self).types@.insert(id, old(self).types@[inner])
                &&& final(self).backend == old(self).backend
                &&& final(self).type_names == old(self).type_names
                &&& final(self).current_line_estimate == old(self).current_line_estimate
                &&& final(self).debug is Some <==> old(self).debug is Some
                &&& old(self).debug is Some ==> {
                    let before = old(self).debug_types();
                    let after = final(self).debug_types();
                    &&& after.dom() == before.dom().insert(id)
                    &&& after[id].size_in_bits == before[inner].size_in_bits
                    &&& forall|other: u64|
                        other != id && before.contains_key(other) ==> after[other] == before[other]
                }
            },
    {
        if type_declaration.generic_args.len() == 0 {
            return Err(LowerError::NotATypeArgument);
        }
        let inner = match &type_declaration.generic_args[0] {
            GenericArg::Type(inner) => inner.id,
            GenericArg::UserType(_) => {
                return Err(LowerError::UnsupportedUserType);
            },
            _ => {
                return Err(LowerError::NotATypeArgument);
            },
        };
        let ty = match self.types.get(&inner) {
            Some(ty) => *ty,
            None => {
                return Err(LowerError::UndeclaredType);
            },
        };
        let id = type_declaration.id.id;
        match &mut self.debug {
            Some(mirror) => {
                let name = match &type_declaration.id.debug_name {
                    Some(name) => name,
                    None => {
                        return Err(LowerError::MissingDebugName);
                    },
                };
                let size = match mirror.types.get(&inner) {
                    Some(debug_type) => debug_type.size_in_bits,
                    None => {
                        return Err(LowerError::UndeclaredType);
                    },
                };
                if !mirror.declare_basic_type(id, name.as_str(), size) {
                    return Err(LowerError::MissingDebugName);
                }
            },
            None => {},
        }
        self.types.insert(id, ty);
        Ok(())
    }
}

} // verus!
