//! The arithmetic of the field: constants and subtraction of field elements.
use vstd::prelude::*;
use crate::backend::Backend;
use crate::backend::BackendType;
use crate::backend::FunctionView;
use crate::backend::SubprogramView;
use crate::backend::widths;
use crate::body::literal_is_decimal;
use crate::body::Body;
use crate::body::BodyView;
use crate::compiler::lemma_named_type_is_listed;
use crate::compiler::Compiler;
use crate::debug::sizes;
use crate::debug::FLAG_PUBLIC;
use crate::debug::DebugMirror;
use crate::debug::DebugType;
use crate::errors::LowerError;
use crate::libfunc::LlvmBodyProcessor;
use crate::llvm::is_decimal_literal;
use crate::program::GenericArg;
use crate::program::LibfuncDeclaration;

verus! {

/// The width to which a difference of field elements is extended before it
/// is reduced.
pub const WIDE_BITS: u32 = 512;

/// The name under which the field element is declared.
pub open spec fn felt_name() -> Seq<char> {
    "felt"@
}

/// The name of the function of the module that reduces a wide integer to a
/// field element.
pub open spec fn modulo_name() -> Seq<char> {
    "modulo"@
}

/// The processor of the subtraction of the field.
pub struct FeltSub {}

impl LlvmBodyProcessor for FeltSub {
    open spec fn arity(&self) -> nat {
        2
    }

    open spec fn body(&self, parameters: nat) -> BodyView {
        BodyView::difference_reduced(WIDE_BITS, modulo_name())
    }

    fn parameter_count(&self) -> (count: usize) {
        2
    }

    /// The difference of the two parameters, extended to `WIDE_BITS` bits
    /// and reduced by the function `modulo`.
    fn create_body(&self, parameters: usize) -> (body: Body) {
        proof {
            reveal_strlit("modulo");
        }
        Body::difference_reduced(WIDE_BITS, "modulo")
    }
}

impl<'ctx> Compiler<'ctx> {
    /// The record of a function over the type `felt`: `arity` parameters of
    /// that type, a result of that type and, where debug information is
    /// kept, a subprogram at the current line with the sizes to match.
    pub open spec fn felt_function(
        &self,
        name: Seq<char>,
        felt: u64,
        arity: nat,
        body: BodyView,
    ) -> FunctionView {
        let bits = self.types@[felt].bits;
        FunctionView {
            name,
            ret_bits: bits,
            param_bits: Seq::new(arity, |i: int| bits),
            body,
            subprogram: match self.debug {
                Some(mirror) => Some(
                    SubprogramView {
                        name,
                        line: self.current_line_estimate,
                        ret_size: mirror.types@[felt].size_in_bits,
                        param_sizes: Seq::new(arity, |i: int| mirror.types@[felt].size_in_bits),
                        flags: FLAG_PUBLIC,
                    },
                ),
                None => None,
            },
        }
    }

    /// The type `felt`: its number, its backend type and, where debug
    /// information is kept, its debug type.
    fn felt_type(&self) -> (found: Option<(u64, BackendType<'ctx>, Option<DebugType<'ctx>>)>)
        requires
            self.well_formed(),
        ensures
            found is Some <==> self.type_named(felt_name()) is Some,
            found matches Some((id, ty, debug_type)) ==> {
                &&& self.type_named(felt_name()) == Some(id)
                &&& self.types@.contains_key(id)
                &&& ty == self.types@[id]
                &&& debug_type is Some <==> self.debug is Some
                &&& debug_type matches Some(mirrored) ==> mirrored == self.debug_types()[id]
            },
    {
        let id = self.type_id_by_name("felt")?;
        proof {
            lemma_named_type_is_listed(self.type_names@, felt_name());
        }
        let ty = self.type_of(id)?;
        Some((id, ty, self.debug_type_of(id)))
    }

    /// Adds to the module a function over the type `felt`, with its debug
    /// information where that is kept. `ty` and `debug_type` are what the
    /// registry and its mirror hold under `felt`.
    fn add_felt_function(
        &mut self,
        name: &str,
        felt: u64,
        ty: BackendType<'ctx>,
        debug_type: Option<DebugType<'ctx>>,
        arity: usize,
        body: Body,
    ) -> (result: Result<(), LowerError>)
        requires
            old(self).well_formed(),
            old(self).types@.contains_key(felt),
            ty == old(self).types@[felt],
            debug_type is Some <==> old(self).debug is Some,
            debug_type matches Some(mirrored) ==> mirrored == old(self).debug_types()[felt],
            body@.well_formed(arity as nat),
            arity < u32::MAX,
        ensures
            final(self).well_formed(),
            final(self).types == old(self).types,
            final(self).type_names == old(self).type_names,
            final(self).debug == old(self).debug,
            final(self).current_line_estimate == old(self).current_line_estimate,
            match result {
                Ok(()) => {
                    &&& old(self).backend.holds_callees(body@)
                    &&& final(self).backend.lowered() == old(self).backend.lowered().push(
                        old(self).felt_function(name@, felt, arity as nat, body@),
                    )
                    &&& Backend::gained(old(self).backend, final(self).backend, name@)
                },
                Err(e) => {
                    &&& final(self).backend.functions == old(self).backend.functions
                    &&& e == LowerError::MissingHelper || e == LowerError::HelperWithoutValue
                    &&& e == LowerError::MissingHelper <==> !old(self).backend.holds_callees(body@)
                    &&& e == LowerError::MissingHelper ==> *final(self) == *old(self)
                    &&& e == LowerError::HelperWithoutValue ==> !body@.calls_nothing()
                    &&& e == LowerError::HelperWithoutValue ==> Backend::gained(
                        old(self).backend,
                        final(self).backend,
                        name@,
                    )
                },
            },
    {
        let line = self.current_line_estimate;
        let mut params: Vec<BackendType<'ctx>> = Vec::new();
        let mut debug_params: Vec<DebugType<'ctx>> = Vec::new();
        let mut i: usize = 0;
        while i < arity
            invariant
                i <= arity,
                params@.len() == i,
                forall|k: int| 0 <= k < i ==> params@[k] == ty,
                debug_type matches Some(mirrored) ==> {
                    &&& debug_params@.len() == i
                    &&& forall|k: int| 0 <= k < i ==> debug_params@[k] == mirrored
                },
            decreases arity - i,
        {
            params.push(ty);
            if let Some(mirrored) = debug_type {
                debug_params.push(mirrored);
            }
            i = i + 1;
        }
        assert(widths(params@) =~= Seq::new(arity as nat, |i: int| ty.bits));
        let subprogram = match &debug_type {
            Some(mirrored) => {
                assert(sizes(debug_params@) =~= Seq::new(
                    arity as nat,
                    |i: int| mirrored.size_in_bits,
                ));
                Some(DebugMirror::subprogram(name, line, mirrored, &debug_params))
            },
            None => None,
        };
        let function = self.backend.add_function(name, &ty, &params, body, subprogram)?;
        if let Some(mirror) = &self.debug {
            if let Some(mirrored) = &debug_type {
                mirror.describe(function, name, line, mirrored, &debug_params);
            }
        }
        Ok(())
    }

    /// Why `felt_const` refuses a declaration, if it does: no type is
    /// declared under the name `felt`; the declaration has no name for the
    /// function; its first generic argument is missing or is not a value; or
    /// the value is not written in decimal.
    pub open spec fn felt_const_refusal(&self, declaration: &LibfuncDeclaration) -> Option<
        LowerError,
    > {
        if self.type_named(felt_name()) is None {
            Some(LowerError::UndeclaredType)
        } else if declaration.id.debug_name is None {
            Some(LowerError::MissingDebugName)
        } else if declaration.generic_args@.len() == 0 || !(declaration.generic_args@[0] is Value) {
            Some(LowerError::MissingLiteral)
        } else if !is_decimal_literal(declaration.generic_args@[0]->Value_0@) {
            Some(LowerError::LiteralNotDecimal)
        } else {
            None
        }
    }

    /// Lowers a constant of the field: adds the function
    /// `fn felt_const() -> felt`, named as the declaration is, that returns
    /// the value of the first generic argument of the declaration as an
    /// integer of the width of `felt`.
    ///
    /// Where debug information is kept, the function gets a subprogram at
    /// the current line whose result has the debug type of `felt`.
    ///
    /// A declaration that is refused changes nothing.
    pub fn felt_const(&mut self, libfunc_declaration: &LibfuncDeclaration) -> (result: Result<
        (),
        LowerError,
    >)
        requires
            old(self).well_formed(),
        ensures
            final(self).well_formed(),
            result is Err <==> old(self).felt_const_refusal(libfunc_declaration) is Some,
            result matches Err(e) ==> {
                &&& old(self).felt_const_refusal(libfunc_declaration) == Some(e)
                &&& *final(self) == *old(self)
            },
            result is Ok ==> {
                let name = libfunc_declaration.id.debug_name->Some_0@;
                let felt = old(self).type_named(felt_name())->Some_0;
                let literal = libfunc_declaration.generic_args@[0]->Value_0@;
                &&& final(self).backend.lowered() == old(self).backend.lowered().push(
                    old(self).felt_function(
                        name,
                        felt,
                        0,
                        BodyView::constant(old(self).types@[felt].bits, literal),
                    ),
                )
                &&& Backend::gained(old(self).backend, final(self).backend, name)
                &&& final(self).types == old(self).types
                &&& final(self).type_names == old(self).type_names
                &&& final(self).debug == old(self).debug
                &&& final(self).current_line_estimate == old(self).current_line_estimate
            },
    {
        let (felt, ty, debug_type) = match self.felt_type() {
            Some(found) => found,
            None => {
                return Err(LowerError::UndeclaredType);
            },
        };
        let name = match &libfunc_declaration.id.debug_name {
            Some(name) => name,
            None => {
                return Err(LowerError::MissingDebugName);
            },
        };
        if libfunc_declaration.generic_args.len() == 0 {
            return Err(LowerError::MissingLiteral);
        }
        let literal = match &libfunc_declaration.generic_args[0] {
            GenericArg::Value(literal) => literal,
            _ => {
                return Err(LowerError::MissingLiteral);
            },
        };
        if !literal_is_decimal(literal.as_str()) {
            return Err(LowerError::LiteralNotDecimal);
        }
        let body = Body::constant(ty.bits, literal.as_str());
        self.add_felt_function(name.as_str(), felt, ty, debug_type, 0, body)
    }

    /// Why `felt_sub` refuses a declaration, if it does: no type is declared
    /// under the name `felt`; that type is wider than `WIDE_BITS` bits, so
    /// that there is nothing to extend; the declaration has no name for the
    /// function; or the module holds no function `modulo`.
    pub open spec fn felt_sub_refusal(&self, declaration: &LibfuncDeclaration) -> Option<
        LowerError,
    > {
        if self.type_named(felt_name()) is None {
            Some(LowerError::UndeclaredType)
        } else if self.types@[self.type_named(felt_name())->Some_0].bits > WIDE_BITS {
            Some(LowerError::InvalidWidth)
        } else if declaration.id.debug_name is None {
            Some(LowerError::MissingDebugName)
        } else if !self.backend.function_names().contains(modulo_name()) {
            Some(LowerError::MissingHelper)
        } else {
            None
        }
    }

    /// Lowers the subtraction of the field: adds the function
    /// `fn felt_sub(a: felt, b: felt) -> felt`, named as the declaration is.
    /// A difference of field elements may be negative, so the function does
    /// not return `a - b` as it is: it extends the sign of the difference to
    /// `WIDE_BITS` bits and returns what the function `modulo` of the module
    /// makes of that.
    ///
    /// Where debug information is kept, the function gets a subprogram at
    /// the current line, with the debug type of `felt` for its parameters
    /// and its result.
    ///
    /// A declaration that is refused changes nothing. Where `modulo` yields
    /// no integer the new function stays in the module, unfinished, and is
    /// not recorded: the error is `HelperWithoutValue`.
    pub fn felt_sub(&mut self, libfunc_declaration: &LibfuncDeclaration) -> (result: Result<
        (),
        LowerError,
    >)
        requires
            old(self).well_formed(),
        ensures
            final(self).well_formed(),
            final(self).types == old(self).types,
            final(self).type_names == old(self).type_names,
            final(self).debug == old(self).debug,
            final(self).current_line_estimate == old(self).current_line_estimate,
            old(self).felt_sub_refusal(libfunc_declaration) matches Some(e) ==> {
                &&& result == Err::<(), LowerError>(e)
                &&& *final(self) == *old(self)
            },
            old(self).felt_sub_refusal(libfunc_declaration) is None ==> {
                &&& result is Ok || result == Err::<(), LowerError>(LowerError::HelperWithoutValue)
                &&& Backend::gained(
                    old(self).backend,
                    final(self).backend,
                    libfunc_declaration.id.debug_name->Some_0@,
                )
            },
            result is Err ==> final(self).backend.functions == old(self).backend.functions,
            result is Ok ==> {
                let name = libfunc_declaration.id.debug_name->Some_0@;
                let felt = old(self).type_named(felt_name())->Some_0;
                final(self).backend.lowered() == old(self).backend.lowered().push(
                    old(self).felt_function(
                        name,
                        felt,
                        2,
                        BodyView::difference_reduced(WIDE_BITS, modulo_name()),
                    ),
                )
            },
    {
        let (felt, ty, debug_type) = match self.felt_type() {
            Some(found) => found,
            None => {
                return Err(LowerError::UndeclaredType);
            },
        };
        if ty.bits > WIDE_BITS {
            return Err(LowerError::InvalidWidth);
        }
        let name = match &libfunc_declaration.id.debug_name {
            Some(name) => name,
            None => {
                return Err(LowerError::MissingDebugName);
            },
        };
        let body = FeltSub {}.create_body(2);
        proof {
            lemma_difference_reduced_calls(WIDE_BITS, modulo_name());
        }
        self.add_felt_function(name.as_str(), felt, ty, debug_type, 2, body)
    }
}

/// The body of a reduced difference calls the reducing function and no
/// other.
pub proof fn lemma_difference_reduced_calls(wide_bits: u32, reduce: Seq<char>)
    ensures
        BodyView::difference_reduced(wide_bits, reduce).callees() == set![reduce],
{
    let body = BodyView::difference_reduced(wide_bits, reduce);
}

} // verus!
