//! The framework that lowers a libfunc in two steps: a processor describes
//! the body of the operation, and the scaffolding makes a function of it.
use vstd::prelude::*;
use crate::backend::widths;
use crate::backend::Backend;
use crate::backend::BackendType;
use crate::backend::FunctionView;
use crate::body::Body;
use crate::body::BodyView;
use crate::errors::LowerError;

verus! {

/// The core types that have processors of their own.
pub enum LlvmCoreTypes<'ctx> {
    /// The field element, with the processor of its operation.
    Felt(BackendType<'ctx>, Box<dyn LlvmBodyProcessor>),
    /// The integer of 128 bits.
    Int128(BackendType<'ctx>),
}

/// The scaffolding of a libfunc: it makes the function, and leaves the body
/// to a processor. It can handle any numeric type.
pub struct Func {}

/// The processor of addition.
pub struct LlvmMathAdd {}

/// What an operation computes: given the shell of a function, the
/// instructions of its body and the one value to return.
pub trait LlvmBodyProcessor {
    /// The number of parameters that the operation takes.
    spec fn arity(&self) -> nat;

    /// The body of the operation in a function of `parameters` parameters.
    spec fn body(&self, parameters: nat) -> BodyView;

    /// The number of parameters that the operation takes.
    fn parameter_count(&self) -> (count: usize)
        ensures
            count == self.arity(),
    ;

    /// The body of the operation in a function of `parameters` parameters.
    fn create_body(&self, parameters: usize) -> (body: Body)
        requires
            parameters == self.arity(),
        ensures
            body@ == self.body(parameters as nat),
            body@.well_formed(parameters as nat),
    ;
}

impl LlvmBodyProcessor for LlvmMathAdd {
    open spec fn arity(&self) -> nat {
        2
    }

    open spec fn body(&self, parameters: nat) -> BodyView {
        BodyView::sum_of_ends(parameters)
    }

    fn parameter_count(&self) -> (count: usize) {
        2
    }

    /// The sum of the first and the last parameter.
    fn create_body(&self, parameters: usize) -> (body: Body) {
        Body::sum_of_ends(parameters)
    }
}

/// What every processor of libfuncs does: it generates the LLVM IR of one
/// libfunc.
pub trait LibfuncProcessor<'ctx> {
    /// Adds to the module of `backend` the function `fn_name`, which takes
    /// `parameter_types`, returns `output_type` and has the body that
    /// `body_creator_type` describes.
    ///
    /// The number of parameter types has to be the one that the operation
    /// takes: with another the call is refused and changes nothing. Nothing
    /// is added either while the module lacks a function that the body
    /// calls.
    fn to_llvm(
        &self,
        fn_name: &str,
        output_type: BackendType<'ctx>,
        parameter_types: Vec<BackendType<'ctx>>,
        body_creator_type: &dyn LlvmBodyProcessor,
        backend: &mut Backend<'ctx>,
    ) -> (result: Result<(), LowerError>)
        requires
            old(backend).well_formed(),
            parameter_types@.len() <= u32::MAX,
        ensures
            final(backend).well_formed(),
            parameter_types@.len() != body_creator_type.arity() ==> {
                &&& result == Err::<(), LowerError>(
                    LowerError::ArityMismatch {
                        expected: body_creator_type.arity() as usize,
                        found: parameter_types@.len() as usize,
                    },
                )
                &&& *final(backend) == *old(backend)
            },
            parameter_types@.len() == body_creator_type.arity() ==> {
                let body = body_creator_type.body(parameter_types@.len());
                match result {
                    Ok(()) => {
                        &&& old(backend).holds_callees(body)
                        &&& final(backend).lowered() == old(backend).lowered().push(
                            FunctionView {
                                name: fn_name@,
                                ret_bits: output_type.bits,
                                param_bits: widths(parameter_types@),
                                body,
                                subprogram: None,
                            },
                        )
                        &&& Backend::gained(*old(backend), *final(backend), fn_name@)
                    },
                    Err(e) => {
                        &&& final(backend).functions == old(backend).functions
                        &&& e == LowerError::MissingHelper || e == LowerError::HelperWithoutValue
                        &&& e == LowerError::MissingHelper <==> !old(backend).holds_callees(body)
                        &&& e == LowerError::MissingHelper ==> *final(backend) == *old(backend)
                        &&& e == LowerError::HelperWithoutValue ==> !body.calls_nothing()
                        &&& e == LowerError::HelperWithoutValue ==> Backend::gained(
                            *old(backend),
                            *final(backend),
                            fn_name@,
                        )
                    },
                }
            },
    ;
}

impl<'ctx> LibfuncProcessor<'ctx> for Func {
    fn to_llvm(
        &self,
        fn_name: &str,
        output_type: BackendType<'ctx>,
        parameter_types: Vec<BackendType<'ctx>>,
        body_creator_type: &dyn LlvmBodyProcessor,
        backend: &mut Backend<'ctx>,
    ) -> (result: Result<(), LowerError>) {
        let expected = body_creator_type.parameter_count();
        let found = parameter_types.len();
        if found != expected {
            return Err(LowerError::ArityMismatch { expected, found });
        }
        let body = body_creator_type.create_body(found);
        match backend.add_function(fn_name, &output_type, &parameter_types, body, None) {
            Ok(_) => Ok(()),
            Err(e) => Err(e),
        }
    }
}

} // verus!
