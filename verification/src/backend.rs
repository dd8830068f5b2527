//! The module under construction: the LLVM objects that functions are emitted
//! into, and a record of every function emitted so far.
use vstd::prelude::*;
use inkwell::builder::Builder;
use inkwell::context::Context;
use inkwell::module::Module;
use inkwell::types::IntType;
use inkwell::values::FunctionValue;
use inkwell::values::IntValue;
use crate::body::Body;
use crate::body::BodyView;
use crate::body::Inst;
use crate::body::InstView;
use crate::body::Operand;
use crate::debug::FLAG_PUBLIC;
use crate::errors::LowerError;
use crate::llvm::add_function;
use crate::llvm::append_block;
use crate::llvm::build_add;
use crate::llvm::build_helper_call;
use crate::llvm::build_return;
use crate::llvm::build_sign_extend;
use crate::llvm::build_sub;
use crate::llvm::const_from_decimal;
use crate::llvm::find_function;
use crate::llvm::gained_function;
use crate::llvm::int_type;
use crate::llvm::is_symbol_name;
use crate::llvm::module_function_names;
use crate::llvm::module_other_names;
use crate::llvm::position_at_end;
use crate::llvm::MAX_INT_BITS;
use crate::llvm::MIN_INT_BITS;

verus! {

/// A backend type: the handle of an integer type of LLVM and the width that
/// the type was made with.
#[derive(Clone, Copy)]
pub struct BackendType<'ctx> {
    pub handle: IntType<'ctx>,
    pub bits: u32,
}

impl<'ctx> BackendType<'ctx> {
    /// The integer type of `bits` bits, if LLVM has one.
    pub fn of_width(context: &'ctx Context, bits: u32) -> (ty: Option<BackendType<'ctx>>)
        ensures
            ty.is_some() <==> MIN_INT_BITS <= bits <= MAX_INT_BITS,
            ty matches Some(t) ==> t.bits == bits,
    {
        if MIN_INT_BITS <= bits && bits <= MAX_INT_BITS {
            Some(BackendType { handle: int_type(context, bits), bits })
        } else {
            None
        }
    }

    /// The width of the type.
    pub fn bit_width(&self) -> (bits: u32)
        ensures
            bits == self.bits,
    {
        self.bits
    }
}

/// The widths of a list of backend types.
pub open spec fn widths(types: Seq<BackendType>) -> Seq<u32> {
    types.map_values(|ty: BackendType| ty.bits)
}

/// What the debug information says of one function.
#[derive(Debug)]
pub struct Subprogram {
    pub name: String,
    pub line: u32,
    pub ret_size: u64,
    pub param_sizes: Vec<u64>,
    pub flags: i32,
}

/// A subprogram as contracts see it.
pub struct SubprogramView {
    pub name: Seq<char>,
    pub line: u32,
    pub ret_size: u64,
    pub param_sizes: Seq<u64>,
    pub flags: i32,
}

impl View for Subprogram {
    type V = SubprogramView;

    open spec fn view(&self) -> SubprogramView {
        SubprogramView {
            name: self.name@,
            line: self.line,
            ret_size: self.ret_size,
            param_sizes: self.param_sizes@,
            flags: self.flags,
        }
    }
}

/// The view of a subprogram that may be absent.
pub open spec fn subprogram_view(subprogram: Option<Subprogram>) -> Option<SubprogramView> {
    match subprogram {
        Some(s) => Some(s@),
        None => None,
    }
}

/// The record of one emitted function.
#[derive(Debug)]
pub struct Function {
    pub name: String,
    pub ret_bits: u32,
    pub param_bits: Vec<u32>,
    pub body: Body,
    pub subprogram: Option<Subprogram>,
}

/// An emitted function as contracts see it.
pub struct FunctionView {
    pub name: Seq<char>,
    pub ret_bits: u32,
    pub param_bits: Seq<u32>,
    pub body: BodyView,
    pub subprogram: Option<SubprogramView>,
}

impl View for Function {
    type V = FunctionView;

    open spec fn view(&self) -> FunctionView {
        FunctionView {
            name: self.name@,
            ret_bits: self.ret_bits,
            param_bits: self.param_bits@,
            body: self.body@,
            subprogram: subprogram_view(self.subprogram),
        }
    }
}

impl FunctionView {
    /// Whether the debug information of the function, if it has any, agrees
    /// with its signature: it is public and has the name of the function
    /// and one size for each parameter and for the result, each the width
    /// of the type it stands for.
    pub open spec fn debug_matches(self) -> bool {
        self.subprogram matches Some(s) ==> {
            &&& s.flags == FLAG_PUBLIC
            &&& s.name == self.name
            &&& s.ret_size == self.ret_bits
            &&& s.param_sizes.len() == self.param_bits.len()
            &&& forall|i: int|
                0 <= i < s.param_sizes.len() ==> #[trigger] s.param_sizes[i] == self.param_bits[i]
        }
    }
}

/// The module under construction.
pub struct Backend<'ctx> {
    pub context: &'ctx Context,
    pub module: Module<'ctx>,
    pub builder: Builder<'ctx>,
    pub functions: Vec<Function>,
}

/// The value that an operand stands for.
fn operand_value<'ctx>(
    operand: &Operand,
    params: &Vec<IntValue<'ctx>>,
    values: &Vec<IntValue<'ctx>>,
) -> (value: IntValue<'ctx>)
    requires
        operand.defined(params@.len(), values@.len()),
    ensures
        value == operand.among(params@, values@),
{
    match operand {
        Operand::Param(i) => params[*i],
        Operand::Value(j) => values[*j],
    }
}

/// What a helper call comes to: the integer it yielded, or the error that
/// says it yielded none.
pub fn helper_value<'ctx>(yielded: Option<IntValue<'ctx>>) -> (result: Result<
    IntValue<'ctx>,
    LowerError,
>)
    ensures
        result == match yielded {
            Some(value) => Ok::<IntValue<'ctx>, LowerError>(value),
            None => Err::<IntValue<'ctx>, LowerError>(LowerError::HelperWithoutValue),
        },
{
    match yielded {
        Some(value) => Ok(value),
        None => Err(LowerError::HelperWithoutValue),
    }
}

impl<'ctx> Backend<'ctx> {
    /// A backend that emits into `module` through `builder` and has recorded
    /// nothing yet.
    pub fn new(context: &'ctx Context, module: Module<'ctx>, builder: Builder<'ctx>) -> (backend:
        Backend<'ctx>)
        ensures
            backend.well_formed(),
            backend.context == context,
            backend.module == module,
            backend.builder == builder,
            backend.lowered() == Seq::<FunctionView>::empty(),
    {
        let backend = Backend { context, module, builder, functions: Vec::new() };
        backend
    }

    /// The functions emitted so far, in the order of their emission.
    pub open spec fn lowered(&self) -> Seq<FunctionView> {
        self.functions@.map_values(|f: Function| f@)
    }

    /// The names of the functions that the module holds.
    pub open spec fn function_names(&self) -> Set<Seq<char>> {
        module_function_names(&self.module)
    }

    /// The names of what the module holds besides functions.
    pub open spec fn other_names(&self) -> Set<Seq<char>> {
        module_other_names(&self.module)
    }

    /// The invariant of the backend: the module holds every function of the
    /// record, under its name, unless that is no name at all or is taken by
    /// something else.
    pub open spec fn well_formed(&self) -> bool {
        forall|i: int|
            0 <= i < self.lowered().len() && is_symbol_name((#[trigger] self.lowered()[i]).name)
                && !self.other_names().contains(self.lowered()[i].name)
                ==> self.function_names().contains(self.lowered()[i].name)
    }

    /// Whether the backend `after` is the backend `before` with one more
    /// function in its module, added under `name`.
    pub open spec fn gained(before: Backend<'ctx>, after: Backend<'ctx>, name: Seq<char>) -> bool {
        &&& after.other_names() == before.other_names()
        &&& gained_function(
            before.function_names(),
            after.function_names(),
            before.other_names(),
            name,
        )
    }

    /// Whether the module holds every function that `body` calls.
    pub open spec fn holds_callees(&self, body: BodyView) -> bool {
        body.callees().subset_of(self.function_names())
    }

    /// The LLVM module, to print, verify or run it. Functions are added to it
    /// through the backend only.
    pub fn module(&self) -> (module: &Module<'ctx>)
        ensures
            module == &self.module,
    {
        &self.module
    }

    /// The records of the functions emitted so far.
    pub fn functions(&self) -> (functions: &Vec<Function>)
        ensures
            functions == &self.functions,
    {
        &self.functions
    }

    /// Whether the module holds a function of this name.
    pub fn has_function(&self, name: &str) -> (found: bool)
        ensures
            is_symbol_name(name@) ==> (found <==> self.function_names().contains(name@)),
    {
        find_function(&self.module, name).is_some()
    }

    /// Emits the instructions of `body` at the cursor and hands out the value
    /// that the body returns. `params` are the parameters of the function
    /// that the cursor stands in.
    ///
    /// Each instruction yields one value, and the value handed out is what
    /// the result of the body stands for among the parameters and those
    /// values: the parameter itself, where the body returns a parameter. A
    /// body without calls is always emitted; a call that yields no integer
    /// ends the emission.
    fn emit_body(&self, params: &Vec<IntValue<'ctx>>, body: &Body) -> (result: Result<
        IntValue<'ctx>,
        LowerError,
    >)
        requires
            body@.well_formed(params@.len() as nat),
            self.holds_callees(body@),
        ensures
            body@.calls_nothing() ==> result is Ok,
            result matches Err(e) ==> e == LowerError::HelperWithoutValue && !body@.calls_nothing(),
            result matches Ok(value) ==> exists|values: Seq<IntValue<'ctx>>|
                values.len() == body@.insts.len() && value == #[trigger] body.result.among(
                    params@,
                    values,
                ),
    {
        let mut values: Vec<IntValue<'ctx>> = Vec::new();
        let mut i: usize = 0;
        while i < body.insts.len()
            invariant
                i <= body.insts@.len(),
                values@.len() == i,
                body@.well_formed(params@.len() as nat),
                self.holds_callees(body@),
            decreases body.insts@.len() - i,
        {
            assert(body@.insts[i as int] == body.insts@[i as int]@);
            let value = match &body.insts[i] {
                Inst::Const { bits, literal } => {
                    let ty = int_type(self.context, *bits);
                    match const_from_decimal(ty, literal.as_str()) {
                        Some(constant) => constant,
                        None => {
                            return Err(LowerError::LiteralNotDecimal);
                        },
                    }
                },
                Inst::Add { lhs, rhs } => {
                    let lhs = operand_value(lhs, params, &values);
                    let rhs = operand_value(rhs, params, &values);
                    build_add(&self.builder, lhs, rhs, "res")
                },
                Inst::Sub { lhs, rhs } => {
                    let lhs = operand_value(lhs, params, &values);
                    let rhs = operand_value(rhs, params, &values);
                    build_sub(&self.builder, lhs, rhs, "res")
                },
                Inst::SignExtend { value, bits } => {
                    let ty = int_type(self.context, *bits);
                    build_sign_extend(
                        &self.builder,
                        operand_value(value, params, &values),
                        ty,
                        "arg",
                    )
                },
                Inst::Call { callee, arg } => {
                    assert(body@.callees().contains(callee@));
                    let arg = operand_value(arg, params, &values);
                    match find_function(&self.module, callee.as_str()) {
                        Some(function) => {
                            match helper_value(
                                build_helper_call(&self.builder, function, arg, "res"),
                            ) {
                                Ok(yielded) => yielded,
                                Err(e) => {
                                    return Err(e);
                                },
                            }
                        },
                        None => {
                            return Err(LowerError::MissingHelper);
                        },
                    }
                },
            };
            values.push(value);
            i = i + 1;
        }
        Ok(operand_value(&body.result, params, &values))
    }

    /// Adds the function `name` to the module: of the given signature, with
    /// one block named `entry` that holds the instructions of `body` and
    /// ends by returning the value of the body. The function is recorded
    /// with `subprogram` as its debug information.
    ///
    /// Nothing is added unless the module holds every function that the body
    /// calls. A call that yields no integer ends the emission after the
    /// function has been added: it is then in the module, unfinished, and not
    /// in the record.
    pub fn add_function(
        &mut self,
        name: &str,
        ret: &BackendType<'ctx>,
        params: &Vec<BackendType<'ctx>>,
        body: Body,
        subprogram: Option<Subprogram>,
    ) -> (result: Result<FunctionValue<'ctx>, LowerError>)
        requires
            old(self).well_formed(),
            body@.well_formed(params@.len() as nat),
            params@.len() <= u32::MAX,
        ensures
            final(self).well_formed(),
            final(self).context == old(self).context,
            final(self).builder == old(self).builder,
            match result {
                Ok(_) => {
                    &&& old(self).holds_callees(body@)
                    &&& final(self).lowered() == old(self).lowered().push(
                        FunctionView {
                            name: name@,
                            ret_bits: ret.bits,
                            param_bits: widths(params@),
                            body: body@,
                            subprogram: subprogram_view(subprogram),
                        },
                    )
                    &&& Self::gained(*old(self), *final(self), name@)
                },
                Err(e) => {
                    &&& final(self).functions == old(self).functions
                    &&& e == LowerError::MissingHelper || e == LowerError::HelperWithoutValue
                    &&& e == LowerError::MissingHelper <==> !old(self).holds_callees(body@)
                    &&& e == LowerError::MissingHelper ==> final(self).module == old(self).module
                    &&& e == LowerError::HelperWithoutValue ==> !body@.calls_nothing()
                    &&& e == LowerError::HelperWithoutValue ==> Self::gained(
                        *old(self),
                        *final(self),
                        name@,
                    )
                },
            },
    {
        if self.first_missing_callee(&body).is_some() {
            return Err(LowerError::MissingHelper);
        }
        let mut handles: Vec<IntType<'ctx>> = Vec::new();
        let mut param_bits: Vec<u32> = Vec::new();
        let mut i: usize = 0;
        while i < params.len()
            invariant
                i <= params@.len(),
                handles@.len() == i,
                param_bits@ == widths(params@.take(i as int)),
            decreases params@.len() - i,
        {
            handles.push(params[i].handle);
            param_bits.push(params[i].bits);
            i = i + 1;
        }
        assert(params@.take(i as int) == params@);
        let (function, values) = add_function(&mut self.module, name, ret.handle, &handles);
        position_at_end(&self.builder, append_block(self.context, function, "entry"));
        let value = self.emit_body(&values, &body)?;
        build_return(&self.builder, value);
        let ghost before = self.lowered();
        let ghost added = FunctionView {
            name: name@,
            ret_bits: ret.bits,
            param_bits: widths(params@),
            body: body@,
            subprogram: subprogram_view(subprogram),
        };
        self.functions.push(
            Function { name: name.to_owned(), ret_bits: ret.bits, param_bits, body, subprogram },
        );
        assert(self.lowered() =~= before.push(added));
        Ok(function)
    }

    /// The position of the first call in `body` of a function that the module
    /// does not hold.
    pub fn first_missing_callee(&self, body: &Body) -> (missing: Option<usize>)
        requires
            body@.callees_named(),
        ensures
            missing is None <==> self.holds_callees(body@),
            missing matches Some(at) ==> {
                &&& at < body@.insts.len()
                &&& body@.insts[at as int] matches InstView::Call { callee, .. }
                &&& !self.function_names().contains(callee)
                &&& forall|k: int, name: Seq<char>|
                    0 <= k < at && #[trigger] body@.insts[k].calls(name)
                        ==> self.function_names().contains(name)
            },
    {
        let mut i: usize = 0;
        while i < body.insts.len()
            invariant
                i <= body.insts@.len(),
                body@.callees_named(),
                forall|k: int, name: Seq<char>|
                    0 <= k < i && #[trigger] body@.insts[k].calls(name)
                        ==> self.function_names().contains(name),
            decreases body.insts@.len() - i,
        {
            if let Inst::Call { callee, .. } = &body.insts[i] {
                assert(body@.insts[i as int].calls(callee@));
                if !self.has_function(callee.as_str()) {
                    return Some(i);
                }
            }
            i = i + 1;
        }
        None
    }
}

} // verus!
