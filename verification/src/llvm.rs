//! The part of LLVM, reached through `inkwell`, that lowering is built on.
//!
//! Nothing in this file is proved. The types are opaque handles; each function
//! stands for one function of `inkwell` and states what that crate's source
//! shows of it. What a module holds is known to the rest of the library only
//! by the names that are taken in it: those of its functions, and those of
//! everything else.
use vstd::prelude::*;
use inkwell::basic_block::BasicBlock;
use inkwell::builder::Builder;
use inkwell::context::Context;
use inkwell::debug_info::DICompileUnit;
use inkwell::debug_info::DISubprogram;
use inkwell::debug_info::DISubroutineType;
use inkwell::debug_info::DIType;
use inkwell::debug_info::DebugInfoBuilder;
use inkwell::debug_info::AsDIScope;
use inkwell::module::Module;
use inkwell::types::BasicMetadataTypeEnum;
use inkwell::types::IntType;
use inkwell::types::StringRadix;
use inkwell::values::BasicValueEnum;
use inkwell::values::FunctionValue;
use inkwell::values::IntValue;

verus! {

/// `inkwell::context::Context`: owner of the types and constants of LLVM.
#[verifier::external_type_specification]
#[verifier::external_body]
pub struct ExContext(Context);

/// `inkwell::module::Module`: the functions generated so far.
#[verifier::external_type_specification]
#[verifier::external_body]
pub struct ExModule<'ctx>(Module<'ctx>);

/// `inkwell::builder::Builder`: the cursor that appends instructions.
#[verifier::external_type_specification]
#[verifier::external_body]
pub struct ExBuilder<'ctx>(Builder<'ctx>);

/// `inkwell::basic_block::BasicBlock`: a block of a function.
#[verifier::external_type_specification]
#[verifier::external_body]
pub struct ExBasicBlock<'ctx>(BasicBlock<'ctx>);

/// `inkwell::types::IntType`: handle of an integer type.
#[verifier::external_type_specification]
#[verifier::external_body]
pub struct ExIntType<'ctx>(IntType<'ctx>);

/// `inkwell::values::IntValue`: handle of an integer value.
#[verifier::external_type_specification]
#[verifier::external_body]
pub struct ExIntValue<'ctx>(IntValue<'ctx>);

/// `inkwell::values::FunctionValue`: handle of a function.
#[verifier::external_type_specification]
#[verifier::external_body]
pub struct ExFunctionValue<'ctx>(FunctionValue<'ctx>);

/// `inkwell::debug_info::DebugInfoBuilder`: maker of debug metadata.
#[verifier::external_type_specification]
#[verifier::external_body]
pub struct ExDebugInfoBuilder<'ctx>(DebugInfoBuilder<'ctx>);

/// `inkwell::debug_info::DICompileUnit`: the compile unit of a module.
#[verifier::external_type_specification]
#[verifier::external_body]
pub struct ExDICompileUnit<'ctx>(DICompileUnit<'ctx>);

/// `inkwell::debug_info::DIType`: handle of a debug type.
#[verifier::external_type_specification]
#[verifier::external_body]
pub struct ExDIType<'ctx>(DIType<'ctx>);

/// `inkwell::debug_info::DISubroutineType`: debug type of a function.
#[verifier::external_type_specification]
#[verifier::external_body]
pub struct ExDISubroutineType<'ctx>(DISubroutineType<'ctx>);

/// `inkwell::debug_info::DISubprogram`: debug description of a function.
#[verifier::external_type_specification]
#[verifier::external_body]
pub struct ExDISubprogram<'ctx>(DISubprogram<'ctx>);

/// The smallest width of an integer type of LLVM.
pub const MIN_INT_BITS: u32 = 1;

/// The largest width of an integer type of LLVM.
pub const MAX_INT_BITS: u32 = 8388608;

/// The names of the functions that a module holds.
pub uninterp spec fn module_function_names(module: &Module) -> Set<Seq<char>>;

/// The names of what a module holds besides functions: global variables and
/// aliases. A module keeps its functions and these under one table of names.
pub uninterp spec fn module_other_names(module: &Module) -> Set<Seq<char>>;

/// A name under which LLVM files a function: not empty, and without the
/// character that ends a C string.
pub open spec fn is_symbol_name(name: Seq<char>) -> bool {
    &&& name.len() > 0
    &&& forall|i: int| 0 <= i < name.len() ==> name[i] != '\0'
}

/// Whether a module went from the functions `before` to the functions
/// `after` by gaining a function under `name`, while the names in `taken`
/// stood for other things. Nothing left. Unless `name` is no name at all or
/// is taken, a function `name` is there afterwards; and if there was none
/// before, it is the only function that came.
pub open spec fn gained_function(
    before: Set<Seq<char>>,
    after: Set<Seq<char>>,
    taken: Set<Seq<char>>,
    name: Seq<char>,
) -> bool {
    &&& before.subset_of(after)
    &&& is_symbol_name(name) && !taken.contains(name) ==> after.contains(name)
    &&& is_symbol_name(name) && !taken.contains(name) && !before.contains(name) ==> after
        == before.insert(name)
}

/// The digits of a literal: what follows one optional sign.
pub open spec fn literal_digits(literal: Seq<char>) -> Seq<char> {
    if literal.len() > 0 && (literal[0] == '+' || literal[0] == '-') {
        literal.skip(1)
    } else {
        literal
    }
}

/// A decimal literal: an optional sign, then one or more of the digits
/// `0` to `9`.
pub open spec fn is_decimal_literal(literal: Seq<char>) -> bool {
    let digits = literal_digits(literal);
    &&& digits.len() > 0
    &&& forall|i: int| 0 <= i < digits.len() ==> '0' <= #[trigger] digits[i] <= '9'
}

/// `Context::custom_width_int_type`: the integer type of `bits` bits. LLVM
/// has such a type for every width from `MIN_INT_BITS` to `MAX_INT_BITS`.
#[verifier::external_body]
pub(crate) fn int_type<'ctx>(context: &'ctx Context, bits: u32) -> (ty: IntType<'ctx>)
    requires
        MIN_INT_BITS <= bits <= MAX_INT_BITS,
{
    context.custom_width_int_type(bits)
}

/// `IntType::const_int_from_string` with `StringRadix::Decimal`: the constant
/// that `literal` denotes. The call checks the literal first and gives `None`
/// unless it is an optional sign followed by at least one decimal digit.
#[verifier::external_body]
pub(crate) fn const_from_decimal<'ctx>(ty: IntType<'ctx>, literal: &str) -> (value: Option<
    IntValue<'ctx>,
>)
    ensures
        value.is_some() <==> is_decimal_literal(literal@),
{
    ty.const_int_from_string(literal, StringRadix::Decimal)
}

/// `Module::add_function` with the default linkage, on the function type
/// that `IntType::fn_type` makes of `ret` and `params`: adds a function to the
/// module and hands it out with its parameters (`FunctionValue::get_params`),
/// one for each type in `params`. Under a name that is free in the module
/// the new function is filed under exactly that name; under a name that is
/// taken LLVM files it under another. No function leaves the module, and
/// nothing changes for what it holds besides functions.
#[verifier::external_body]
pub(crate) fn add_function<'ctx>(
    module: &mut Module<'ctx>,
    name: &str,
    ret: IntType<'ctx>,
    params: &Vec<IntType<'ctx>>,
) -> (added: (FunctionValue<'ctx>, Vec<IntValue<'ctx>>))
    requires
        params@.len() <= u32::MAX,
    ensures
        added.1@.len() == params@.len(),
        module_other_names(final(module)) == module_other_names(old(module)),
        gained_function(
            module_function_names(old(module)),
            module_function_names(final(module)),
            module_other_names(old(module)),
            name@,
        ),
{
    let types: Vec<BasicMetadataTypeEnum<'ctx>> = params.iter().map(|p| (*p).into()).collect();
    let function = module.add_function(name, ret.fn_type(&types, false), None);
    let values = function.get_params().into_iter().map(|p| p.into_int_value()).collect();
    (function, values)
}

/// `Module::get_function`: the function filed under `name`, if there is one.
#[verifier::external_body]
pub(crate) fn find_function<'ctx>(module: &Module<'ctx>, name: &str) -> (found: Option<
    FunctionValue<'ctx>,
>)
    ensures
        is_symbol_name(name@) ==> (found.is_some() <==> module_function_names(module).contains(
            name@,
        )),
{
    module.get_function(name)
}

/// `Context::append_basic_block`: a new block of the given name at the end
/// of `function`.
#[verifier::external_body]
pub(crate) fn append_block<'ctx>(
    context: &'ctx Context,
    function: FunctionValue<'ctx>,
    name: &str,
) -> (block: BasicBlock<'ctx>) {
    context.append_basic_block(function, name)
}

/// `Builder::position_at_end`: moves the cursor to the end of `block`.
#[verifier::external_body]
pub(crate) fn position_at_end<'ctx>(builder: &Builder<'ctx>, block: BasicBlock<'ctx>) {
    builder.position_at_end(block)
}

/// `Builder::build_int_add`: appends the sum of two integers, under the
/// given name.
#[verifier::external_body]
pub(crate) fn build_add<'ctx>(
    builder: &Builder<'ctx>,
    lhs: IntValue<'ctx>,
    rhs: IntValue<'ctx>,
    name: &str,
) -> (sum: IntValue<'ctx>) {
    builder.build_int_add(lhs, rhs, name)
}

/// `Builder::build_int_sub`: appends the difference of two integers, under
/// the given name.
#[verifier::external_body]
pub(crate) fn build_sub<'ctx>(
    builder: &Builder<'ctx>,
    lhs: IntValue<'ctx>,
    rhs: IntValue<'ctx>,
    name: &str,
) -> (difference: IntValue<'ctx>) {
    builder.build_int_sub(lhs, rhs, name)
}

/// `Builder::build_int_s_extend`: appends the sign extension of an integer
/// to the type `ty`, under the given name.
#[verifier::external_body]
pub(crate) fn build_sign_extend<'ctx>(
    builder: &Builder<'ctx>,
    value: IntValue<'ctx>,
    ty: IntType<'ctx>,
    name: &str,
) -> (wide: IntValue<'ctx>) {
    builder.build_int_s_extend(value, ty, name)
}

/// `Builder::build_call` on one argument: appends the call, under the given
/// name, and hands out what it yields, where that is an integer
/// (`CallSiteValue::try_as_basic_value`).
#[verifier::external_body]
pub(crate) fn build_helper_call<'ctx>(
    builder: &Builder<'ctx>,
    callee: FunctionValue<'ctx>,
    arg: IntValue<'ctx>,
    name: &str,
) -> (value: Option<IntValue<'ctx>>) {
    match builder.build_call(callee, &[arg.into()], name).try_as_basic_value().left() {
        Some(BasicValueEnum::IntValue(value)) => Some(value),
        _ => None,
    }
}

/// `Builder::build_return`: appends the return of `value`.
#[verifier::external_body]
pub(crate) fn build_return<'ctx>(builder: &Builder<'ctx>, value: IntValue<'ctx>) {
    builder.build_return(Some(&value));
}

/// `DebugInfoBuilder::create_basic_type`: a debug type of the given name,
/// size, encoding and flags, handed out as a `DIType` (`DIBasicType::as_type`).
/// The call refuses an empty name and nothing else.
#[verifier::external_body]
pub(crate) fn create_basic_type<'ctx>(
    dibuilder: &DebugInfoBuilder<'ctx>,
    name: &str,
    size_in_bits: u64,
    encoding: u32,
    flags: i32,
) -> (ty: Option<DIType<'ctx>>)
    ensures
        ty.is_some() <==> name@.len() > 0,
{
    dibuilder.create_basic_type(name, size_in_bits, encoding, flags).ok().map(|ty| ty.as_type())
}

/// `DebugInfoBuilder::create_subroutine_type` in the file of the compile
/// unit (`DICompileUnit::get_file`): the debug type of the functions that
/// take `params` and return `ret`.
#[verifier::external_body]
pub(crate) fn create_subroutine_type<'ctx>(
    dibuilder: &DebugInfoBuilder<'ctx>,
    unit: &DICompileUnit<'ctx>,
    ret: DIType<'ctx>,
    params: &Vec<DIType<'ctx>>,
    flags: i32,
) -> (ty: DISubroutineType<'ctx>)
    requires
        params@.len() < u32::MAX,
{
    dibuilder.create_subroutine_type(unit.get_file(), Some(ret), params.as_slice(), flags)
}

/// `DebugInfoBuilder::create_function` in the scope and the file of the
/// compile unit, without a linkage name of its own: the debug description of
/// a function that is defined at `line` and whose scope begins there.
#[verifier::external_body]
pub(crate) fn create_subprogram<'ctx>(
    dibuilder: &DebugInfoBuilder<'ctx>,
    unit: &DICompileUnit<'ctx>,
    name: &str,
    line: u32,
    ty: DISubroutineType<'ctx>,
    local_to_unit: bool,
    definition: bool,
    flags: i32,
    optimized: bool,
) -> (subprogram: DISubprogram<'ctx>) {
    let scope = unit.as_debug_info_scope();
    let file = unit.get_file();
    dibuilder.create_function(
        scope, name, None, file, line, ty, local_to_unit, definition, line, flags, optimized,
    )
}

/// `FunctionValue::set_subprogram`: attaches a debug description to a
/// function.
#[verifier::external_body]
pub(crate) fn set_subprogram<'ctx>(function: FunctionValue<'ctx>, subprogram: DISubprogram<'ctx>) {
    function.set_subprogram(subprogram)
}

} // verus!
