use inkwell::context::Context;
use inkwell::debug_info::DIFlags;
use inkwell::debug_info::DIFlagsConstants;
use inkwell::debug_info::DWARFEmissionKind;
use inkwell::debug_info::DWARFSourceLanguage;
use inkwell::module::Module;
use shenlong_core::compiler::Compiler;
use shenlong_core::debug::FLAG_PUBLIC;
use shenlong_core::debug::NO_ENCODING;
use shenlong_core::errors::LowerError;
use shenlong_core::math::WIDE_BITS;
use shenlong_core::program::ConcreteLibfuncId;
use shenlong_core::program::ConcreteTypeId;
use shenlong_core::program::GenericArg;
use shenlong_core::program::LibfuncDeclaration;
use shenlong_core::program::TypeDeclaration;

fn type_declaration(id: u64, name: Option<&str>, generic_args: Vec<GenericArg>) -> TypeDeclaration {
    TypeDeclaration { id: ConcreteTypeId { id, debug_name: name.map(|n| n.to_string()) }, generic_args }
}

fn inner(id: u64) -> Vec<GenericArg> {
    vec![GenericArg::Type(ConcreteTypeId { id, debug_name: None })]
}

fn libfunc(name: &str, generic_args: Vec<GenericArg>) -> LibfuncDeclaration {
    LibfuncDeclaration { id: ConcreteLibfuncId { id: 7, debug_name: Some(name.to_string()) }, generic_args }
}

fn declare_modulo<'ctx>(context: &'ctx Context, module: &Module<'ctx>) {
    let wide = context.custom_width_int_type(WIDE_BITS);
    let felt = context.custom_width_int_type(253);
    module.add_function("modulo", felt.fn_type(&[wide.into()], false), None);
}

fn debugging_compiler(context: &Context) -> Compiler<'_> {
    let module = context.create_module("test");
    declare_modulo(context, &module);
    let debug = module.create_debug_info_builder(
        true,
        DWARFSourceLanguage::C,
        "test.sierra",
        ".",
        "shenlong",
        false,
        "",
        0,
        "",
        DWARFEmissionKind::Full,
        0,
        false,
        false,
        "",
        "",
    );
    Compiler::new(context, module, context.create_builder(), Some(debug))
}

#[test]
fn each_type_has_a_debug_type_of_its_size() {
    let context = Context::create();
    let mut compiler = debugging_compiler(&context);
    assert!(compiler.debug_active());
    assert_eq!(compiler.integer(&type_declaration(0, Some("felt"), vec![]), 253), Ok(()));
    assert_eq!(compiler.integer(&type_declaration(1, Some("u128"), vec![]), 128), Ok(()));
    assert_eq!(compiler.non_zero(&type_declaration(2, Some("NonZero<felt>"), inner(0))), Ok(()));
    for (id, bits) in [(0, 253), (1, 128), (2, 253)] {
        let debug_type = compiler.debug_type_of(id).unwrap();
        assert_eq!(debug_type.size_in_bits, bits);
        assert_eq!(debug_type.handle.get_size_in_bits(), bits);
        assert_eq!(debug_type.flags, DIFlags::PUBLIC);
        assert_eq!(debug_type.flags, FLAG_PUBLIC);
        assert_eq!(debug_type.encoding, NO_ENCODING);
        assert_eq!(u64::from(compiler.type_of(id).unwrap().bits), bits);
    }
    assert!(compiler.debug_type_of(3).is_none());
    assert_ne!(compiler.debug_type_of(2).unwrap().handle, compiler.debug_type_of(0).unwrap().handle);
}

#[test]
fn a_type_without_a_name_has_no_place_in_debug_information() {
    let context = Context::create();
    let mut compiler = debugging_compiler(&context);
    assert_eq!(compiler.integer(&type_declaration(0, None, vec![]), 253), Err(LowerError::MissingDebugName));
    assert_eq!(compiler.integer(&type_declaration(0, Some(""), vec![]), 253), Err(LowerError::MissingDebugName));
    assert!(compiler.type_of(0).is_none());
    assert!(compiler.debug_type_of(0).is_none());
    assert_eq!(compiler.integer(&type_declaration(0, Some("felt"), vec![]), 253), Ok(()));
    assert_eq!(compiler.non_zero(&type_declaration(2, None, inner(0))), Err(LowerError::MissingDebugName));
    assert_eq!(compiler.non_zero(&type_declaration(2, Some(""), inner(0))), Err(LowerError::MissingDebugName));
    assert!(compiler.type_of(2).is_none());
    assert!(compiler.debug_type_of(2).is_none());
    assert_eq!(compiler.non_zero(&type_declaration(2, None, inner(9))), Err(LowerError::UndeclaredType));
}

#[test]
fn each_function_has_a_subprogram_of_its_signature() {
    let context = Context::create();
    let mut compiler = debugging_compiler(&context);
    assert_eq!(compiler.integer(&type_declaration(0, Some("felt"), vec![]), 253), Ok(()));
    compiler.current_line_estimate = 12;
    assert_eq!(compiler.felt_const(&libfunc("felt_const", vec![GenericArg::Value("42".to_string())])), Ok(()));
    compiler.current_line_estimate = 13;
    assert_eq!(compiler.felt_sub(&libfunc("felt_sub", vec![])), Ok(()));

    let functions = compiler.functions();
    assert_eq!(functions.len(), 2);
    let constant = functions[0].subprogram.as_ref().unwrap();
    assert_eq!(constant.name, "felt_const");
    assert_eq!(constant.line, 12);
    assert_eq!(constant.ret_size, 253);
    assert!(constant.param_sizes.is_empty());
    let sub = functions[1].subprogram.as_ref().unwrap();
    assert_eq!(sub.name, "felt_sub");
    assert_eq!(sub.line, 13);
    assert_eq!(sub.ret_size, 253);
    assert_eq!(sub.param_sizes, vec![253, 253]);
    assert_eq!(sub.flags, DIFlags::PUBLIC);

    for name in ["felt_const", "felt_sub"] {
        assert!(compiler.module().get_function(name).unwrap().get_subprogram().is_some(), "{}", name);
    }
    assert!(compiler.module().get_function("modulo").unwrap().get_subprogram().is_none());
    let text = compiler.module().print_to_string().to_string();
    assert!(text.contains("!DISubprogram(name: \"felt_const\""), "{}", text);
    assert!(text.contains("!DISubprogram(name: \"felt_sub\""), "{}", text);
    assert!(text.contains("line: 13"), "{}", text);
    assert!(text.contains("flags: DIFlagPublic"), "{}", text);
    assert_eq!(NO_ENCODING, 0);
}

#[test]
fn without_debug_information_nothing_is_mirrored() {
    let context = Context::create();
    let module = context.create_module("test");
    declare_modulo(&context, &module);
    let mut compiler = Compiler::new(&context, module, context.create_builder(), None);
    assert!(!compiler.debug_active());
    assert_eq!(compiler.integer(&type_declaration(0, Some("felt"), vec![]), 253), Ok(()));
    assert_eq!(compiler.non_zero(&type_declaration(2, None, inner(0))), Ok(()));
    assert_eq!(compiler.felt_const(&libfunc("felt_const", vec![GenericArg::Value("42".to_string())])), Ok(()));
    assert_eq!(compiler.felt_sub(&libfunc("felt_sub", vec![])), Ok(()));
    for id in [0, 2] {
        assert!(compiler.type_of(id).is_some());
        assert!(compiler.debug_type_of(id).is_none());
    }
    assert!(compiler.debug.is_none());
    for function in compiler.functions() {
        assert!(function.subprogram.is_none());
    }
    for name in ["felt_const", "felt_sub"] {
        assert!(compiler.module().get_function(name).unwrap().get_subprogram().is_none(), "{}", name);
    }
    assert!(!compiler.module().print_to_string().to_string().contains("DISubprogram"));
}
