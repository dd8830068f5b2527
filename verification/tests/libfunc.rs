use inkwell::context::Context;
use inkwell::values::AnyValue;
use shenlong_core::backend::Backend;
use shenlong_core::backend::BackendType;
use shenlong_core::body::literal_is_decimal;
use shenlong_core::body::name_is_symbol;
use shenlong_core::body::Body;
use shenlong_core::body::Inst;
use shenlong_core::body::Operand;
use shenlong_core::errors::LowerError;
use shenlong_core::libfunc::Func;
use shenlong_core::libfunc::LibfuncProcessor;
use shenlong_core::libfunc::LlvmBodyProcessor;
use shenlong_core::libfunc::LlvmCoreTypes;
use shenlong_core::libfunc::LlvmMathAdd;
use shenlong_core::math::FeltSub;

fn backend(context: &Context) -> Backend<'_> {
    Backend::new(context, context.create_module("test"), context.create_builder())
}

#[test]
fn to_llvm_adds_the_function() {
    let context = Context::create();
    let mut backend = backend(&context);
    let i64_type = BackendType::of_width(&context, 64).unwrap();
    assert_eq!(Func {}.to_llvm("add", i64_type, vec![i64_type, i64_type], &LlvmMathAdd {}, &mut backend), Ok(()));

    let function = backend.module().get_function("add").unwrap();
    assert_eq!(function.count_params(), 2);
    assert_eq!(function.count_basic_blocks(), 1);
    let text = function.print_to_string().to_string();
    assert!(text.contains("define i64 @add(i64 %0, i64 %1)"), "{}", text);
    assert!(text.contains("%res = add i64 %0, %1"), "{}", text);
    assert!(text.contains("ret i64 %res"), "{}", text);
    assert!(backend.module().verify().is_ok());
    assert!(backend.has_function("add"));
    assert!(!backend.has_function("sub"));

    let functions = backend.functions();
    assert_eq!(functions.len(), 1);
    assert_eq!(functions[0].name, "add");
    assert_eq!(functions[0].ret_bits, 64);
    assert_eq!(functions[0].param_bits, vec![64, 64]);
    assert_eq!(functions[0].body.insts.len(), 1);
    assert!(matches!(&functions[0].body.insts[0], Inst::Add { lhs: Operand::Param(0), rhs: Operand::Param(1) }));
    assert_eq!(functions[0].body.result, Operand::Value(0));
    assert!(functions[0].subprogram.is_none());
}

#[test]
fn to_llvm_adds_one_function_at_a_time() {
    let context = Context::create();
    let mut backend = backend(&context);
    let felt = BackendType::of_width(&context, 253).unwrap();
    let i8_type = BackendType::of_width(&context, 8).unwrap();
    assert_eq!(Func {}.to_llvm("felt_add", felt, vec![felt, felt], &LlvmMathAdd {}, &mut backend), Ok(()));
    assert_eq!(backend.module().get_functions().count(), 1);
    assert_eq!(Func {}.to_llvm("u8_add", i8_type, vec![i8_type, i8_type], &LlvmMathAdd {}, &mut backend), Ok(()));
    assert_eq!(backend.module().get_functions().count(), 2);
    assert_eq!(backend.functions().len(), 2);
    assert_eq!(backend.functions()[1].name, "u8_add");
    assert_eq!(backend.functions()[1].param_bits, vec![8, 8]);
    assert!(backend.module().verify().is_ok());
}

#[test]
fn to_llvm_with_one_parameter_type_for_an_addition_is_refused() {
    let context = Context::create();
    let mut backend = backend(&context);
    let i64_type = BackendType::of_width(&context, 64).unwrap();
    let result = Func {}.to_llvm("add", i64_type, vec![i64_type], &LlvmMathAdd {}, &mut backend);
    assert_eq!(result, Err(LowerError::ArityMismatch { expected: 2, found: 1 }));
    assert!(!result.unwrap_err().is_fatal());
    assert!(backend.module().get_function("add").is_none());
    assert_eq!(backend.module().get_functions().count(), 0);
    assert!(backend.functions().is_empty());
}

#[test]
fn to_llvm_with_three_or_no_parameter_types_for_an_addition_is_refused() {
    let context = Context::create();
    let mut backend = backend(&context);
    let i64_type = BackendType::of_width(&context, 64).unwrap();
    let result = Func {}.to_llvm("add", i64_type, vec![i64_type, i64_type, i64_type], &LlvmMathAdd {}, &mut backend);
    assert_eq!(result, Err(LowerError::ArityMismatch { expected: 2, found: 3 }));
    let result = Func {}.to_llvm("add", i64_type, vec![], &LlvmMathAdd {}, &mut backend);
    assert_eq!(result, Err(LowerError::ArityMismatch { expected: 2, found: 0 }));
    assert_eq!(backend.module().get_functions().count(), 0);
}

#[test]
fn to_llvm_takes_any_processor() {
    let context = Context::create();
    let module = context.create_module("test");
    let mut backend = Backend::new(&context, module, context.create_builder());
    let felt = BackendType::of_width(&context, 253).unwrap();
    let wide = BackendType::of_width(&context, 512).unwrap();
    let sub = FeltSub {};
    assert_eq!(sub.parameter_count(), 2);
    let result = Func {}.to_llvm("felt_sub", felt, vec![felt, felt], &sub, &mut backend);
    assert_eq!(result, Err(LowerError::MissingHelper));
    assert_eq!(backend.module().get_functions().count(), 0);
    assert_eq!(backend.first_missing_callee(&sub.create_body(2)), Some(2));
    assert_eq!(backend.first_missing_callee(&LlvmMathAdd {}.create_body(2)), None);

    backend.module().add_function("modulo", felt.handle.fn_type(&[wide.handle.into()], false), None);
    assert_eq!(backend.first_missing_callee(&sub.create_body(2)), None);
    let result = Func {}.to_llvm("felt_sub", felt, vec![felt, felt], &sub, &mut backend);
    assert_eq!(result, Ok(()));
    let text = backend.module().get_function("felt_sub").unwrap().print_to_string().to_string();
    assert!(text.contains("call i253 @modulo(i512 %arg)"), "{}", text);
    assert!(backend.module().verify().is_ok());
    assert_eq!(backend.functions().len(), 1);
    let result = Func {}.to_llvm("felt_sub", felt, vec![felt], &sub, &mut backend);
    assert_eq!(result, Err(LowerError::ArityMismatch { expected: 2, found: 1 }));
}

#[test]
fn a_second_function_of_a_name_leaves_the_first() {
    let context = Context::create();
    let mut backend = backend(&context);
    let i64_type = BackendType::of_width(&context, 64).unwrap();
    let i8_type = BackendType::of_width(&context, 8).unwrap();
    assert_eq!(Func {}.to_llvm("add", i64_type, vec![i64_type, i64_type], &LlvmMathAdd {}, &mut backend), Ok(()));
    assert_eq!(Func {}.to_llvm("add", i8_type, vec![i8_type, i8_type], &LlvmMathAdd {}, &mut backend), Ok(()));
    assert!(backend.has_function("add"));
    let first = backend.module().get_function("add").unwrap();
    assert!(first.print_to_string().to_string().contains("define i64 @add(i64 %0, i64 %1)"));
    assert_eq!(backend.module().get_functions().count(), 2);
    assert_eq!(backend.functions().len(), 2);
}

#[test]
fn a_function_under_a_name_that_a_global_has_is_filed_elsewhere() {
    let context = Context::create();
    let module = context.create_module("test");
    module.add_global(context.i64_type(), None, "taken");
    let mut backend = Backend::new(&context, module, context.create_builder());
    let i64_type = BackendType::of_width(&context, 64).unwrap();
    assert!(!backend.has_function("taken"));
    assert_eq!(Func {}.to_llvm("taken", i64_type, vec![i64_type, i64_type], &LlvmMathAdd {}, &mut backend), Ok(()));
    assert!(!backend.has_function("taken"));
    assert!(backend.module().get_global("taken").is_some());
    assert_eq!(backend.module().get_functions().count(), 1);
    let filed = backend.module().get_first_function().unwrap().get_name().to_str().unwrap().to_string();
    assert_ne!(filed, "taken");
    assert_eq!(backend.functions().len(), 1);
    assert_eq!(backend.functions()[0].name, "taken");
}

#[test]
fn a_function_under_a_free_name_is_the_only_one_that_comes() {
    let context = Context::create();
    let module = context.create_module("test");
    module.add_function("there", context.void_type().fn_type(&[], false), None);
    module.add_global(context.i64_type(), None, "global");
    let mut backend = Backend::new(&context, module, context.create_builder());
    let i64_type = BackendType::of_width(&context, 64).unwrap();
    assert_eq!(Func {}.to_llvm("new", i64_type, vec![i64_type, i64_type], &LlvmMathAdd {}, &mut backend), Ok(()));
    let mut names: Vec<String> =
        backend.module().get_functions().map(|f| f.get_name().to_str().unwrap().to_string()).collect();
    names.sort();
    assert_eq!(names, vec!["new".to_string(), "there".to_string()]);
    assert!(backend.module().get_global("global").is_some());
    assert!(backend.has_function("new"));
    assert!(backend.has_function("there"));
    assert!(!backend.has_function("global"));
}

#[test]
fn math_add_adds_the_first_and_the_last_parameter() {
    let add = LlvmMathAdd {};
    assert_eq!(add.parameter_count(), 2);
    let body = add.create_body(2);
    assert_eq!(body.insts.len(), 1);
    assert!(matches!(&body.insts[0], Inst::Add { lhs: Operand::Param(0), rhs: Operand::Param(1) }));
    assert_eq!(body.result, Operand::Value(0));
    let body = Body::sum_of_ends(5);
    assert!(matches!(&body.insts[0], Inst::Add { lhs: Operand::Param(0), rhs: Operand::Param(4) }));
    let body = Body::sum_of_ends(1);
    assert!(matches!(&body.insts[0], Inst::Add { lhs: Operand::Param(0), rhs: Operand::Param(0) }));
}

#[test]
fn core_types_hold_their_backend_type() {
    let context = Context::create();
    let felt = BackendType::of_width(&context, 253).unwrap();
    let i128_type = BackendType::of_width(&context, 128).unwrap();
    match LlvmCoreTypes::Felt(felt, Box::new(LlvmMathAdd {})) {
        LlvmCoreTypes::Felt(ty, processor) => {
            assert_eq!(ty.bits, 253);
            assert_eq!(processor.parameter_count(), 2);
        }
        LlvmCoreTypes::Int128(_) => panic!("not the variant that was built"),
    }
    assert!(matches!(LlvmCoreTypes::Int128(i128_type), LlvmCoreTypes::Int128(ty) if ty.bits == 128));
}

#[test]
fn bodies_by_name() {
    let body = Body::constant(253, "42");
    assert!(matches!(&body.insts[0], Inst::Const { bits: 253, literal } if literal == "42"));
    assert_eq!(body.result, Operand::Value(0));
    let body = Body::difference_reduced(512, "modulo");
    assert_eq!(body.insts.len(), 3);
    assert!(matches!(&body.insts[2], Inst::Call { callee, arg: Operand::Value(1) } if callee == "modulo"));
    assert_eq!(body.result, Operand::Value(2));
}

#[test]
fn a_body_is_well_formed_when_it_can_be_emitted() {
    assert!(Body::constant(253, "42").is_well_formed(0));
    assert!(!Body::constant(253, "4x").is_well_formed(0));
    assert!(!Body::constant(0, "42").is_well_formed(0));
    assert!(!Body::constant(8388609, "42").is_well_formed(0));
    assert!(Body::sum_of_ends(2).is_well_formed(2));
    assert!(!Body::sum_of_ends(2).is_well_formed(1));
    assert!(Body::difference_reduced(512, "modulo").is_well_formed(2));
    assert!(Body::difference_reduced(512, "modulo").is_well_formed(3));
    assert!(!Body::difference_reduced(512, "modulo").is_well_formed(1));
    assert!(!Body::difference_reduced(0, "modulo").is_well_formed(2));
    assert!(!Body::difference_reduced(512, "").is_well_formed(2));
    assert!(!Body::difference_reduced(512, "mod\0ulo").is_well_formed(2));

    let forward = Body {
        insts: vec![Inst::Add { lhs: Operand::Value(1), rhs: Operand::Param(0) }, Inst::Sub { lhs: Operand::Param(0), rhs: Operand::Param(0) }],
        result: Operand::Value(1),
    };
    assert!(!forward.is_well_formed(1));
    let own_value = Body { insts: vec![Inst::Add { lhs: Operand::Value(0), rhs: Operand::Param(0) }], result: Operand::Value(0) };
    assert!(!own_value.is_well_formed(1));
    let no_result = Body { insts: vec![], result: Operand::Value(0) };
    assert!(!no_result.is_well_formed(1));
    let parameter = Body { insts: vec![], result: Operand::Param(0) };
    assert!(parameter.is_well_formed(1));
    assert!(!parameter.is_well_formed(0));
    assert!(Inst::SignExtend { value: Operand::Value(2), bits: 512 }.is_well_formed(0, 3));
    assert!(!Inst::SignExtend { value: Operand::Value(3), bits: 512 }.is_well_formed(0, 3));
    assert!(Operand::Param(4).is_defined(5, 0));
    assert!(!Operand::Param(5).is_defined(5, 9));
}

#[test]
fn names_that_llvm_files_functions_under() {
    for name in ["modulo", "felt_sub", "a", "NonZero<felt>", "with space", "é"] {
        assert!(name_is_symbol(name), "{:?}", name);
    }
    for name in ["", "\0", "mod\0ulo", "modulo\0"] {
        assert!(!name_is_symbol(name), "{:?}", name);
    }
}

#[test]
fn add_function_emits_a_body_built_by_hand() {
    let context = Context::create();
    let mut backend = backend(&context);
    let i8_type = BackendType::of_width(&context, 8).unwrap();
    let i16_type = BackendType::of_width(&context, 16).unwrap();
    let body = Body {
        insts: vec![
            Inst::Const { bits: 8, literal: "-3".to_string() },
            Inst::Add { lhs: Operand::Param(0), rhs: Operand::Value(0) },
            Inst::Sub { lhs: Operand::Value(1), rhs: Operand::Param(1) },
            Inst::SignExtend { value: Operand::Value(2), bits: 16 },
        ],
        result: Operand::Value(3),
    };
    assert!(body.is_well_formed(2));
    assert!(backend.add_function("mixed", &i16_type, &vec![i8_type, i8_type], body, None).is_ok());
    let text = backend.module().get_function("mixed").unwrap().print_to_string().to_string();
    assert!(text.contains("define i16 @mixed(i8 %0, i8 %1)"), "{}", text);
    assert!(text.contains("add i8 %0, -3"), "{}", text);
    assert!(text.contains("sub i8 %res, %1"), "{}", text);
    assert!(text.contains("sext i8 %res1 to i16"), "{}", text);
    assert!(text.contains("ret i16 %arg"), "{}", text);
    assert!(backend.module().verify().is_ok());
    assert_eq!(backend.functions()[0].param_bits, vec![8, 8]);
    assert_eq!(backend.functions()[0].ret_bits, 16);
    assert_eq!(backend.functions()[0].body.insts.len(), 4);
}

#[test]
fn decimal_literals() {
    for literal in ["0", "42", "+42", "-42", "007", "3618502788666131213697322783095070105623107215331596699973092056135872020481"] {
        assert!(literal_is_decimal(literal), "{:?}", literal);
    }
    for literal in ["", "+", "-", "+-1", "1-", "0x10", "1e3", " 1", "1 ", "1_000", "٤٢", "a"] {
        assert!(!literal_is_decimal(literal), "{:?}", literal);
    }
}

#[test]
fn errors_say_what_they_are() {
    let all = [
        LowerError::MissingDebugName,
        LowerError::UndeclaredType,
        LowerError::UnsupportedUserType,
        LowerError::NotATypeArgument,
        LowerError::MissingLiteral,
        LowerError::LiteralNotDecimal,
        LowerError::InvalidWidth,
        LowerError::MissingHelper,
        LowerError::HelperWithoutValue,
    ];
    for error in all {
        assert!(error.is_fatal(), "{:?}", error);
        assert!(!error.message().is_empty());
    }
    let arity = LowerError::ArityMismatch { expected: 2, found: 1 };
    assert!(!arity.is_fatal());
    assert_eq!(arity.message(), "Wrong number of parameter types for the operation");
    assert_eq!(LowerError::MissingHelper.message(), "A helper function should have been defined before");
    assert_eq!(LowerError::NotATypeArgument.message(), "NonZero only takes type or user type");
}
