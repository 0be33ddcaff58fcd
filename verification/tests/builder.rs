use wasmi_store::builder::{FuncType, ModuleBuilder, ValType};

#[test]
fn push_func_type_hands_out_sequential_indices() {
    let mut builder = ModuleBuilder::default();
    let first = builder.push_func_type(FuncType::new(vec![ValType::I32], vec![]));
    let second = builder.push_func_type(FuncType::new(vec![ValType::I64], vec![ValType::I32]));
    let third = builder.push_func_type(FuncType::new(vec![], vec![ValType::F64]));
    assert_eq!(first, 0);
    assert_eq!(second, 1);
    assert_eq!(third, 2);
}

#[test]
fn finish_preserves_pushed_signatures_in_order() {
    let mut builder = ModuleBuilder::default();
    builder.push_func_type(FuncType::new(vec![ValType::I32, ValType::I32], vec![ValType::I64]));
    builder.push_func_type(FuncType::new(vec![], vec![]));
    let module = builder.finish();
    let func_types = module.func_types();
    assert_eq!(func_types.len(), 2);
    assert_eq!(*func_types[0].params(), vec![ValType::I32, ValType::I32]);
    assert_eq!(*func_types[0].results(), vec![ValType::I64]);
    assert!(func_types[1].params().is_empty());
    assert!(func_types[1].results().is_empty());
}

#[test]
fn func_type_accessors_return_what_was_declared() {
    let func_type = FuncType::new(vec![ValType::F32], vec![ValType::I32, ValType::I64]);
    assert_eq!(*func_type.params(), vec![ValType::F32]);
    assert_eq!(*func_type.results(), vec![ValType::I32, ValType::I64]);
}
