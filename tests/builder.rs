use rspirv::{Builder, Error, Op, Operand, TypeDesc};

#[test]
fn interning_the_same_type_twice_gives_one_declaration() {
    let mut b = Builder::new();
    let a = b.type_int(32, false);
    let c = b.type_int(32, false);
    assert_eq!(a, c);
    let m = b.module();
    assert_eq!(m.types_global_values.len(), 1);
    let decl = &m.types_global_values[0];
    assert_eq!(decl.class, Op::TypeInt);
    assert_eq!(decl.result_id, Some(a));
    assert_eq!(decl.operands, vec![Operand::LiteralInt32(32), Operand::LiteralInt32(0)]);
}

#[test]
fn interning_repeatedly_keeps_one_identifier() {
    let mut b = Builder::new();
    let f = b.type_float(32);
    for _ in 0..5 {
        assert_eq!(b.type_float(32), f);
        assert_eq!(b.intern(TypeDesc::Float { width: 32 }), f);
    }
    assert_eq!(b.module().types_global_values.len(), 1);
}

#[test]
fn interning_distinct_types_gives_distinct_identifiers() {
    let mut b = Builder::new();
    let void = b.type_void();
    let boolean = b.type_bool();
    let u32_ty = b.type_int(32, false);
    let i32_ty = b.type_int(32, true);
    let f32_ty = b.type_float(32);
    let vec4 = b.type_vector(f32_ty, 4);
    let vec3 = b.type_vector(f32_ty, 3);
    let ptr = b.type_pointer(7, vec4);
    let ids = vec![void, boolean, u32_ty, i32_ty, f32_ty, vec4, vec3, ptr];
    for i in 0..ids.len() {
        for j in i + 1..ids.len() {
            assert_ne!(ids[i], ids[j]);
        }
    }
    assert_eq!(ids, vec![1, 2, 3, 4, 5, 6, 7, 8]);
    let m = b.module();
    assert_eq!(m.types_global_values.len(), ids.len());
    assert_eq!(m.types_global_values[3].operands, vec![Operand::LiteralInt32(32), Operand::LiteralInt32(1)]);
    assert_eq!(m.types_global_values[7].class, Op::TypePointer);
    assert_eq!(m.types_global_values[7].operands, vec![Operand::StorageClass(7), Operand::IdRef(vec4)]);
}

#[test]
fn interning_compares_member_lists_by_value() {
    let mut b = Builder::new();
    let u = b.type_int(32, false);
    let f = b.type_float(32);
    let s1 = b.type_struct(vec![u, f]);
    let s2 = b.type_struct(vec![u, f]);
    let s3 = b.type_struct(vec![f, u]);
    let s4 = b.type_struct(vec![]);
    let fn1 = b.type_function(u, vec![f]);
    let fn2 = b.type_function(u, vec![f]);
    let fn3 = b.type_function(u, vec![]);
    assert_eq!(s1, s2);
    assert_ne!(s1, s3);
    assert_ne!(s1, s4);
    assert_eq!(fn1, fn2);
    assert_ne!(fn1, fn3);
    let m = b.module();
    assert_eq!(m.types_global_values.len(), 7);
    assert_eq!(m.types_global_values[2].operands, vec![Operand::IdRef(u), Operand::IdRef(f)]);
    assert_eq!(m.types_global_values[5].class, Op::TypeFunction);
    assert_eq!(m.types_global_values[5].operands, vec![Operand::IdRef(u), Operand::IdRef(f)]);
}

#[test]
fn constants_are_interned_with_their_type() {
    let mut b = Builder::new();
    let u = b.type_int(32, false);
    let boolean = b.type_bool();
    let seven = b.constant_u32(u, 7);
    let seven_again = b.constant_u32(u, 7);
    let eight = b.constant_u32(u, 8);
    let big = b.constant_u64(u, 7);
    let t = b.constant_true(boolean);
    let f = b.constant_false(boolean);
    let null = b.constant_null(u);
    let v2 = b.type_vector(u, 2);
    let pair = b.constant_composite(v2, vec![seven, eight]);
    assert_eq!(seven, seven_again);
    assert_ne!(seven, eight);
    assert_ne!(seven, big);
    assert_ne!(t, f);
    let m = b.module();
    assert_eq!(m.types_global_values.len(), 10);
    let decl = &m.types_global_values[2];
    assert_eq!(decl.class, Op::Constant);
    assert_eq!(decl.result_type, Some(u));
    assert_eq!(decl.result_id, Some(seven));
    assert_eq!(decl.operands, vec![Operand::LiteralInt32(7)]);
    assert_eq!(m.types_global_values[4].operands, vec![Operand::LiteralInt64(7)]);
    assert_eq!(m.types_global_values[6].class, Op::ConstantFalse);
    assert_eq!(m.types_global_values[7].result_type, Some(u));
    assert_eq!(m.types_global_values[9].result_id, Some(pair));
    assert_eq!(m.types_global_values[9].operands, vec![Operand::IdRef(seven), Operand::IdRef(eight)]);
}

#[test]
fn array_and_matrix_types() {
    let mut b = Builder::new();
    let f = b.type_float(32);
    let v4 = b.type_vector(f, 4);
    let mat = b.type_matrix(v4, 4);
    let u = b.type_int(32, false);
    let four = b.constant_u32(u, 4);
    let arr = b.type_array(f, four);
    let rt = b.type_runtime_array(f);
    assert_eq!((mat, arr, rt), (3, 6, 7));
    let m = b.module();
    assert_eq!(m.types_global_values[2].operands, vec![Operand::IdRef(v4), Operand::LiteralInt32(4)]);
    assert_eq!(m.types_global_values[5].operands, vec![Operand::IdRef(f), Operand::IdRef(four)]);
    assert_eq!(m.types_global_values[6].operands, vec![Operand::IdRef(f)]);
}

#[test]
fn identifiers_increase_across_operations() {
    let mut b = Builder::new();
    let mut seen = Vec::new();
    seen.push(b.ext_inst_import(String::from("GLSL.std.450")));
    seen.push(b.type_void());
    let void = seen[1];
    seen.push(b.type_function(void, vec![]));
    seen.push(b.decoration_group());
    seen.push(b.begin_function(void, 0, seen[2]).unwrap());
    seen.push(b.begin_basic_block().unwrap());
    b.ret().unwrap();
    seen.push(b.begin_basic_block().unwrap());
    b.unreachable().unwrap();
    b.end_function().unwrap();
    seen.push(b.decorate(void, 1, vec![]));
    seen.push(b.type_bool());
    for w in seen.windows(2) {
        assert!(w[0] < w[1]);
    }
    assert_eq!(seen, vec![1, 2, 3, 4, 5, 6, 7, 8, 9]);
}

#[test]
fn begin_function_twice_fails_with_nested_function() {
    let mut b = Builder::new();
    let void = b.type_void();
    let fn_ty = b.type_function(void, vec![]);
    assert_eq!(b.begin_function(void, 0, fn_ty), Ok(3));
    assert_eq!(b.begin_function(void, 0, fn_ty), Err(Error::NestedFunction));
    assert_eq!(b.begin_basic_block(), Ok(4));
    assert_eq!(b.begin_function(void, 0, fn_ty), Err(Error::NestedFunction));
    assert_eq!(b.module().functions.len(), 0);
}

#[test]
fn end_function_without_function_fails() {
    let mut b = Builder::new();
    assert_eq!(b.end_function(), Err(Error::MismatchedFunctionEnd));
    assert_eq!(b.module().functions.len(), 0);
}

#[test]
fn end_function_with_open_block_fails() {
    let mut b = Builder::new();
    b.begin_function(1, 0, 2).unwrap();
    b.begin_basic_block().unwrap();
    assert_eq!(b.end_function(), Err(Error::MismatchedFunctionEnd));
    b.ret().unwrap();
    assert_eq!(b.end_function(), Ok(()));
    assert_eq!(b.module().functions.len(), 1);
}

#[test]
fn begin_basic_block_without_function_is_detached() {
    let mut b = Builder::new();
    assert_eq!(b.begin_basic_block(), Err(Error::DetachedBasicBlock));
    assert_eq!(b.type_void(), 1);
}

#[test]
fn begin_basic_block_twice_is_nested() {
    let mut b = Builder::new();
    b.begin_function(1, 0, 2).unwrap();
    assert_eq!(b.begin_basic_block(), Ok(2));
    assert_eq!(b.begin_basic_block(), Err(Error::NestedBasicBlock));
    assert_eq!(b.begin_basic_block(), Err(Error::NestedBasicBlock));
    b.kill().unwrap();
    assert_eq!(b.begin_basic_block(), Ok(3));
}

#[test]
fn terminators_without_block_fail() {
    let mut b = Builder::new();
    assert_eq!(b.ret(), Err(Error::MismatchedTerminator));
    assert_eq!(b.branch(1), Err(Error::MismatchedTerminator));
    b.begin_function(1, 0, 2).unwrap();
    assert_eq!(b.branch_conditional(1, 2, 3, &[]), Err(Error::MismatchedTerminator));
    assert_eq!(b.switch(1, 2, &[]), Err(Error::MismatchedTerminator));
    assert_eq!(b.kill(), Err(Error::MismatchedTerminator));
    assert_eq!(b.ret_value(1), Err(Error::MismatchedTerminator));
    assert_eq!(b.unreachable(), Err(Error::MismatchedTerminator));
    b.end_function().unwrap();
    let m = b.module();
    assert_eq!(m.functions.len(), 1);
    assert_eq!(m.functions[0].basic_blocks.len(), 0);
}

#[test]
fn function_with_one_returning_block() {
    let mut b = Builder::new();
    let void = b.type_void();
    assert_eq!(void, 1);
    let fn_ty = 9;
    assert_eq!(b.begin_function(void, 0, fn_ty), Ok(2));
    assert_eq!(b.begin_basic_block(), Ok(3));
    assert_eq!(b.ret(), Ok(()));
    assert_eq!(b.end_function(), Ok(()));
    let m = b.module();
    assert_eq!(m.functions.len(), 1);
    let f = &m.functions[0];
    let def = f.def.as_ref().unwrap();
    assert_eq!(def.class, Op::Function);
    assert_eq!(def.result_type, Some(void));
    assert_eq!(def.result_id, Some(2));
    assert_eq!(def.operands, vec![Operand::FunctionControl(0), Operand::IdRef(fn_ty)]);
    assert_eq!(f.end.as_ref().unwrap().class, Op::FunctionEnd);
    assert_eq!(f.basic_blocks.len(), 1);
    let block = &f.basic_blocks[0];
    assert_eq!(block.label.as_ref().unwrap().class, Op::Label);
    assert_eq!(block.label.as_ref().unwrap().result_id, Some(3));
    assert_eq!(block.instructions.len(), 1);
    assert_eq!(block.instructions[0].class, Op::Return);
    assert_eq!(block.instructions[0].result_id, None);
}

#[test]
fn terminator_operands() {
    let mut b = Builder::new();
    b.begin_function(1, 0, 2).unwrap();
    let entry = b.begin_basic_block().unwrap();
    b.branch_conditional(10, 11, 12, &[3, 5]).unwrap();
    b.begin_basic_block().unwrap();
    b.switch(20, 21, &[(0, 22), (1, 23)]).unwrap();
    b.begin_basic_block().unwrap();
    b.branch(entry).unwrap();
    b.begin_basic_block().unwrap();
    b.ret_value(30).unwrap();
    b.end_function().unwrap();
    let m = b.module();
    let blocks = &m.functions[0].basic_blocks;
    assert_eq!(blocks.len(), 4);
    let t0 = &blocks[0].instructions[0];
    assert_eq!(t0.class, Op::BranchConditional);
    assert_eq!(
        t0.operands,
        vec![
            Operand::IdRef(10),
            Operand::IdRef(11),
            Operand::IdRef(12),
            Operand::LiteralInt32(3),
            Operand::LiteralInt32(5),
        ]
    );
    let t1 = &blocks[1].instructions[0];
    assert_eq!(t1.class, Op::Switch);
    assert_eq!(
        t1.operands,
        vec![
            Operand::IdRef(20),
            Operand::IdRef(21),
            Operand::LiteralInt32(0),
            Operand::IdRef(22),
            Operand::LiteralInt32(1),
            Operand::IdRef(23),
        ]
    );
    assert_eq!(blocks[2].instructions[0].operands, vec![Operand::IdRef(entry)]);
    assert_eq!(blocks[3].instructions[0].class, Op::ReturnValue);
    assert_eq!(blocks[3].instructions[0].operands, vec![Operand::IdRef(30)]);
}

#[test]
fn decorate_then_group_decorate() {
    let mut b = Builder::new();
    let target = 40;
    let group = 41;
    let d = b.decorate(target, 2, vec![]);
    let g = b.group_decorate(group, vec![42, 43]);
    assert_eq!((d, g), (1, 2));
    let m = b.module();
    assert_eq!(m.annotations.len(), 2);
    assert_eq!(m.annotations[0].class, Op::Decorate);
    assert_eq!(m.annotations[0].result_id, Some(d));
    assert_eq!(m.annotations[0].operands, vec![Operand::IdRef(target), Operand::Decoration(2)]);
    assert_eq!(m.annotations[1].class, Op::GroupDecorate);
    assert_eq!(m.annotations[1].result_id, Some(g));
    assert_eq!(
        m.annotations[1].operands,
        vec![Operand::IdRef(group), Operand::IdRef(42), Operand::IdRef(43)]
    );
}

#[test]
fn member_decorations() {
    let mut b = Builder::new();
    let d = b.member_decorate(5, 1, 35, vec![Operand::LiteralInt32(16)]);
    let g = b.decoration_group();
    let gm = b.group_member_decorate(g, vec![(5, 0), (6, 2)]);
    let m = b.module();
    assert_eq!(m.annotations.len(), 3);
    assert_eq!(
        m.annotations[0].operands,
        vec![Operand::IdRef(5), Operand::IdRef(1), Operand::Decoration(35), Operand::LiteralInt32(16)]
    );
    assert_eq!(m.annotations[0].result_id, Some(d));
    assert_eq!(m.annotations[1].class, Op::DecorationGroup);
    assert!(m.annotations[1].operands.is_empty());
    assert_eq!(m.annotations[2].result_id, Some(gm));
    assert_eq!(
        m.annotations[2].operands,
        vec![
            Operand::IdRef(g),
            Operand::IdRef(5),
            Operand::LiteralInt32(0),
            Operand::IdRef(6),
            Operand::LiteralInt32(2),
        ]
    );
}

#[test]
fn module_level_sections() {
    let mut b = Builder::new();
    b.capability(1);
    b.extension(String::from("SPV_KHR_storage_buffer_storage_class"));
    let glsl = b.ext_inst_import(String::from("GLSL.std.450"));
    b.memory_model(0, 1);
    b.memory_model(0, 2);
    b.entry_point(4, 7, String::from("main"), &[8, 9]);
    b.execution_mode(7, 17, &[1, 1, 1]);
    assert_eq!(glsl, 1);
    let m = b.module();
    assert_eq!(m.capabilities.len(), 1);
    assert_eq!(m.capabilities[0].operands, vec![Operand::Capability(1)]);
    assert_eq!(
        m.extensions[0].operands,
        vec![Operand::LiteralString(String::from("SPV_KHR_storage_buffer_storage_class"))]
    );
    assert_eq!(m.ext_inst_imports[0].result_id, Some(glsl));
    let mm = m.memory_model.as_ref().unwrap();
    assert_eq!(mm.operands, vec![Operand::AddressingModel(0), Operand::MemoryModel(2)]);
    assert_eq!(m.entry_points[0].class, Op::EntryPoint);
    assert_eq!(
        m.entry_points[0].operands,
        vec![
            Operand::ExecutionModel(4),
            Operand::IdRef(7),
            Operand::LiteralString(String::from("main")),
            Operand::IdRef(8),
            Operand::IdRef(9),
        ]
    );
    assert_eq!(
        m.execution_modes[0].operands,
        vec![
            Operand::IdRef(7),
            Operand::ExecutionMode(17),
            Operand::LiteralInt32(1),
            Operand::LiteralInt32(1),
            Operand::LiteralInt32(1),
        ]
    );
    assert!(m.annotations.is_empty());
    assert!(m.functions.is_empty());
}

#[test]
fn new_builder_is_empty() {
    let b = Builder::new();
    let m = b.module();
    assert!(m.capabilities.is_empty());
    assert!(m.memory_model.is_none());
    assert!(m.types_global_values.is_empty());
    assert!(m.functions.is_empty());
}

#[test]
fn descriptions_compare_structurally() {
    let a = TypeDesc::Struct { members: vec![1, 2] };
    let b = TypeDesc::Struct { members: vec![1, 2] };
    let c = TypeDesc::Struct { members: vec![1, 2, 3] };
    let d = TypeDesc::ConstantComposite { ty: 1, constituents: vec![1, 2] };
    assert!(a.same(&b));
    assert!(!a.same(&c));
    assert!(!a.same(&d));
    assert!(TypeDesc::Int { width: 8, signed: true }.same(&TypeDesc::Int { width: 8, signed: true }));
    assert!(!TypeDesc::Int { width: 8, signed: true }.same(&TypeDesc::Int { width: 8, signed: false }));
}
