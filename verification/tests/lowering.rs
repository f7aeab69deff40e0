use uplc_gen::ast::{
    AssignmentKind, BinOp, CallArgPattern, DataType, DataTypeKey, FieldMap, Pattern,
    PatternConstructor, RecordConstructor, RecordConstructorArg, Type, TypedClause, TypedExpr,
    ValueConstructor, ValueConstructorVariant,
};
use uplc_gen::gen::{CodeGenError, CodeGenerator};
use uplc_gen::ir::IR;
use uplc_gen::names::{parse_i128, prefixed_name, u64_to_decimal};
use uplc_gen::ast::{ArgName, TypedArg};
use uplc_gen::builder::list_access_to_uplc;
use uplc_gen::scope::{get_common_ancestor, IdGenerator};
use uplc_gen::term::{Constant, DefaultFunction, Term};

fn int_type() -> Type {
    Type::App { module: String::new(), name: String::from("Int"), args: Vec::new() }
}

fn bytes_type() -> Type {
    Type::App { module: String::new(), name: String::from("ByteArray"), args: Vec::new() }
}

fn local_var(name: &str, tipo: Type) -> TypedExpr {
    TypedExpr::Var {
        constructor: ValueConstructor::public(tipo, ValueConstructorVariant::LocalVariable),
        name: String::from(name),
    }
}

fn fresh_gen() -> CodeGenerator {
    CodeGenerator::new(Vec::new(), Vec::new(), Vec::new())
}

#[test]
fn lca_is_idempotent_and_prefix() {
    let a = vec![1u64, 2, 3];
    assert_eq!(get_common_ancestor(&a, &a), vec![1, 2, 3]);
    let b = vec![1u64, 2, 3, 9];
    assert_eq!(get_common_ancestor(&a, &b), vec![1, 2, 3]);
    assert_eq!(get_common_ancestor(&b, &a), vec![1, 2, 3]);
}

#[test]
fn lca_of_diverging_paths_is_common_prefix() {
    let a = vec![1u64, 2, 5, 7];
    let b = vec![1u64, 2, 6];
    assert_eq!(get_common_ancestor(&a, &b), vec![1, 2]);
    let c = vec![9u64];
    assert_eq!(get_common_ancestor(&a, &c), Vec::<u64>::new());
}

#[test]
fn lca_is_associative_on_samples() {
    let a = vec![1u64, 2, 5];
    let b = vec![1u64, 2, 6];
    let c = vec![1u64, 3];
    let left = get_common_ancestor(&get_common_ancestor(&a, &b), &c);
    let right = get_common_ancestor(&a, &get_common_ancestor(&b, &c));
    assert_eq!(left, right);
    assert_eq!(left, vec![1]);
}

#[test]
fn id_generator_counts_up() {
    let mut gen = IdGenerator::new();
    assert_eq!(gen.next(), 0);
    assert_eq!(gen.next(), 1);
    assert_eq!(gen.next(), 2);
}

#[test]
fn decimal_names() {
    assert_eq!(u64_to_decimal(0), "0");
    assert_eq!(u64_to_decimal(42), "42");
    assert_eq!(prefixed_name("__subject_name_", 7), "__subject_name_7");
    assert_eq!(parse_i128(&String::from("42")), Some(42));
    assert_eq!(parse_i128(&String::from("-7")), Some(-7));
    assert_eq!(parse_i128(&String::from("")), None);
    assert_eq!(parse_i128(&String::from("4x")), None);
}

#[test]
fn int_literal_lowers_to_one_node() {
    let mut gen = fresh_gen();
    let mut ir = Vec::new();
    let r = gen.build_ir(&TypedExpr::Int { value: String::from("42") }, &mut ir, vec![0]);
    assert!(r.is_ok());
    assert_eq!(ir.len(), 1);
    match &ir[0] {
        IR::Int { scope, value } => {
            assert_eq!(value, "42");
            assert_eq!(scope, &vec![0]);
        }
        _ => panic!("expected an Int node"),
    }
}

#[test]
fn addition_lowers_in_prefix_order() {
    let mut gen = fresh_gen();
    let mut ir = Vec::new();
    let e = TypedExpr::BinOp {
        name: BinOp::AddInt,
        left: Box::new(TypedExpr::Int { value: String::from("1") }),
        right: Box::new(TypedExpr::Int { value: String::from("2") }),
        tipo: int_type(),
    };
    assert!(gen.build_ir(&e, &mut ir, vec![0]).is_ok());
    assert_eq!(ir.len(), 3);
    assert!(matches!(&ir[0], IR::BinOp { name: BinOp::AddInt, count: 2, .. }));
    match (&ir[1], &ir[2]) {
        (IR::Int { value: l, scope: ls }, IR::Int { value: r, scope: rs }) => {
            assert_eq!(l, "1");
            assert_eq!(r, "2");
            // each operand's scope extends the binop's scope by one fresh id
            assert_eq!(ls.len(), 2);
            assert_eq!(rs.len(), 2);
            assert_eq!(ls[0], 0);
            assert_eq!(rs[0], 0);
            assert_ne!(ls[1], rs[1]);
        }
        _ => panic!("expected two Int operands"),
    }
}

#[test]
fn list_destructuring_assignment() {
    let mut gen = fresh_gen();
    let mut ir = Vec::new();
    let e = TypedExpr::Assignment {
        value: Box::new(local_var("xs", int_type())),
        pattern: Pattern::List {
            elements: vec![
                Pattern::Var { name: String::from("a") },
                Pattern::Var { name: String::from("b") },
            ],
            tail: Some(Box::new(Pattern::Var { name: String::from("rest") })),
        },
        kind: AssignmentKind::Let,
        tipo: int_type(),
    };
    assert!(gen.build_ir(&e, &mut ir, vec![0]).is_ok());
    assert_eq!(ir.len(), 2);
    match &ir[0] {
        IR::ListAccessor { names, tail, .. } => {
            assert_eq!(names, &vec!["a".to_string(), "b".to_string(), "rest".to_string()]);
            assert!(*tail);
        }
        _ => panic!("expected a ListAccessor head"),
    }
    assert!(matches!(&ir[1], IR::Var { .. }));
}

#[test]
fn integer_when_lowers_header_subject_and_clauses() {
    let mut gen = fresh_gen();
    let mut ir = Vec::new();
    let e = TypedExpr::When {
        subjects: vec![local_var("n", int_type())],
        clauses: vec![
            TypedClause {
                pattern: vec![Pattern::Int { value: String::from("1") }],
                body: TypedExpr::Int { value: String::from("10") },
            },
            TypedClause {
                pattern: vec![Pattern::Int { value: String::from("2") }],
                body: TypedExpr::Int { value: String::from("20") },
            },
        ],
        tipo: int_type(),
    };
    assert!(gen.build_ir(&e, &mut ir, vec![0]).is_ok());
    // When header, subject, then one Clause group and the Finally group.
    assert_eq!(ir.len(), 8);
    match &ir[0] {
        IR::When { count, subject_name, .. } => {
            assert_eq!(*count, 2);
            assert_eq!(subject_name, "__subject_name_0");
        }
        _ => panic!("expected a When header"),
    }
    assert!(matches!(&ir[1], IR::Var { .. }));
    assert!(matches!(&ir[2], IR::Clause { count: 2, .. }));
    assert!(matches!(&ir[3], IR::Int { .. }));
    assert!(matches!(&ir[4], IR::Int { .. }));
    assert!(matches!(&ir[5], IR::Finally { .. }));
    assert!(matches!(&ir[6], IR::Int { .. }));
    assert!(matches!(&ir[7], IR::Int { .. }));
}

#[test]
fn unsupported_construct_is_reported_not_panicked() {
    let mut gen = fresh_gen();
    let mut ir = Vec::new();
    let r = gen.build_ir(&TypedExpr::Todo, &mut ir, vec![0]);
    match r {
        Err(CodeGenError::Unsupported { construct }) => assert_eq!(construct, "todo"),
        _ => panic!("expected an unsupported-construct error"),
    }
}

#[test]
fn record_pattern_fields_sorted_by_declared_index() {
    // data Pair { first: Int, second: ByteArray }; pattern writes the labels
    // in the reverse of declared order, and the emitted indices come back in
    // declared field order.
    let data_types = vec![(
        DataTypeKey { module_name: String::from("m"), defined_type: String::from("Pair") },
        DataType {
            constructors: vec![RecordConstructor {
                name: String::from("Pair"),
                arguments: vec![
                    RecordConstructorArg { label: Some(String::from("first")), tipo: int_type() },
                    RecordConstructorArg {
                        label: Some(String::from("second")),
                        tipo: bytes_type(),
                    },
                ],
            }],
        },
    )];
    let mut gen = CodeGenerator::new(Vec::new(), data_types, Vec::new());
    let pair_type = Type::App {
        module: String::from("m"),
        name: String::from("Pair"),
        args: Vec::new(),
    };
    let pair_type_again = Type::App {
        module: String::from("m"),
        name: String::from("Pair"),
        args: Vec::new(),
    };
    let pattern = Pattern::Constructor {
        is_record: true,
        name: String::from("Pair"),
        arguments: vec![
            CallArgPattern {
                label: Some(String::from("second")),
                value: Pattern::Var { name: String::from("b") },
            },
            CallArgPattern {
                label: Some(String::from("first")),
                value: Pattern::Var { name: String::from("a") },
            },
        ],
        constructor: PatternConstructor::Record {
            name: String::from("Pair"),
            field_map: Some(FieldMap {
                fields: vec![(String::from("first"), 0), (String::from("second"), 1)],
            }),
        },
        tipo: pair_type_again,
    };
    let mut pattern_vec = Vec::new();
    let mut values = vec![IR::Int { scope: vec![0], value: String::from("99") }];
    let mut needs_constr_var = false;
    let r = gen.when_ir(
        &pattern,
        &mut pattern_vec,
        &mut values,
        &pair_type,
        String::from("__constr_name_1"),
        &mut needs_constr_var,
        vec![0],
    );
    assert!(r.is_ok());
    assert!(needs_constr_var);
    // constructor index head, field exposure, constructor re-read, body
    match &pattern_vec[0] {
        IR::Int { value, .. } => assert_eq!(value, "0"),
        _ => panic!("expected the constructor index"),
    }
    match &pattern_vec[1] {
        IR::FieldsExpose { count, indices, .. } => {
            assert_eq!(*count, 4);
            assert_eq!(indices.len(), 2);
            assert_eq!(indices[0].0, 0);
            assert_eq!(indices[0].1, "a");
            assert_eq!(indices[1].0, 1);
            assert_eq!(indices[1].1, "b");
        }
        _ => panic!("expected a FieldsExpose node"),
    }
    match &pattern_vec[2] {
        IR::Var { name, .. } => assert_eq!(name, "__constr_name_1"),
        _ => panic!("expected the constructor variable"),
    }
    match &pattern_vec[3] {
        IR::Int { value, .. } => assert_eq!(value, "99"),
        _ => panic!("expected the clause body"),
    }
}

#[test]
fn scope_accessor_returns_node_scope() {
    let node = IR::Discard { scope: vec![3, 4, 5] };
    assert_eq!(node.scope(), vec![3, 4, 5]);
}

#[test]
fn self_reference_sets_recursive_and_leaves_dependencies() {
    let key = uplc_gen::ast::FunctionAccessKey {
        module_name: String::from("m"),
        function_name: String::from("f"),
    };
    let module_fn = |module: &str, name: &str| IR::Var {
        scope: vec![0],
        constructor: ValueConstructor::public(
            int_type(),
            ValueConstructorVariant::ModuleFn {
                name: String::from(name),
                module: String::from(module),
                builtin: None,
            },
        ),
        name: String::from(name),
    };
    let body = vec![
        module_fn("m", "g"),
        module_fn("m", "f"),
        IR::Int { scope: vec![0], value: String::from("1") },
    ];
    let parts = uplc_gen::hoist::make_func_components(&key, body, vec![String::from("x")]);
    assert!(parts.recursive);
    assert_eq!(parts.dependencies.len(), 1);
    assert_eq!(parts.dependencies[0].function_name, "g");

    let plain = vec![module_fn("m", "g")];
    let parts2 = uplc_gen::hoist::make_func_components(&key, plain, Vec::new());
    assert!(!parts2.recursive);
    assert_eq!(parts2.dependencies.len(), 1);
}

#[test]
fn catch_all_final_clause_succeeds() {
    let mut gen = fresh_gen();
    let mut ir = Vec::new();
    let e = TypedExpr::When {
        subjects: vec![local_var("n", int_type())],
        clauses: vec![
            TypedClause {
                pattern: vec![Pattern::Int { value: String::from("1") }],
                body: TypedExpr::Int { value: String::from("10") },
            },
            TypedClause {
                pattern: vec![Pattern::Discard { name: String::from("_") }],
                body: TypedExpr::Int { value: String::from("0") },
            },
        ],
        tipo: int_type(),
    };
    assert!(gen.build_ir(&e, &mut ir, vec![0]).is_ok());
    assert_eq!(ir.len(), 8);
    assert!(matches!(&ir[5], IR::Finally { .. }));
    assert!(matches!(&ir[6], IR::Discard { .. }));
    match &ir[7] {
        IR::Int { value, .. } => assert_eq!(value, "0"),
        _ => panic!("expected the default clause body"),
    }
}

#[test]
fn produced_ir_is_discarded_on_error() {
    let mut gen = fresh_gen();
    let mut ir = vec![IR::Discard { scope: vec![9] }];
    let e = TypedExpr::Sequence {
        expressions: vec![TypedExpr::Int { value: String::from("1") }, TypedExpr::Todo],
    };
    let r = gen.build_ir(&e, &mut ir, vec![0]);
    assert!(r.is_err());
    // prior contents stand untouched, the partial lowering is gone,
    // and the generator is as it was
    assert_eq!(ir.len(), 1);
    assert_eq!(gen.id_gen.count, 0);
    assert!(!gen.needs_field_access);
}

#[test]
fn list_access_chain_binds_head_and_running_tail() {
    let names = vec![String::from("b"), String::from("rest")];
    let ids = vec![10u64, 11u64];
    let body = Term::Var(String::from("body"));
    let t = list_access_to_uplc(&names, &ids, true, 0, body);
    // Lambda("tail_index_0_10", Apply(Lambda("b", Apply(Lambda("rest", body),
    //   TailList tn)), HeadList tn))
    match t {
        Term::Lambda { parameter_name, body } => {
            assert_eq!(parameter_name, "tail_index_0_10");
            match *body {
                Term::Apply { function, argument } => {
                    match *function {
                        Term::Lambda { parameter_name, body } => {
                            assert_eq!(parameter_name, "b");
                            match *body {
                                Term::Apply { function, argument } => {
                                    match *function {
                                        Term::Lambda { parameter_name, .. } => {
                                            assert_eq!(parameter_name, "rest")
                                        }
                                        _ => panic!("expected the tail binder"),
                                    }
                                    match *argument {
                                        Term::Apply { function, .. } => match *function {
                                            Term::Force(inner) => assert!(matches!(
                                                *inner,
                                                Term::Builtin(DefaultFunction::TailList)
                                            )),
                                            _ => panic!("expected a forced TailList"),
                                        },
                                        _ => panic!("expected TailList applied to the tail"),
                                    }
                                }
                                _ => panic!("expected the inner application"),
                            }
                        }
                        _ => panic!("expected the head binder"),
                    }
                    match *argument {
                        Term::Apply { function, .. } => match *function {
                            Term::Force(inner) => assert!(matches!(
                                *inner,
                                Term::Builtin(DefaultFunction::HeadList)
                            )),
                            _ => panic!("expected a forced HeadList"),
                        },
                        _ => panic!("expected HeadList applied to the tail"),
                    }
                }
                _ => panic!("expected the outer application"),
            }
        }
        _ => panic!("expected the tail lambda"),
    }
}

#[test]
fn assembled_program_wraps_arguments_in_order() {
    let gen = fresh_gen();
    let arguments = vec![
        TypedArg { arg_name: ArgName::Named { name: String::from("x") }, tipo: int_type() },
        TypedArg { arg_name: ArgName::Discard { name: String::from("_d") }, tipo: int_type() },
    ];
    let program = gen.assemble(Term::Constant(Constant::Integer(42)), &arguments);
    assert_eq!(program.version, (1, 0, 0));
    match program.term {
        Term::Lambda { parameter_name, body } => {
            assert_eq!(parameter_name, "x");
            match *body {
                Term::Lambda { parameter_name, body } => {
                    assert_eq!(parameter_name, "_");
                    // the validator result wrapper forces a branch on the body
                    assert!(matches!(*body, Term::Force(_)));
                }
                _ => panic!("expected the discard lambda"),
            }
        }
        _ => panic!("expected the first argument lambda"),
    }
}

fn variant_name(ir: &IR) -> &'static str {
    match ir {
        IR::Int { .. } => "Int",
        IR::String { .. } => "String",
        IR::ByteArray { .. } => "ByteArray",
        IR::Var { .. } => "Var",
        IR::Builtin { .. } => "Builtin",
        IR::List { .. } => "List",
        IR::Tail { .. } => "Tail",
        IR::ListAccessor { .. } => "ListAccessor",
        IR::Call { .. } => "Call",
        IR::BinOp { .. } => "BinOp",
        IR::Assignment { .. } => "Assignment",
        IR::When { .. } => "When",
        IR::Clause { .. } => "Clause",
        IR::Finally { .. } => "Finally",
        IR::Lam { .. } => "Lam",
        IR::RecordAccess { .. } => "RecordAccess",
        IR::FieldsExpose { .. } => "FieldsExpose",
        IR::Discard { .. } => "Discard",
        _ => "other",
    }
}

#[test]
fn lowering_shape_ignores_scope_and_counter() {
    let make_expr = || TypedExpr::When {
        subjects: vec![local_var("n", int_type())],
        clauses: vec![
            TypedClause {
                pattern: vec![Pattern::Int { value: String::from("1") }],
                body: TypedExpr::Int { value: String::from("10") },
            },
            TypedClause {
                pattern: vec![Pattern::Discard { name: String::from("_") }],
                body: TypedExpr::Int { value: String::from("0") },
            },
        ],
        tipo: int_type(),
    };
    let mut gen1 = fresh_gen();
    let mut ir1 = Vec::new();
    assert!(gen1.build_ir(&make_expr(), &mut ir1, vec![0]).is_ok());
    let mut gen2 = fresh_gen();
    // advance the counter so generated ids differ
    gen2.id_gen.next();
    gen2.id_gen.next();
    gen2.id_gen.next();
    let mut ir2 = Vec::new();
    assert!(gen2.build_ir(&make_expr(), &mut ir2, vec![7, 8]).is_ok());
    let tags1: Vec<&str> = ir1.iter().map(variant_name).collect();
    let tags2: Vec<&str> = ir2.iter().map(variant_name).collect();
    assert_eq!(tags1, tags2);
    // while the scope paths themselves differ
    assert_ne!(ir1[0].scope(), ir2[0].scope());
}
