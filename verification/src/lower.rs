use crate::ast::{
    lookup_constructor, lookup_data_type, lookup_field_index, lookup_function, lookup_module,
    lookup_value, AssignmentKind, CallArg, CallArgPattern, ModuleValueConstructor, Pattern,
    PatternConstructor, RecordConstructorArg, TypeV, TypedClause, TypedExpr,
    ValueConstructorVariant, ValueConstructorV, VariantV,
};
use crate::ast::{clone_type, lookup_field_index_exec, Type, ValueConstructor};
use crate::gen::{CodeGenError, CodeGenerator, LowerCtx};
use crate::ir::{ir_seq_view, lemma_ir_view_concat, lemma_ir_view_push, IrV, IR};
use crate::names::{dec_str, prefixed_name, prefixed_name_spec, u64_to_decimal};
use crate::scope::{clone_scope, next_count};
use vstd::prelude::*;

verus! {

// The lowering of typed expressions to the linear IR, stated as one
// deterministic function of the expression, the enclosing scope path, the
// fresh-id counter and the ambient tables. The executable lowering is proved
// to compute exactly this. A result of `None` means the lowering stops with
// an error: an unsupported construct, or a name the tables cannot resolve.
//
// Each result triple is (emitted nodes, counter afterwards, whether a record
// field access was emitted).

/// A local-variable reference of the given type.
pub open spec fn local_var(tipo: TypeV) -> ValueConstructorV {
    ValueConstructorV { tipo, variant: VariantV::LocalVariable }
}

/// The placeholder type fabricated for generated list-item bindings.
pub open spec fn blank_app_type() -> TypeV {
    TypeV::App { module: Seq::empty(), name: Seq::empty(), args: Seq::empty() }
}

/// Whether binding this pattern under a constructor needs the constructor
/// value itself, not only its tag.
pub open spec fn arg_needs_access(p: Pattern) -> bool {
    ||| p matches Pattern::Var { .. }
    ||| p matches Pattern::List { .. }
    ||| p matches Pattern::Constructor { .. }
}

pub open spec fn some_arg_needs_access(args: Seq<CallArgPattern>) -> bool {
    exists|i: int| 0 <= i < args.len() && arg_needs_access(#[trigger] args[i].value)
}

/// The constructs the lowering does not yet translate, each with the name
/// its error carries.
pub open spec fn unsupported_construct(e: TypedExpr) -> Option<Seq<char>> {
    match e {
        TypedExpr::Fn => Some("fn"@),
        TypedExpr::Trace => Some("trace"@),
        TypedExpr::If => Some("if"@),
        TypedExpr::Todo => Some("todo"@),
        TypedExpr::RecordUpdate => Some("record update"@),
        TypedExpr::Negate => Some("negate"@),
        TypedExpr::Tuple => Some("tuple"@),
        TypedExpr::ModuleSelect { constructor: ModuleValueConstructor::Record, .. } => Some(
            "module constructor"@,
        ),
        TypedExpr::ModuleSelect { constructor: ModuleValueConstructor::Constant, .. } => Some(
            "module constant"@,
        ),
        _ => None,
    }
}

/// The first constructor argument carrying the given label, and its type.
pub open spec fn label_type(cargs: Seq<RecordConstructorArg>, label: Seq<char>) -> Option<TypeV>
    decreases cargs.len(),
{
    if cargs.len() == 0 {
        None
    } else {
        match cargs[0].label {
            Some(l) => if l@ == label {
                Some(cargs[0].tipo@)
            } else {
                label_type(cargs.skip(1), label)
            },
            None => label_type(cargs.skip(1), label),
        }
    }
}

/// Every constructor argument of a record carries a label.
pub open spec fn record_labels_ok(cargs: Seq<RecordConstructorArg>) -> bool {
    forall|i: int| 0 <= i < cargs.len() ==> (#[trigger] cargs[i]).label is Some
}

/// Resolves the arguments of a record-constructor pattern to
/// (field position, bound name, field type) triples, in written order,
/// dropping discards. `None` when an argument's pattern is unsupported or a
/// label resolves to no field type.
pub open spec fn resolve_record_args(
    args: Seq<CallArgPattern>,
    fields: Seq<(String, usize)>,
    cargs: Seq<RecordConstructorArg>,
) -> Option<Seq<(nat, Seq<char>, TypeV)>>
    decreases args.len(),
{
    if args.len() == 0 {
        Some(Seq::empty())
    } else {
        let label = match args[0].label {
            Some(l) => l@,
            None => Seq::empty(),
        };
        let idx = lookup_field_index(fields, label) as nat;
        match args[0].value {
            Pattern::Var { name } => match label_type(cargs, label) {
                None => None,
                Some(tv) => match resolve_record_args(args.skip(1), fields, cargs) {
                    None => None,
                    Some(rest) => Some(seq![(idx, name@, tv)] + rest),
                },
            },
            Pattern::Discard { .. } => resolve_record_args(args.skip(1), fields, cargs),
            _ => None,
        }
    }
}

/// Resolves the arguments of a positional constructor pattern: the argument
/// at position `at` binds the constructor's field of the same position.
pub open spec fn resolve_positional_args(
    args: Seq<CallArgPattern>,
    cargs: Seq<RecordConstructorArg>,
    at: nat,
) -> Option<Seq<(nat, Seq<char>, TypeV)>>
    decreases args.len(),
{
    if args.len() == 0 {
        Some(Seq::empty())
    } else {
        match args[0].value {
            Pattern::Var { name } => if at < cargs.len() {
                match resolve_positional_args(args.skip(1), cargs, at + 1) {
                    None => None,
                    Some(rest) => Some(seq![(at, name@, cargs[at as int].tipo@)] + rest),
                }
            } else {
                None
            },
            Pattern::Discard { .. } => resolve_positional_args(args.skip(1), cargs, at + 1),
            _ => None,
        }
    }
}

/// Inserts an entry into a sequence sorted by field position, after every
/// entry whose position is not greater: a stable insertion.
pub open spec fn insert_by_index(
    x: (nat, Seq<char>, TypeV),
    s: Seq<(nat, Seq<char>, TypeV)>,
) -> Seq<(nat, Seq<char>, TypeV)>
    decreases s.len(),
{
    if s.len() == 0 {
        seq![x]
    } else if s.last().0 > x.0 {
        insert_by_index(x, s.drop_last()).push(s.last())
    } else {
        s.push(x)
    }
}

/// Stable sort by field position.
pub open spec fn sort_by_field_index(s: Seq<(nat, Seq<char>, TypeV)>) -> Seq<
    (nat, Seq<char>, TypeV),
>
    decreases s.len(),
{
    if s.len() == 0 {
        s
    } else {
        insert_by_index(s.last(), sort_by_field_index(s.drop_last()))
    }
}

/// What the lowering emits for an expression. See the per-shape rules in
/// the branches.
pub open spec fn lower_expr(e: TypedExpr, scope: Seq<u64>, ctr: u64, cx: LowerCtx) -> Option<
    (Seq<IrV>, u64, bool),
>
    decreases e, 3int,
{
    match e {
        TypedExpr::Int { value } => Some((seq![IrV::Int { scope, value: value@ }], ctr, false)),
        TypedExpr::String { value } => Some(
            (seq![IrV::String { scope, value: value@ }], ctr, false),
        ),
        TypedExpr::ByteArray { bytes } => Some(
            (seq![IrV::ByteArray { scope, bytes: bytes@ }], ctr, false),
        ),
        TypedExpr::Sequence { expressions } => lower_each(expressions@, scope, ctr, cx),
        TypedExpr::Pipeline { expressions } => lower_each(expressions@, scope, ctr, cx),
        TypedExpr::Var { constructor, name } => Some(
            (seq![IrV::Var { scope, constructor: constructor@, name: name@ }], ctr, false),
        ),
        TypedExpr::List { elements, tail, tipo } => if tail is Some && elements@.len() + 1
            > usize::MAX {
            None
        } else {
            let head = IrV::List {
                scope,
                count: if tail is Some {
                    (elements@.len() + 1) as nat
                } else {
                    elements@.len()
                },
                tipo: tipo@,
                tail: tail is Some,
            };
            match lower_each(elements@, scope, ctr, cx) {
                None => None,
                Some((elems_ir, c1, n1)) => match tail {
                    Some(t) => {
                        let tail_scope = scope.push(c1);
                        let c2 = next_count(c1);
                        match lower_expr(*t, tail_scope, c2, cx) {
                            None => None,
                            Some((tail_ir, c3, n2)) => Some(
                                (
                                    seq![head] + elems_ir + seq![
                                        IrV::Tail { scope: tail_scope, count: 1 },
                                    ] + tail_ir,
                                    c3,
                                    n1 || n2,
                                ),
                            ),
                        }
                    },
                    None => Some((seq![head] + elems_ir, c1, n1)),
                },
            }
        },
        TypedExpr::Call { fun, args } => if args@.len() + 1 > usize::MAX {
            None
        } else {
            let head = IrV::Call { scope, count: (args@.len() + 1) as nat };
            let fun_scope = scope.push(ctr);
            let c1 = next_count(ctr);
            match lower_expr(*fun, fun_scope, c1, cx) {
                None => None,
                Some((fun_ir, c2, n1)) => match lower_args(args@, scope, c2, cx) {
                    None => None,
                    Some((args_ir, c3, n2)) => Some(
                        (seq![head] + fun_ir + args_ir, c3, n1 || n2),
                    ),
                },
            }
        },
        TypedExpr::BinOp { name, left, right, tipo } => {
            let head = IrV::BinOp { scope, name, count: 2, tipo: tipo@ };
            let left_scope = scope.push(ctr);
            let c1 = next_count(ctr);
            let right_scope = scope.push(c1);
            let c2 = next_count(c1);
            match lower_expr(*left, left_scope, c2, cx) {
                None => None,
                Some((left_ir, c3, n1)) => match lower_expr(*right, right_scope, c3, cx) {
                    None => None,
                    Some((right_ir, c4, n2)) => Some(
                        (seq![head] + left_ir + right_ir, c4, n1 || n2),
                    ),
                },
            }
        },
        TypedExpr::Assignment { value, pattern, kind, .. } => {
            let value_scope = scope.push(ctr);
            let c1 = next_count(ctr);
            match lower_expr(*value, value_scope, c1, cx) {
                None => None,
                Some((value_ir, c2, n1)) => match assign_pattern(
                    pattern,
                    value_ir,
                    kind,
                    scope,
                    c2,
                    cx,
                ) {
                    None => None,
                    Some((pat_ir, c3)) => Some((pat_ir, c3, n1)),
                },
            }
        },
        TypedExpr::When { subjects, clauses, tipo } => {
            if subjects@.len() == 0 {
                None
            } else {
                let subject = subjects@[0];
                let subject_name = prefixed_name_spec("__subject_name_"@, ctr);
                let c1 = next_count(ctr);
                let constr_var = prefixed_name_spec("__constr_name_"@, c1);
                let c2 = next_count(c1);
                if clauses@.len() == 0 {
                    Some((Seq::empty(), c2, false))
                } else {
                    match lower_clauses(
                        clauses@.drop_last(),
                        tipo@,
                        subject_name,
                        constr_var,
                        scope,
                        c2,
                        cx,
                    ) {
                        None => None,
                        Some((front_ir, c3, n1, needs1)) => {
                            let last = clauses@.last();
                            let final_scope = scope.push(c3);
                            let c4 = next_count(c3);
                            if last.pattern@.len() == 0 {
                                None
                            } else {
                                match lower_expr(last.body, final_scope, c4, cx) {
                                    None => None,
                                    Some((then_ir, c5, n2)) => match when_pattern(
                                        last.pattern@[0],
                                        then_ir,
                                        tipo@,
                                        constr_var,
                                        scope,
                                        c5,
                                        cx,
                                    ) {
                                        None => None,
                                        Some((last_ir, c6, needs2)) => {
                                            let pat_all = front_ir + seq![
                                                IrV::Finally { scope: final_scope },
                                            ] + last_ir;
                                            let needs = needs1 || needs2;
                                            if needs {
                                                match lower_expr(subject, scope, c6, cx) {
                                                    None => None,
                                                    Some((subj_ir, c7, n3)) => {
                                                        let var_scope = scope.push(c7);
                                                        let c8 = next_count(c7);
                                                        Some(
                                                            (
                                                                seq![
                                                                    IrV::Lam {
                                                                        scope,
                                                                        name: constr_var,
                                                                    },
                                                                ] + subj_ir + seq![
                                                                    IrV::When {
                                                                        scope,
                                                                        count: clauses@.len(),
                                                                        subject_name,
                                                                        tipo: tipo@,
                                                                    },
                                                                    IrV::Var {
                                                                        scope: var_scope,
                                                                        constructor: local_var(
                                                                            tipo@,
                                                                        ),
                                                                        name: constr_var,
                                                                    },
                                                                ] + pat_all,
                                                                c8,
                                                                n1 || n2 || n3,
                                                            ),
                                                        )
                                                    },
                                                }
                                            } else {
                                                let subj_scope = scope.push(c6);
                                                let c7 = next_count(c6);
                                                match lower_expr(subject, subj_scope, c7, cx) {
                                                    None => None,
                                                    Some((subj_ir, c8, n3)) => Some(
                                                        (
                                                            seq![
                                                                IrV::When {
                                                                    scope,
                                                                    count: clauses@.len(),
                                                                    subject_name,
                                                                    tipo: tipo@,
                                                                },
                                                            ] + subj_ir + pat_all,
                                                            c8,
                                                            n1 || n2 || n3,
                                                        ),
                                                    ),
                                                }
                                            }
                                        },
                                    },
                                }
                            }
                        },
                    }
                }
            }
        },
        TypedExpr::RecordAccess { record, index, tipo } => {
            match lower_expr(*record, scope, ctr, cx) {
                None => None,
                Some((rec_ir, c1, _n1)) => Some(
                    (seq![IrV::RecordAccess { scope, index, tipo: tipo@ }] + rec_ir, c1, true),
                ),
            }
        },
        TypedExpr::ModuleSelect { constructor, module_name } => match constructor {
            ModuleValueConstructor::Fn { name } => match lookup_function(
                cx.fns,
                module_name@,
                name@,
            ) {
                Some(_) => None,
                None => match lookup_module(cx.mts, module_name@) {
                    None => None,
                    Some(mi) => match lookup_value(cx.mts[mi].1.values@, name@) {
                        None => None,
                        Some(vi) => match cx.mts[mi].1.values@[vi].1.variant {
                            ValueConstructorVariant::ModuleFn { builtin, .. } => match builtin {
                                Some(b) => Some(
                                    (seq![IrV::Builtin { scope, func: b }], ctr, false),
                                ),
                                None => None,
                            },
                            _ => None,
                        },
                    },
                },
            },
            _ => None,
        },
        _ => None,
    }
}

/// Lowers the expressions of a sequence or pipeline, each in its own fresh
/// child scope, in order.
pub open spec fn lower_each(es: Seq<TypedExpr>, scope: Seq<u64>, ctr: u64, cx: LowerCtx) -> Option<
    (Seq<IrV>, u64, bool),
>
    decreases es, 3int,
{
    if es.len() == 0 {
        Some((Seq::empty(), ctr, false))
    } else {
        let child = scope.push(ctr);
        let c1 = next_count(ctr);
        match lower_expr(es[0], child, c1, cx) {
            None => None,
            Some((ir1, c2, n1)) => match lower_each(es.skip(1), scope, c2, cx) {
                None => None,
                Some((ir2, c3, n2)) => Some((ir1 + ir2, c3, n1 || n2)),
            },
        }
    }
}

/// Lowers call arguments, each in its own fresh child scope, in order.
pub open spec fn lower_args(args: Seq<CallArg>, scope: Seq<u64>, ctr: u64, cx: LowerCtx) -> Option<
    (Seq<IrV>, u64, bool),
>
    decreases args, 3int,
{
    if args.len() == 0 {
        Some((Seq::empty(), ctr, false))
    } else {
        let child = scope.push(ctr);
        let c1 = next_count(ctr);
        match lower_expr(args[0].value, child, c1, cx) {
            None => None,
            Some((ir1, c2, n1)) => match lower_args(args.skip(1), scope, c2, cx) {
                None => None,
                Some((ir2, c3, n2)) => Some((ir1 + ir2, c3, n1 || n2)),
            },
        }
    }
}

/// Lowers the non-default clauses of a `when`, each as a `Clause` head
/// followed by the clause's comparable pattern and body.
pub open spec fn lower_clauses(
    cs: Seq<TypedClause>,
    st: TypeV,
    subject_name: Seq<char>,
    constr_var: Seq<char>,
    scope: Seq<u64>,
    ctr: u64,
    cx: LowerCtx,
) -> Option<(Seq<IrV>, u64, bool, bool)>
    decreases cs, 3int,
{
    if cs.len() == 0 {
        Some((Seq::empty(), ctr, false, false))
    } else {
        let clause = cs[0];
        if clause.pattern@.len() == 0 {
            None
        } else {
            let cscope = scope.push(ctr);
            let c1 = next_count(ctr);
            let head = IrV::Clause { scope: cscope, count: 2, subject_name, tipo: st };
            match lower_expr(clause.body, cscope, c1, cx) {
                None => None,
                Some((then_ir, c2, n1)) => match when_pattern(
                    clause.pattern@[0],
                    then_ir,
                    st,
                    constr_var,
                    cscope,
                    c2,
                    cx,
                ) {
                    None => None,
                    Some((pat_ir, c3, needs1)) => match lower_clauses(
                        cs.skip(1),
                        st,
                        subject_name,
                        constr_var,
                        scope,
                        c3,
                        cx,
                    ) {
                        None => None,
                        Some((rest, c4, n2, needs2)) => Some(
                            (seq![head] + pat_ir + rest, c4, n1 || n2, needs1 || needs2),
                        ),
                    },
                },
            }
        }
    }
}

/// What the clause-head lowering emits for a pattern: the comparable head
/// followed by the clause body, with field binding for constructor patterns.
/// The third component says whether the clause needs the subject bound as a
/// constructor value, not only as its tag.
pub open spec fn when_pattern(
    p: Pattern,
    values: Seq<IrV>,
    st: TypeV,
    constr_var: Seq<char>,
    scope: Seq<u64>,
    ctr: u64,
    cx: LowerCtx,
) -> Option<(Seq<IrV>, u64, bool)>
    decreases p, 2int,
{
    match p {
        Pattern::Int { value } => Some(
            (seq![IrV::Int { scope, value: value@ }] + values, ctr, false),
        ),
        Pattern::Discard { .. } => Some((seq![IrV::Discard { scope }] + values, ctr, false)),
        Pattern::Constructor { arguments, .. } => {
            let var_node = IrV::Var { scope, constructor: local_var(st), name: constr_var };
            if some_arg_needs_access(arguments@) {
                match pattern_spec(p, seq![var_node] + values, scope, ctr, cx) {
                    None => None,
                    Some((ir, c1)) => Some((ir, c1, true)),
                }
            } else {
                match pattern_spec(p, values, scope, ctr, cx) {
                    None => None,
                    Some((ir, c1)) => Some((ir, c1, false)),
                }
            }
        },
        _ => None,
    }
}

/// What a let-style binding emits: a variable binds the value to its name in
/// the remaining program; a list pattern destructures it.
pub open spec fn assign_pattern(
    p: Pattern,
    values: Seq<IrV>,
    kind: AssignmentKind,
    scope: Seq<u64>,
    ctr: u64,
    cx: LowerCtx,
) -> Option<(Seq<IrV>, u64)>
    decreases p, 2int,
{
    match p {
        Pattern::Var { name } => Some(
            (seq![IrV::Assignment { scope, name: name@, kind }] + values, ctr),
        ),
        Pattern::List { .. } => pattern_spec(p, values, scope, ctr, cx),
        _ => None,
    }
}

/// Collects the names a list pattern binds, in element order, fabricating a
/// fresh name for each nested list pattern, whose own destructuring follows.
pub open spec fn pattern_list_elems(es: Seq<Pattern>, scope: Seq<u64>, ctr: u64, cx: LowerCtx) -> Option<
    (Seq<Seq<char>>, Seq<IrV>, u64),
>
    decreases es, 1int,
{
    if es.len() == 0 {
        Some((Seq::empty(), Seq::empty(), ctr))
    } else {
        match es[0] {
            Pattern::Var { name } => match pattern_list_elems(es.skip(1), scope, ctr, cx) {
                None => None,
                Some((names, inner, c1)) => Some((seq![name@] + names, inner, c1)),
            },
            Pattern::List { .. } => {
                let item_name = prefixed_name_spec("list_item_id_"@, ctr);
                let c1 = next_count(ctr);
                let var_node = IrV::Var {
                    scope,
                    constructor: local_var(blank_app_type()),
                    name: item_name,
                };
                match pattern_spec(es[0], seq![var_node], scope, c1, cx) {
                    None => None,
                    Some((inner1, c2)) => match pattern_list_elems(es.skip(1), scope, c2, cx) {
                        None => None,
                        Some((names, inner2, c3)) => Some(
                            (seq![item_name] + names, inner1 + inner2, c3),
                        ),
                    },
                }
            },
            _ => None,
        }
    }
}

/// What the recursive pattern worker emits for list and constructor
/// patterns, with the value being destructured following the head node.
pub open spec fn pattern_spec(
    p: Pattern,
    values: Seq<IrV>,
    scope: Seq<u64>,
    ctr: u64,
    cx: LowerCtx,
) -> Option<(Seq<IrV>, u64)>
    decreases p, 1int,
{
    match p {
        Pattern::Discard { .. } => Some((seq![IrV::Discard { scope }] + values, ctr)),
        Pattern::List { elements, tail } => match pattern_list_elems(elements@, scope, ctr, cx) {
            None => None,
            Some((names, inner, c1)) => {
                let tail_names: Option<Seq<Seq<char>>> = match tail {
                    Some(t) => match *t {
                        Pattern::Var { name } => Some(names.push(name@)),
                        Pattern::Discard { .. } => Some(names),
                        _ => None,
                    },
                    None => Some(names),
                };
                match tail_names {
                    None => None,
                    Some(all_names) => Some(
                        (
                            seq![
                                IrV::ListAccessor { scope, names: all_names, tail: tail is Some },
                            ] + values + inner,
                            c1,
                        ),
                    ),
                }
            },
        },
        Pattern::Constructor { is_record, name, arguments, constructor, tipo } => {
            let key: Option<(Seq<char>, Seq<char>)> = match tipo@ {
                TypeV::Fn { ret, .. } => match *ret {
                    TypeV::App { module, name: tname, .. } => Some((module, tname)),
                    _ => None,
                },
                TypeV::App { module, name: tname, .. } => Some((module, tname)),
                _ => None,
            };
            match key {
                None => None,
                Some((km, kn)) => match lookup_data_type(cx.dts, km, kn) {
                    None => None,
                    Some(di) => match lookup_constructor(cx.dts[di].1.constructors@, name@) {
                        None => None,
                        Some(ci) => {
                            let ctype = cx.dts[di].1.constructors@[ci];
                            let index_node = IrV::Int { scope, value: dec_str(ci) };
                            if is_record {
                                match constructor {
                                    PatternConstructor::Record { field_map, .. } => match field_map {
                                        None => None,
                                        Some(fm) => if !record_labels_ok(ctype.arguments@) {
                                            None
                                        } else {
                                            match resolve_record_args(
                                                arguments@,
                                                fm.fields@,
                                                ctype.arguments@,
                                            ) {
                                                None => None,
                                                Some(resolved) => {
                                                    let sorted = sort_by_field_index(resolved);
                                                    if sorted.len() == 0 {
                                                        Some((seq![index_node] + values, ctr))
                                                    } else if sorted.len() + 2 > usize::MAX {
                                                        None
                                                    } else {
                                                        Some(
                                                            (
                                                                seq![
                                                                    index_node,
                                                                    IrV::FieldsExpose {
                                                                        scope,
                                                                        count: sorted.len() + 2,
                                                                        indices: sorted,
                                                                    },
                                                                ] + values,
                                                                ctr,
                                                            ),
                                                        )
                                                    }
                                                },
                                            }
                                        },
                                    },
                                }
                            } else {
                                match resolve_positional_args(arguments@, ctype.arguments@, 0) {
                                    None => None,
                                    Some(resolved) => if resolved.len() == 0 {
                                        Some((seq![index_node] + values, ctr))
                                    } else if resolved.len() + 2 > usize::MAX {
                                        None
                                    } else {
                                        Some(
                                            (
                                                seq![
                                                    index_node,
                                                    IrV::FieldsExpose {
                                                        scope,
                                                        count: resolved.len() + 2,
                                                        indices: resolved,
                                                    },
                                                ] + values,
                                                ctr,
                                            ),
                                        )
                                    },
                                }
                            }
                        },
                    },
                },
            }
        },
        _ => None,
    }
}

// ----- Executable lowering -----

/// Whether any argument's pattern needs the constructor value bound.
fn args_need_access(args: &Vec<CallArgPattern>) -> (r: bool)
    ensures
        r == some_arg_needs_access(args@),
{
    let mut needs = false;
    let mut i: usize = 0;
    while i < args.len()
        invariant
            i <= args@.len(),
            needs ==> some_arg_needs_access(args@),
            !needs ==> forall|j: int| 0 <= j < i ==> !arg_needs_access(
                (#[trigger] args@[j]).value,
            ),
        decreases args@.len() - i,
    {
        match &args[i].value {
            Pattern::Var { .. } => {
                proof {
                    assert(arg_needs_access(args@[i as int].value));
                }
                needs = true;
            },
            Pattern::List { .. } => {
                proof {
                    assert(arg_needs_access(args@[i as int].value));
                }
                needs = true;
            },
            Pattern::Constructor { .. } => {
                proof {
                    assert(arg_needs_access(args@[i as int].value));
                }
                needs = true;
            },
            _ => {},
        }
        i = i + 1;
    }
    needs
}

/// Whether every constructor argument of a record carries a label.
fn record_labels_ok_exec(cargs: &Vec<RecordConstructorArg>) -> (r: bool)
    ensures
        r == record_labels_ok(cargs@),
{
    let mut i: usize = 0;
    while i < cargs.len()
        invariant
            i <= cargs@.len(),
            forall|j: int| 0 <= j < i ==> (#[trigger] cargs@[j]).label is Some,
        decreases cargs@.len() - i,
    {
        if cargs[i].label.is_none() {
            proof {
                assert(!((cargs@[i as int]).label is Some));
            }
            return false;
        }
        i = i + 1;
    }
    true
}

/// The type of the first constructor argument carrying the given label.
fn label_type_exec(cargs: &Vec<RecordConstructorArg>, start: usize, label: &String) -> (r: Option<
    Type,
>)
    requires
        start <= cargs@.len(),
    ensures
        match label_type(cargs@.skip(start as int), label@) {
            Some(tv) => r matches Some(t) && t@ == tv,
            None => r is None,
        },
    decreases cargs@.len() - start,
{
    if start == cargs.len() {
        None
    } else {
        proof {
            assert(cargs@.skip(start as int)[0] == cargs@[start as int]);
            assert(cargs@.skip(start as int).skip(1) =~= cargs@.skip(start as int + 1));
        }
        match &cargs[start].label {
            Some(l) => if *l == *label {
                Some(clone_type(&cargs[start].tipo))
            } else {
                label_type_exec(cargs, start + 1, label)
            },
            None => label_type_exec(cargs, start + 1, label),
        }
    }
}

/// Resolves record-pattern arguments to (field position, name, type)
/// triples.
fn resolve_record_args_exec(
    args: &Vec<CallArgPattern>,
    start: usize,
    fields: &Vec<(String, usize)>,
    cargs: &Vec<RecordConstructorArg>,
) -> (r: Result<Vec<(usize, String, Type)>, CodeGenError>)
    requires
        start <= args@.len(),
    ensures
        match resolve_record_args(args@.skip(start as int), fields@, cargs@) {
            Some(rs) => r matches Ok(v) && crate::ir::indices_view(v@) == rs,
            None => r is Err,
        },
    decreases args@.len() - start,
{
    if start == args.len() {
        proof {
            assert(args@.skip(start as int) =~= Seq::<CallArgPattern>::empty());
            assert(crate::ir::indices_view(Seq::<(usize, String, Type)>::empty()) =~= Seq::<
                (nat, Seq<char>, TypeV),
            >::empty());
        }
        Ok(Vec::new())
    } else {
        proof {
            assert(args@.skip(start as int)[0] == args@[start as int]);
            assert(args@.skip(start as int).skip(1) =~= args@.skip(start as int + 1));
        }
        let label: String = match &args[start].label {
            Some(l) => l.clone(),
            None => String::new(),
        };
        proof {
            assert(fields@.skip(0) =~= fields@);
            assert(cargs@.skip(0) =~= cargs@);
        }
        let idx = lookup_field_index_exec(fields, 0, &label);
        match &args[start].value {
            Pattern::Var { name } => match label_type_exec(cargs, 0, &label) {
                None => Err(CodeGenError::MissingDefinition { name: label }),
                Some(t) => {
                    let rest = resolve_record_args_exec(args, start + 1, fields, cargs);
                    match rest {
                        Ok(mut v) => {
                            let ghost old_v = v@;
                            v.insert(0, (idx, name.clone(), t));
                            proof {
                                assert(crate::ir::indices_view(v@) =~= seq![
                                    (idx as nat, name@, t@),
                                ] + crate::ir::indices_view(old_v));
                            }
                            Ok(v)
                        },
                        Err(e) => Err(e),
                    }
                },
            },
            Pattern::Discard { .. } => resolve_record_args_exec(args, start + 1, fields, cargs),
            _ => Err(
                CodeGenError::Unsupported {
                    construct: "nested pattern in constructor arguments".to_owned(),
                },
            ),
        }
    }
}

/// Resolves positional constructor-pattern arguments: position `at` binds
/// the field of the same position.
fn resolve_positional_args_exec(
    args: &Vec<CallArgPattern>,
    start: usize,
    cargs: &Vec<RecordConstructorArg>,
    at: usize,
) -> (r: Result<Vec<(usize, String, Type)>, CodeGenError>)
    requires
        start <= args@.len(),
        at + args@.len() - start <= usize::MAX,
    ensures
        match resolve_positional_args(args@.skip(start as int), cargs@, at as nat) {
            Some(rs) => r matches Ok(v) && crate::ir::indices_view(v@) == rs,
            None => r is Err,
        },
    decreases args@.len() - start,
{
    if start == args.len() {
        proof {
            assert(args@.skip(start as int) =~= Seq::<CallArgPattern>::empty());
            assert(crate::ir::indices_view(Seq::<(usize, String, Type)>::empty()) =~= Seq::<
                (nat, Seq<char>, TypeV),
            >::empty());
        }
        Ok(Vec::new())
    } else {
        proof {
            assert(args@.skip(start as int)[0] == args@[start as int]);
            assert(args@.skip(start as int).skip(1) =~= args@.skip(start as int + 1));
        }
        match &args[start].value {
            Pattern::Var { name } => if at < cargs.len() {
                let t = clone_type(&cargs[at].tipo);
                let rest = resolve_positional_args_exec(args, start + 1, cargs, at + 1);
                match rest {
                    Ok(mut v) => {
                        let ghost old_v = v@;
                        v.insert(0, (at, name.clone(), t));
                        proof {
                            assert(crate::ir::indices_view(v@) =~= seq![(at as nat, name@, t@)]
                                + crate::ir::indices_view(old_v));
                        }
                        Ok(v)
                    },
                    Err(e) => Err(e),
                }
            } else {
                Err(CodeGenError::MissingDefinition { name: name.clone() })
            },
            Pattern::Discard { .. } => resolve_positional_args_exec(args, start + 1, cargs, at + 1),
            _ => Err(
                CodeGenError::Unsupported {
                    construct: "nested pattern in constructor arguments".to_owned(),
                },
            ),
        }
    }
}

/// Resolves record-pattern arguments, searching the whole argument list.
fn resolve_record_all(
    args: &Vec<CallArgPattern>,
    fields: &Vec<(String, usize)>,
    cargs: &Vec<RecordConstructorArg>,
) -> (r: Result<Vec<(usize, String, Type)>, CodeGenError>)
    ensures
        r is Ok <==> resolve_record_args(args@, fields@, cargs@) is Some,
        r matches Ok(v) ==> resolve_record_args(args@, fields@, cargs@) == Some(
            crate::ir::indices_view(v@),
        ),
{
    proof {
        assert(args@.skip(0) =~= args@);
    }
    let r = resolve_record_args_exec(args, 0, fields, cargs);
    proof {
        let res = resolve_record_args(args@.skip(0), fields@, cargs@);
        assert(resolve_record_args(args@, fields@, cargs@) == res);
        if res is None {
            assert(r is Err);
        } else {
            assert(res matches Some(rs) && r matches Ok(v) && crate::ir::indices_view(v@) == rs);
        }
    }
    r
}

/// Resolves positional-pattern arguments, searching the whole argument list.
fn resolve_positional_all(
    args: &Vec<CallArgPattern>,
    cargs: &Vec<RecordConstructorArg>,
) -> (r: Result<Vec<(usize, String, Type)>, CodeGenError>)
    ensures
        r is Ok <==> resolve_positional_args(args@, cargs@, 0) is Some,
        r matches Ok(v) ==> resolve_positional_args(args@, cargs@, 0) == Some(
            crate::ir::indices_view(v@),
        ),
{
    let n = args.len();
    proof {
        assert(args@.len() == n);
        assert(args@.skip(0) =~= args@);
    }
    let r = resolve_positional_args_exec(args, 0, cargs, 0);
    proof {
        let res = resolve_positional_args(args@.skip(0), cargs@, 0);
        assert(resolve_positional_args(args@, cargs@, 0) == res);
        if res is None {
            assert(r is Err);
        } else {
            assert(res matches Some(rs) && r matches Ok(v) && crate::ir::indices_view(v@) == rs);
        }
    }
    r
}

/// Inserts an entry into a vector sorted by field position, after every
/// entry whose position is not greater.
fn insert_by_index_exec(x: (usize, String, Type), v: Vec<(usize, String, Type)>) -> (r: Vec<
    (usize, String, Type),
>)
    ensures
        crate::ir::indices_view(r@) == insert_by_index(
            (x.0 as nat, x.1@, x.2@),
            crate::ir::indices_view(v@),
        ),
    decreases v@.len(),
{
    let mut v = v;
    let ghost orig = v@;
    let ghost origx = (x.0 as nat, x.1@, x.2@);
    if v.len() == 0 {
        proof {
            assert(crate::ir::indices_view(orig) =~= Seq::<(nat, Seq<char>, TypeV)>::empty());
        }
        v.push(x);
        proof {
            assert(crate::ir::indices_view(v@) =~= seq![origx]);
            assert(insert_by_index(origx, crate::ir::indices_view(orig)) == seq![origx]);
        }
        v
    } else {
        let last_pos = v[v.len() - 1].0;
        proof {
            assert(crate::ir::indices_view(orig).len() == orig.len());
            assert(crate::ir::indices_view(orig).last() == (
                orig.last().0 as nat,
                orig.last().1@,
                orig.last().2@,
            ));
        }
        if last_pos > x.0 {
            let last = v.pop().unwrap();
            proof {
                assert(v@ =~= orig.drop_last());
                assert(last == orig.last());
                assert(crate::ir::indices_view(v@) =~= crate::ir::indices_view(orig).drop_last());
            }
            let mut r = insert_by_index_exec(x, v);
            let ghost before_push = r@;
            r.push(last);
            proof {
                assert(crate::ir::indices_view(r@) =~= crate::ir::indices_view(before_push).push(
                    (last.0 as nat, last.1@, last.2@),
                ));
            }
            r
        } else {
            v.push(x);
            proof {
                assert(crate::ir::indices_view(v@) =~= crate::ir::indices_view(orig).push(origx));
            }
            v
        }
    }
}

/// Stable sort by field position.
fn sort_indices(v: Vec<(usize, String, Type)>) -> (r: Vec<(usize, String, Type)>)
    ensures
        crate::ir::indices_view(r@) == sort_by_field_index(crate::ir::indices_view(v@)),
    decreases v@.len(),
{
    let mut v = v;
    if v.len() == 0 {
        proof {
            assert(crate::ir::indices_view(v@) =~= Seq::<(nat, Seq<char>, TypeV)>::empty());
        }
        v
    } else {
        let ghost whole = v@;
        let last = v.pop().unwrap();
        proof {
            assert(crate::ir::indices_view(v@) =~= crate::ir::indices_view(whole).drop_last());
            assert(crate::ir::indices_view(whole).last() == (last.0 as nat, last.1@, last.2@));
        }
        let sorted = sort_indices(v);
        insert_by_index_exec(last, sorted)
    }
}

impl CodeGenerator {
    /// Lowers a typed expression, appending its IR to `ir_stack`. The
    /// appended nodes, the counter afterwards and the need for field-access
    /// helpers are exactly what `lower_expr` states; the call fails exactly
    /// when `lower_expr` has no result.
    #[verifier::rlimit(100)]
    fn build_ir_into(&mut self, body: &TypedExpr, ir_stack: &mut Vec<IR>, scope: Vec<u64>) -> (r:
        Result<(), CodeGenError>)
        ensures
            final(self).same_tables(old(self)),
            final(self).defined_functions == old(self).defined_functions,
            r is Ok <==> lower_expr(*body, scope@, old(self).id_gen.count, old(self).ctx())
                is Some,
            lower_expr(*body, scope@, old(self).id_gen.count, old(self).ctx()) matches Some(t)
                ==> ir_seq_view(final(ir_stack)@) == ir_seq_view(old(ir_stack)@) + t.0
                && final(self).id_gen.count == t.1 && final(self).needs_field_access == (old(
                self,
            ).needs_field_access || t.2),
            unsupported_construct(*body) matches Some(c) ==> r matches Err(
                CodeGenError::Unsupported { construct },
            ) && construct@ == c,
        decreases *body, 3int,
    {
        let ghost c0 = self.id_gen.count;
        let ghost cx = self.ctx();
        let ghost stack0 = ir_stack@;
        match body {
            TypedExpr::Int { value } => {
                ir_stack.push(IR::Int { scope, value: value.clone() });
                proof {
                    lemma_ir_view_push(stack0, ir_stack@.last());
                    assert(ir_seq_view(ir_stack@) =~= ir_seq_view(stack0) + seq![
                        IrV::Int { scope: scope@, value: value@ },
                    ]);
                }
                Ok(())
            },
            TypedExpr::String { value } => {
                ir_stack.push(IR::String { scope, value: value.clone() });
                proof {
                    assert(ir_seq_view(ir_stack@) =~= ir_seq_view(stack0) + seq![
                        IrV::String { scope: scope@, value: value@ },
                    ]);
                }
                Ok(())
            },
            TypedExpr::ByteArray { bytes } => {
                ir_stack.push(IR::ByteArray { scope, bytes: crate::ast::clone_bytes(bytes) });
                proof {
                    assert(ir_seq_view(ir_stack@) =~= ir_seq_view(stack0) + seq![
                        IrV::ByteArray { scope: scope@, bytes: bytes@ },
                    ]);
                }
                Ok(())
            },
            TypedExpr::Sequence { expressions } => {
                let r = self.build_each(expressions, 0, ir_stack, &scope);
                proof {
                    assert(expressions@.skip(0) =~= expressions@);
                }
                r
            },
            TypedExpr::Pipeline { expressions } => {
                let r = self.build_each(expressions, 0, ir_stack, &scope);
                proof {
                    assert(expressions@.skip(0) =~= expressions@);
                }
                r
            },
            TypedExpr::Var { constructor, name } => {
                ir_stack.push(
                    IR::Var {
                        scope,
                        constructor: crate::ast::clone_value_constructor(constructor),
                        name: name.clone(),
                    },
                );
                proof {
                    assert(ir_seq_view(ir_stack@) =~= ir_seq_view(stack0) + seq![
                        IrV::Var { scope: scope@, constructor: constructor@, name: name@ },
                    ]);
                }
                Ok(())
            },
            TypedExpr::List { elements, tail, tipo } => {
                let count = if tail.is_some() {
                    match elements.len().checked_add(1) {
                        Some(c) => c,
                        None => {
                            return Err(
                                CodeGenError::Unsupported { construct: "list".to_owned() },
                            );
                        },
                    }
                } else {
                    elements.len()
                };
                ir_stack.push(
                    IR::List {
                        scope: clone_scope(&scope),
                        count,
                        tipo: clone_type(tipo),
                        tail: tail.is_some(),
                    },
                );
                proof {
                    assert(ir_seq_view(ir_stack@) =~= ir_seq_view(stack0).push(
                        ir_stack@.last()@,
                    ));
                    assert(elements@.skip(0) =~= elements@);
                }
                match self.build_each(elements, 0, ir_stack, &scope) {
                    Err(e) => Err(e),
                    Ok(()) => match tail {
                        Some(t) => {
                            let id = self.id_gen.next();
                            let mut tail_scope = clone_scope(&scope);
                            tail_scope.push(id);
                            let ghost mid = ir_stack@;
                            ir_stack.push(IR::Tail { scope: clone_scope(&tail_scope), count: 1 });
                            proof {
                                assert(ir_seq_view(ir_stack@) =~= ir_seq_view(mid).push(
                                    IrV::Tail { scope: tail_scope@, count: 1 },
                                ));
                            }
                            let r = self.build_ir_into(t, ir_stack, tail_scope);
                            proof {
                                if lower_expr(*body, scope@, c0, cx) is Some {
                                    let t_all = lower_expr(*body, scope@, c0, cx).unwrap();
                                    assert(ir_seq_view(ir_stack@) =~= ir_seq_view(stack0)
                                        + t_all.0);
                                }
                            }
                            r
                        },
                        None => {
                            proof {
                                if lower_expr(*body, scope@, c0, cx) is Some {
                                    let t_all = lower_expr(*body, scope@, c0, cx).unwrap();
                                    assert(ir_seq_view(ir_stack@) =~= ir_seq_view(stack0)
                                        + t_all.0);
                                }
                            }
                            Ok(())
                        },
                    },
                }
            },
            TypedExpr::Call { fun, args } => {
                let count = match args.len().checked_add(1) {
                    Some(c) => c,
                    None => {
                        return Err(CodeGenError::Unsupported { construct: "call".to_owned() });
                    },
                };
                ir_stack.push(IR::Call { scope: clone_scope(&scope), count });
                proof {
                    assert(ir_seq_view(ir_stack@) =~= ir_seq_view(stack0).push(
                        IrV::Call { scope: scope@, count: count as nat },
                    ));
                }
                let id = self.id_gen.next();
                let mut fun_scope = clone_scope(&scope);
                fun_scope.push(id);
                match self.build_ir_into(fun, ir_stack, fun_scope) {
                    Err(e) => Err(e),
                    Ok(()) => {
                        proof {
                            assert(args@.skip(0) =~= args@);
                        }
                        let r = self.build_args(args, 0, ir_stack, &scope);
                        proof {
                            if lower_expr(*body, scope@, c0, cx) is Some {
                                let t_all = lower_expr(*body, scope@, c0, cx).unwrap();
                                assert(ir_seq_view(ir_stack@) =~= ir_seq_view(stack0) + t_all.0);
                            }
                        }
                        r
                    },
                }
            },
            TypedExpr::BinOp { name, left, right, tipo } => {
                ir_stack.push(
                    IR::BinOp {
                        scope: clone_scope(&scope),
                        name: *name,
                        count: 2,
                        tipo: clone_type(tipo),
                    },
                );
                proof {
                    assert(ir_seq_view(ir_stack@) =~= ir_seq_view(stack0).push(
                        IrV::BinOp { scope: scope@, name: *name, count: 2, tipo: tipo@ },
                    ));
                }
                let lid = self.id_gen.next();
                let mut left_scope = clone_scope(&scope);
                left_scope.push(lid);
                let rid = self.id_gen.next();
                let mut right_scope = clone_scope(&scope);
                right_scope.push(rid);
                match self.build_ir_into(left, ir_stack, left_scope) {
                    Err(e) => Err(e),
                    Ok(()) => {
                        let r = self.build_ir_into(right, ir_stack, right_scope);
                        proof {
                            if lower_expr(*body, scope@, c0, cx) is Some {
                                let t_all = lower_expr(*body, scope@, c0, cx).unwrap();
                                assert(ir_seq_view(ir_stack@) =~= ir_seq_view(stack0) + t_all.0);
                            }
                        }
                        r
                    },
                }
            },
            TypedExpr::Assignment { value, pattern, kind, tipo } => {
                let mut value_vec: Vec<IR> = Vec::new();
                let mut pattern_vec: Vec<IR> = Vec::new();
                let id = self.id_gen.next();
                let mut value_scope = clone_scope(&scope);
                value_scope.push(id);
                match self.build_ir_into(value, &mut value_vec, value_scope) {
                    Err(e) => Err(e),
                    Ok(()) => {
                        proof {
                            assert(ir_seq_view(value_vec@) =~= Seq::<IrV>::empty()
                                + ir_seq_view(value_vec@));
                        }
                        match self.assignment_ir_into(
                            pattern,
                            &mut pattern_vec,
                            &mut value_vec,
                            tipo,
                            *kind,
                            clone_scope(&scope),
                        ) {
                            Err(e) => Err(e),
                            Ok(()) => {
                                let ghost pvv = pattern_vec@;
                                ir_stack.append(&mut pattern_vec);
                                proof {
                                    lemma_ir_view_concat(stack0, pvv);
                                    if lower_expr(*body, scope@, c0, cx) is Some {
                                        let t_all = lower_expr(*body, scope@, c0, cx).unwrap();
                                        assert(ir_seq_view(ir_stack@) =~= ir_seq_view(stack0)
                                            + t_all.0);
                                    }
                                }
                                Ok(())
                            },
                        }
                    },
                }
            },
            TypedExpr::When { subjects, clauses, tipo } => {
                let r = self.build_when(subjects, clauses, tipo, ir_stack, scope);
                proof {
                    assert(*body == TypedExpr::When {
                        subjects: *subjects,
                        clauses: *clauses,
                        tipo: *tipo,
                    });
                }
                r
            },
            TypedExpr::RecordAccess { record, index, tipo } => {
                ir_stack.push(
                    IR::RecordAccess {
                        scope: clone_scope(&scope),
                        index: *index,
                        tipo: clone_type(tipo),
                    },
                );
                proof {
                    assert(ir_seq_view(ir_stack@) =~= ir_seq_view(stack0).push(
                        IrV::RecordAccess { scope: scope@, index: *index, tipo: tipo@ },
                    ));
                }
                self.needs_field_access = true;
                let r = self.build_ir_into(record, ir_stack, scope);
                proof {
                    if lower_expr(*body, scope@, c0, cx) is Some {
                        let t_all = lower_expr(*body, scope@, c0, cx).unwrap();
                        assert(ir_seq_view(ir_stack@) =~= ir_seq_view(stack0) + t_all.0);
                    }
                }
                r
            },
            TypedExpr::ModuleSelect { constructor, module_name } => {
                let r = self.build_module_select(constructor, module_name, ir_stack, scope);
                proof {
                    assert(*body == TypedExpr::ModuleSelect {
                        constructor: *constructor,
                        module_name: *module_name,
                    });
                }
                r
            },
            TypedExpr::Fn => Err(CodeGenError::Unsupported { construct: "fn".to_owned() }),
            TypedExpr::Trace => Err(CodeGenError::Unsupported { construct: "trace".to_owned() }),
            TypedExpr::If => Err(CodeGenError::Unsupported { construct: "if".to_owned() }),
            TypedExpr::Todo => Err(CodeGenError::Unsupported { construct: "todo".to_owned() }),
            TypedExpr::RecordUpdate => Err(
                CodeGenError::Unsupported { construct: "record update".to_owned() },
            ),
            TypedExpr::Negate => Err(CodeGenError::Unsupported { construct: "negate".to_owned() }),
            TypedExpr::Tuple => Err(CodeGenError::Unsupported { construct: "tuple".to_owned() }),
        }
    }

    /// Lowers a `when` expression: clause heads and bodies, the default
    /// branch, then the header and the subject.
    #[verifier::rlimit(100)]
    fn build_when(
        &mut self,
        subjects: &Vec<TypedExpr>,
        clauses: &Vec<TypedClause>,
        tipo: &Type,
        ir_stack: &mut Vec<IR>,
        scope: Vec<u64>,
    ) -> (r: Result<(), CodeGenError>)
        ensures
            final(self).same_tables(old(self)),
            final(self).defined_functions == old(self).defined_functions,
            r is Ok <==> lower_expr(
                (TypedExpr::When { subjects: *subjects, clauses: *clauses, tipo: *tipo }),
                scope@,
                old(self).id_gen.count,
                old(self).ctx(),
            ) is Some,
            lower_expr(
                (TypedExpr::When { subjects: *subjects, clauses: *clauses, tipo: *tipo }),
                scope@,
                old(self).id_gen.count,
                old(self).ctx(),
            ) matches Some(t) ==> ir_seq_view(final(ir_stack)@) == ir_seq_view(old(ir_stack)@)
                + t.0 && final(self).id_gen.count == t.1 && final(self).needs_field_access == (
            old(self).needs_field_access || t.2),
        decreases (TypedExpr::When { subjects: *subjects, clauses: *clauses, tipo: *tipo }), 2int,
    {
        let ghost body_e = TypedExpr::When { subjects: *subjects, clauses: *clauses, tipo: *tipo };
        let ghost c0 = self.id_gen.count;
        let ghost cx = self.ctx();
        let ghost stack0 = ir_stack@;

                if subjects.len() == 0 {
                    return Err(
                        CodeGenError::MissingDefinition { name: "when subject".to_owned() },
                    );
                }
                let sid = self.id_gen.next();
                let subject_name = prefixed_name("__subject_name_", sid);
                let cid = self.id_gen.next();
                let constr_var = prefixed_name("__constr_name_", cid);
                if clauses.len() == 0 {
                    proof {
                        assert(ir_seq_view(ir_stack@) =~= ir_seq_view(stack0)
                            + Seq::<IrV>::empty());
                    }
                    return Ok(());
                }
                let subject = &subjects[0];
                let limit = clauses.len() - 1;
                let mut pattern_vec: Vec<IR> = Vec::new();
                let mut needs_constr_var = false;
                proof {
                    assert(clauses@.subrange(0, limit as int) =~= clauses@.drop_last());
                    assert(ir_seq_view(pattern_vec@) =~= Seq::<IrV>::empty());
                }
                match self.build_clauses(
                    clauses,
                    0,
                    limit,
                    tipo,
                    &subject_name,
                    &constr_var,
                    &mut pattern_vec,
                    &mut needs_constr_var,
                    &scope,
                ) {
                    Err(e) => Err(e),
                    Ok(()) => {
                        let last = &clauses[limit];
                        let fid = self.id_gen.next();
                        let mut final_scope = clone_scope(&scope);
                        final_scope.push(fid);
                        if last.pattern.len() == 0 {
                            return Err(
                                CodeGenError::MissingDefinition {
                                    name: "clause pattern".to_owned(),
                                },
                            );
                        }
                        let ghost pv1 = pattern_vec@;
                        pattern_vec.push(IR::Finally { scope: clone_scope(&final_scope) });
                        proof {
                            assert(ir_seq_view(pattern_vec@) =~= ir_seq_view(pv1).push(
                                IrV::Finally { scope: final_scope@ },
                            ));
                        }
                        let mut clauses_vec: Vec<IR> = Vec::new();
                        match self.build_ir_into(&last.body, &mut clauses_vec, final_scope) {
                            Err(e) => Err(e),
                            Ok(()) => {
                                proof {
                                    assert(clauses@.last() == clauses@[limit as int]);
                                    assert(ir_seq_view(clauses_vec@) =~= Seq::<IrV>::empty()
                                        + ir_seq_view(clauses_vec@));
                                }
                                match self.when_ir_into(
                                    &last.pattern[0],
                                    &mut pattern_vec,
                                    &mut clauses_vec,
                                    tipo,
                                    constr_var.clone(),
                                    &mut needs_constr_var,
                                    clone_scope(&scope),
                                ) {
                                    Err(e) => Err(e),
                                    Ok(()) => {
                                        if needs_constr_var {
                                            let ghost s1 = ir_stack@;
                                            ir_stack.push(
                                                IR::Lam {
                                                    scope: clone_scope(&scope),
                                                    name: constr_var.clone(),
                                                },
                                            );
                                            proof {
                                                assert(ir_seq_view(ir_stack@) =~= ir_seq_view(
                                                    s1,
                                                ).push(
                                                    IrV::Lam { scope: scope@, name: constr_var@ },
                                                ));
                                            }
                                            match self.build_ir_into(
                                                subject,
                                                ir_stack,
                                                clone_scope(&scope),
                                            ) {
                                                Err(e) => Err(e),
                                                Ok(()) => {
                                                    let ghost s2 = ir_stack@;
                                                    ir_stack.push(
                                                        IR::When {
                                                            scope: clone_scope(&scope),
                                                            count: clauses.len(),
                                                            subject_name,
                                                            tipo: clone_type(tipo),
                                                        },
                                                    );
                                                    let vid = self.id_gen.next();
                                                    let mut var_scope = clone_scope(&scope);
                                                    var_scope.push(vid);
                                                    let ghost s3 = ir_stack@;
                                                    ir_stack.push(
                                                        IR::Var {
                                                            scope: var_scope,
                                                            constructor: ValueConstructor::public(
                                                                clone_type(tipo),
                                                                crate::ast::ValueConstructorVariant::LocalVariable,
                                                            ),
                                                            name: constr_var,
                                                        },
                                                    );
                                                    proof {
                                                        assert(ir_seq_view(s3) =~= ir_seq_view(
                                                            s2,
                                                        ).push(
                                                            IrV::When {
                                                                scope: scope@,
                                                                count: clauses@.len(),
                                                                subject_name: subject_name@,
                                                                tipo: tipo@,
                                                            },
                                                        ));
                                                        assert(ir_seq_view(ir_stack@)
                                                            =~= ir_seq_view(s3).push(
                                                            ir_stack@.last()@,
                                                        ));
                                                    }
                                                    let ghost s4 = ir_stack@;
                                                    let ghost pvv = pattern_vec@;
                                                    ir_stack.append(&mut pattern_vec);
                                                    proof {
                                                        lemma_ir_view_concat(s4, pvv);
                                                        if lower_expr(body_e, scope@, c0, cx)
                                                            is Some {
                                                            let t_all = lower_expr(
                                                                body_e,
                                                                scope@,
                                                                c0,
                                                                cx,
                                                            ).unwrap();
                                                            assert(ir_seq_view(ir_stack@)
                                                                =~= ir_seq_view(stack0) + t_all.0);
                                                        }
                                                    }
                                                    Ok(())
                                                },
                                            }
                                        } else {
                                            let ghost s1 = ir_stack@;
                                            ir_stack.push(
                                                IR::When {
                                                    scope: clone_scope(&scope),
                                                    count: clauses.len(),
                                                    subject_name,
                                                    tipo: clone_type(tipo),
                                                },
                                            );
                                            proof {
                                                assert(ir_seq_view(ir_stack@) =~= ir_seq_view(
                                                    s1,
                                                ).push(
                                                    IrV::When {
                                                        scope: scope@,
                                                        count: clauses@.len(),
                                                        subject_name: subject_name@,
                                                        tipo: tipo@,
                                                    },
                                                ));
                                            }
                                            let sid2 = self.id_gen.next();
                                            let mut subj_scope = clone_scope(&scope);
                                            subj_scope.push(sid2);
                                            match self.build_ir_into(subject, ir_stack, subj_scope) {
                                                Err(e) => Err(e),
                                                Ok(()) => {
                                                    let ghost s4 = ir_stack@;
                                                    let ghost pvv = pattern_vec@;
                                                    ir_stack.append(&mut pattern_vec);
                                                    proof {
                                                        lemma_ir_view_concat(s4, pvv);
                                                        if lower_expr(body_e, scope@, c0, cx)
                                                            is Some {
                                                            let t_all = lower_expr(
                                                                body_e,
                                                                scope@,
                                                                c0,
                                                                cx,
                                                            ).unwrap();
                                                            assert(ir_seq_view(ir_stack@)
                                                                =~= ir_seq_view(stack0) + t_all.0);
                                                        }
                                                    }
                                                    Ok(())
                                                },
                                            }
                                        }
                                    },
                                }
                            },
                        }
                    },
                }
            
    }

    /// Lowers a module selection: only a module function that resolves to a
    /// builtin has a lowering.
    fn build_module_select(
        &mut self,
        constructor: &ModuleValueConstructor,
        module_name: &String,
        ir_stack: &mut Vec<IR>,
        scope: Vec<u64>,
    ) -> (r: Result<(), CodeGenError>)
        ensures
            final(self).same_tables(old(self)),
            final(self).defined_functions == old(self).defined_functions,
            r is Ok <==> lower_expr(
                (TypedExpr::ModuleSelect {
                    constructor: *constructor,
                    module_name: *module_name,
                }),
                scope@,
                old(self).id_gen.count,
                old(self).ctx(),
            ) is Some,
            lower_expr(
                (TypedExpr::ModuleSelect {
                    constructor: *constructor,
                    module_name: *module_name,
                }),
                scope@,
                old(self).id_gen.count,
                old(self).ctx(),
            ) matches Some(t) ==> ir_seq_view(final(ir_stack)@) == ir_seq_view(old(ir_stack)@)
                + t.0 && final(self).id_gen.count == t.1 && final(self).needs_field_access == (
            old(self).needs_field_access || t.2),
            *constructor matches ModuleValueConstructor::Record ==> r matches Err(
                CodeGenError::Unsupported { construct },
            ) && construct@ == "module constructor"@,
            *constructor matches ModuleValueConstructor::Constant ==> r matches Err(
                CodeGenError::Unsupported { construct },
            ) && construct@ == "module constant"@,
        decreases (TypedExpr::ModuleSelect {
            constructor: *constructor,
            module_name: *module_name,
        }), 2int,
    {
        let ghost c0 = self.id_gen.count;
        let ghost cx = self.ctx();
        let ghost stack0 = ir_stack@;

                match constructor {
                    ModuleValueConstructor::Fn { name } => {
                        let flr = crate::ast::find_function(&self.functions, module_name, name);
                        match flr {
                            Some(_) => Err(
                                CodeGenError::Unsupported {
                                    construct: "module function reference".to_owned(),
                                },
                            ),
                            None => {
                                let mlr = crate::ast::find_module(&self.module_types, module_name);
                                match mlr {
                                None => Err(
                                    CodeGenError::MissingDefinition { name: module_name.clone() },
                                ),
                                Some(mi) => {
                                    let m_entry = &self.module_types[mi];
                                    proof {
                                        assert(*m_entry == self.module_types@[mi as int]);
                                    }
                                    let vlr = crate::ast::find_value(&m_entry.1.values, name);
                                    match vlr {
                                        None => Err(
                                            CodeGenError::MissingDefinition {
                                                name: name.clone(),
                                            },
                                        ),
                                        Some(vi) => {
                                            let v_entry = &m_entry.1.values[vi];
                                            proof {
                                                assert(*v_entry == self.module_types@[
                                                    mi as int
                                                ].1.values@[vi as int]);
                                            }
                                            match &v_entry.1.variant {
                                            crate::ast::ValueConstructorVariant::ModuleFn {
                                                builtin,
                                                ..
                                            } => match builtin {
                                                Some(b) => {
                                                    let func = *b;
                                                    ir_stack.push(IR::Builtin { scope, func });
                                                    proof {
                                                        assert(ir_seq_view(ir_stack@)
                                                            =~= ir_seq_view(stack0).push(
                                                            IrV::Builtin { scope: scope@, func },
                                                        ));
                                                    }
                                                    Ok(())
                                                },
                                                None => Err(
                                                    CodeGenError::MissingDefinition {
                                                        name: name.clone(),
                                                    },
                                                ),
                                            },
                                            _ => Err(
                                                CodeGenError::MissingDefinition {
                                                    name: name.clone(),
                                                },
                                            ),
                                        }
                                        },
                                    }
                                },
                            }
                            },
                        }
                    },
                    ModuleValueConstructor::Record => Err(
                        CodeGenError::Unsupported { construct: "module constructor".to_owned() },
                    ),
                    ModuleValueConstructor::Constant => Err(
                        CodeGenError::Unsupported { construct: "module constant".to_owned() },
                    ),
                }
            
    }

    /// Lowers the expressions of a sequence or pipeline from `start` on.
    fn build_each(
        &mut self,
        es: &Vec<TypedExpr>,
        start: usize,
        ir_stack: &mut Vec<IR>,
        scope: &Vec<u64>,
    ) -> (r: Result<(), CodeGenError>)
        requires
            start <= es@.len(),
        ensures
            final(self).same_tables(old(self)),
            final(self).defined_functions == old(self).defined_functions,
            r is Ok <==> lower_each(
                es@.skip(start as int),
                scope@,
                old(self).id_gen.count,
                old(self).ctx(),
            ) is Some,
            lower_each(es@.skip(start as int), scope@, old(self).id_gen.count, old(self).ctx())
                matches Some(t) ==> ir_seq_view(final(ir_stack)@) == ir_seq_view(old(ir_stack)@)
                + t.0 && final(self).id_gen.count == t.1 && final(self).needs_field_access == (
            old(self).needs_field_access || t.2),
        decreases es@, es@.len() - start,
    {
        let ghost c0 = self.id_gen.count;
        let ghost cx = self.ctx();
        let ghost stack0 = ir_stack@;
        if start == es.len() {
            proof {
                assert(es@.skip(start as int) =~= Seq::<TypedExpr>::empty());
                assert(ir_seq_view(ir_stack@) =~= ir_seq_view(stack0) + Seq::<IrV>::empty());
            }
            Ok(())
        } else {
            proof {
                assert(es@.skip(start as int)[0] == es@[start as int]);
                assert(es@.skip(start as int).skip(1) =~= es@.skip(start as int + 1));
            }
            let id = self.id_gen.next();
            let mut child = clone_scope(scope);
            child.push(id);
            match self.build_ir_into(&es[start], ir_stack, child) {
                Err(e) => Err(e),
                Ok(()) => {
                    let r = self.build_each(es, start + 1, ir_stack, scope);
                    proof {
                        if lower_each(es@.skip(start as int), scope@, c0, cx) is Some {
                            let t_all = lower_each(es@.skip(start as int), scope@, c0, cx)
                                .unwrap();
                            assert(ir_seq_view(ir_stack@) =~= ir_seq_view(stack0) + t_all.0);
                        }
                    }
                    r
                },
            }
        }
    }

    /// Lowers call arguments from `start` on.
    fn build_args(
        &mut self,
        args: &Vec<CallArg>,
        start: usize,
        ir_stack: &mut Vec<IR>,
        scope: &Vec<u64>,
    ) -> (r: Result<(), CodeGenError>)
        requires
            start <= args@.len(),
        ensures
            final(self).same_tables(old(self)),
            final(self).defined_functions == old(self).defined_functions,
            r is Ok <==> lower_args(
                args@.skip(start as int),
                scope@,
                old(self).id_gen.count,
                old(self).ctx(),
            ) is Some,
            lower_args(args@.skip(start as int), scope@, old(self).id_gen.count, old(self).ctx())
                matches Some(t) ==> ir_seq_view(final(ir_stack)@) == ir_seq_view(old(ir_stack)@)
                + t.0 && final(self).id_gen.count == t.1 && final(self).needs_field_access == (
            old(self).needs_field_access || t.2),
        decreases args@, args@.len() - start,
    {
        let ghost c0 = self.id_gen.count;
        let ghost cx = self.ctx();
        let ghost stack0 = ir_stack@;
        if start == args.len() {
            proof {
                assert(args@.skip(start as int) =~= Seq::<CallArg>::empty());
                assert(ir_seq_view(ir_stack@) =~= ir_seq_view(stack0) + Seq::<IrV>::empty());
            }
            Ok(())
        } else {
            proof {
                assert(args@.skip(start as int)[0] == args@[start as int]);
                assert(args@.skip(start as int).skip(1) =~= args@.skip(start as int + 1));
            }
            let id = self.id_gen.next();
            let mut child = clone_scope(scope);
            child.push(id);
            match self.build_ir_into(&args[start].value, ir_stack, child) {
                Err(e) => Err(e),
                Ok(()) => {
                    let r = self.build_args(args, start + 1, ir_stack, scope);
                    proof {
                        if lower_args(args@.skip(start as int), scope@, c0, cx) is Some {
                            let t_all = lower_args(args@.skip(start as int), scope@, c0, cx)
                                .unwrap();
                            assert(ir_seq_view(ir_stack@) =~= ir_seq_view(stack0) + t_all.0);
                        }
                    }
                    r
                },
            }
        }
    }

    /// Lowers the non-default clauses `start..limit` of a `when`.
    fn build_clauses(
        &mut self,
        cs: &Vec<TypedClause>,
        start: usize,
        limit: usize,
        tipo: &Type,
        subject_name: &String,
        constr_var: &String,
        pattern_vec: &mut Vec<IR>,
        needs_constr_var: &mut bool,
        scope: &Vec<u64>,
    ) -> (r: Result<(), CodeGenError>)
        requires
            start <= limit <= cs@.len(),
        ensures
            final(self).same_tables(old(self)),
            final(self).defined_functions == old(self).defined_functions,
            r is Ok <==> lower_clauses(
                cs@.subrange(start as int, limit as int),
                tipo@,
                subject_name@,
                constr_var@,
                scope@,
                old(self).id_gen.count,
                old(self).ctx(),
            ) is Some,
            lower_clauses(
                cs@.subrange(start as int, limit as int),
                tipo@,
                subject_name@,
                constr_var@,
                scope@,
                old(self).id_gen.count,
                old(self).ctx(),
            ) matches Some(t) ==> ir_seq_view(final(pattern_vec)@) == ir_seq_view(
                old(pattern_vec)@,
            ) + t.0 && final(self).id_gen.count == t.1 && final(self).needs_field_access == (old(
                self,
            ).needs_field_access || t.2) && *final(needs_constr_var) == (*old(needs_constr_var)
                || t.3),
        decreases cs@, limit - start,
    {
        let ghost c0 = self.id_gen.count;
        let ghost cx = self.ctx();
        let ghost pv0 = pattern_vec@;
        if start == limit {
            proof {
                assert(cs@.subrange(start as int, limit as int) =~= Seq::<TypedClause>::empty());
                assert(ir_seq_view(pattern_vec@) =~= ir_seq_view(pv0) + Seq::<IrV>::empty());
            }
            Ok(())
        } else {
            proof {
                assert(cs@.subrange(start as int, limit as int)[0] == cs@[start as int]);
                assert(cs@.subrange(start as int, limit as int).skip(1) =~= cs@.subrange(
                    start as int + 1,
                    limit as int,
                ));
            }
            let clause = &cs[start];
            if clause.pattern.len() == 0 {
                return Err(CodeGenError::MissingDefinition { name: "clause pattern".to_owned() });
            }
            let id = self.id_gen.next();
            let mut cscope = clone_scope(scope);
            cscope.push(id);
            pattern_vec.push(
                IR::Clause {
                    scope: clone_scope(&cscope),
                    count: 2,
                    subject_name: subject_name.clone(),
                    tipo: clone_type(tipo),
                },
            );
            proof {
                assert(ir_seq_view(pattern_vec@) =~= ir_seq_view(pv0).push(
                    IrV::Clause {
                        scope: cscope@,
                        count: 2,
                        subject_name: subject_name@,
                        tipo: tipo@,
                    },
                ));
            }
            let mut clauses_vec: Vec<IR> = Vec::new();
            match self.build_ir_into(&clause.body, &mut clauses_vec, clone_scope(&cscope)) {
                Err(e) => Err(e),
                Ok(()) => {
                    proof {
                        assert(ir_seq_view(clauses_vec@) =~= Seq::<IrV>::empty() + ir_seq_view(
                            clauses_vec@,
                        ));
                    }
                    match self.when_ir_into(
                        &clause.pattern[0],
                        pattern_vec,
                        &mut clauses_vec,
                        tipo,
                        constr_var.clone(),
                        needs_constr_var,
                        cscope,
                    ) {
                        Err(e) => Err(e),
                        Ok(()) => {
                            let r = self.build_clauses(
                                cs,
                                start + 1,
                                limit,
                                tipo,
                                subject_name,
                                constr_var,
                                pattern_vec,
                                needs_constr_var,
                                scope,
                            );
                            proof {
                                let pre = lower_clauses(
                                    cs@.subrange(start as int, limit as int),
                                    tipo@,
                                    subject_name@,
                                    constr_var@,
                                    scope@,
                                    c0,
                                    cx,
                                );
                                if pre is Some {
                                    let t_all = pre.unwrap();
                                    assert(ir_seq_view(pattern_vec@) =~= ir_seq_view(pv0)
                                        + t_all.0);
                                }
                            }
                            r
                        },
                    }
                },
            }
        }
    }

    /// Emits the binding IR for a let-style assignment: the pattern head,
    /// then the lowered value, draining `value_vec`.
    fn assignment_ir_into(
        &mut self,
        pattern: &Pattern,
        pattern_vec: &mut Vec<IR>,
        value_vec: &mut Vec<IR>,
        _tipo: &Type,
        kind: AssignmentKind,
        scope: Vec<u64>,
    ) -> (r: Result<(), CodeGenError>)
        ensures
            final(self).same_tables(old(self)),
            final(self).defined_functions == old(self).defined_functions,
            final(self).needs_field_access == old(self).needs_field_access,
            r is Ok <==> assign_pattern(
                *pattern,
                ir_seq_view(old(value_vec)@),
                kind,
                scope@,
                old(self).id_gen.count,
                old(self).ctx(),
            ) is Some,
            assign_pattern(
                *pattern,
                ir_seq_view(old(value_vec)@),
                kind,
                scope@,
                old(self).id_gen.count,
                old(self).ctx(),
            ) matches Some(t) ==> ir_seq_view(final(pattern_vec)@) == ir_seq_view(
                old(pattern_vec)@,
            ) + t.0 && final(self).id_gen.count == t.1 && final(value_vec)@.len() == 0,
        decreases *pattern, 2int,
    {
        let ghost pv0 = pattern_vec@;
        match pattern {
            Pattern::Var { name } => {
                pattern_vec.push(IR::Assignment { scope, name: name.clone(), kind });
                let ghost pv1 = pattern_vec@;
                pattern_vec.append(value_vec);
                proof {
                    assert(ir_seq_view(pv1) =~= ir_seq_view(pv0).push(pv1.last()@));
                    lemma_ir_view_concat(pv1, old(value_vec)@);
                    assert(ir_seq_view(pattern_vec@) =~= ir_seq_view(pv0) + (seq![
                        IrV::Assignment { scope: scope@, name: name@, kind },
                    ] + ir_seq_view(old(value_vec)@)));
                }
                Ok(())
            },
            Pattern::List { .. } => self.pattern_ir_into(pattern, pattern_vec, value_vec, scope),
            _ => Err(CodeGenError::Unsupported { construct: "assignment pattern".to_owned() }),
        }
    }

    /// Emits the clause-head IR for a `when` branch pattern, draining
    /// `values` (the lowered clause body).
    fn when_ir_into(
        &mut self,
        pattern: &Pattern,
        pattern_vec: &mut Vec<IR>,
        values: &mut Vec<IR>,
        tipo: &Type,
        constr_var: String,
        needs_constr_var: &mut bool,
        scope: Vec<u64>,
    ) -> (r: Result<(), CodeGenError>)
        ensures
            final(self).same_tables(old(self)),
            final(self).defined_functions == old(self).defined_functions,
            final(self).needs_field_access == old(self).needs_field_access,
            r is Ok <==> when_pattern(
                *pattern,
                ir_seq_view(old(values)@),
                tipo@,
                constr_var@,
                scope@,
                old(self).id_gen.count,
                old(self).ctx(),
            ) is Some,
            when_pattern(
                *pattern,
                ir_seq_view(old(values)@),
                tipo@,
                constr_var@,
                scope@,
                old(self).id_gen.count,
                old(self).ctx(),
            ) matches Some(t) ==> ir_seq_view(final(pattern_vec)@) == ir_seq_view(
                old(pattern_vec)@,
            ) + t.0 && final(self).id_gen.count == t.1 && *final(needs_constr_var) == (*old(
                needs_constr_var,
            ) || t.2) && final(values)@.len() == 0,
        decreases *pattern, 2int,
    {
        let ghost pv0 = pattern_vec@;
        match pattern {
            Pattern::Int { value } => {
                pattern_vec.push(IR::Int { scope, value: value.clone() });
                let ghost pv1 = pattern_vec@;
                pattern_vec.append(values);
                proof {
                    assert(ir_seq_view(pv1) =~= ir_seq_view(pv0).push(pv1.last()@));
                    lemma_ir_view_concat(pv1, old(values)@);
                    assert(ir_seq_view(pattern_vec@) =~= ir_seq_view(pv0) + (seq![
                        IrV::Int { scope: scope@, value: value@ },
                    ] + ir_seq_view(old(values)@)));
                }
                Ok(())
            },
            Pattern::Discard { .. } => {
                pattern_vec.push(IR::Discard { scope });
                let ghost pv1 = pattern_vec@;
                pattern_vec.append(values);
                proof {
                    assert(ir_seq_view(pv1) =~= ir_seq_view(pv0).push(pv1.last()@));
                    lemma_ir_view_concat(pv1, old(values)@);
                    assert(ir_seq_view(pattern_vec@) =~= ir_seq_view(pv0) + (seq![
                        IrV::Discard { scope: scope@ },
                    ] + ir_seq_view(old(values)@)));
                }
                Ok(())
            },
            Pattern::Constructor { arguments, .. } => {
                let needs = args_need_access(arguments);
                if needs {
                    *needs_constr_var = true;
                    let mut new_vec: Vec<IR> = Vec::new();
                    new_vec.push(
                        IR::Var {
                            scope: clone_scope(&scope),
                            constructor: ValueConstructor::public(
                                clone_type(tipo),
                                crate::ast::ValueConstructorVariant::LocalVariable,
                            ),
                            name: constr_var,
                        },
                    );
                    let ghost nv1 = new_vec@;
                    new_vec.append(values);
                    proof {
                        assert(ir_seq_view(nv1) =~= seq![nv1[0]@]);
                        lemma_ir_view_concat(nv1, old(values)@);
                        assert(ir_seq_view(new_vec@) =~= seq![
                            IrV::Var {
                                scope: scope@,
                                constructor: local_var(tipo@),
                                name: constr_var@,
                            },
                        ] + ir_seq_view(old(values)@));
                    }
                    self.pattern_ir_into(pattern, pattern_vec, &mut new_vec, scope)
                } else {
                    self.pattern_ir_into(pattern, pattern_vec, values, scope)
                }
            },
            _ => Err(CodeGenError::Unsupported { construct: "clause pattern".to_owned() }),
        }
    }

    /// Collects the names a list pattern binds from element `start` on,
    /// emitting destructuring IR for nested list patterns.
    fn build_list_elems(
        &mut self,
        es: &Vec<Pattern>,
        start: usize,
        names: &mut Vec<String>,
        elements_vec: &mut Vec<IR>,
        scope: &Vec<u64>,
    ) -> (r: Result<(), CodeGenError>)
        requires
            start <= es@.len(),
        ensures
            final(self).same_tables(old(self)),
            final(self).defined_functions == old(self).defined_functions,
            final(self).needs_field_access == old(self).needs_field_access,
            r is Ok <==> pattern_list_elems(
                es@.skip(start as int),
                scope@,
                old(self).id_gen.count,
                old(self).ctx(),
            ) is Some,
            pattern_list_elems(
                es@.skip(start as int),
                scope@,
                old(self).id_gen.count,
                old(self).ctx(),
            ) matches Some(t) ==> crate::ir::names_view(final(names)@) == crate::ir::names_view(
                old(names)@,
            ) + t.0 && ir_seq_view(final(elements_vec)@) == ir_seq_view(old(elements_vec)@) + t.1
                && final(self).id_gen.count == t.2,
        decreases es@, es@.len() - start,
    {
        let ghost c0 = self.id_gen.count;
        let ghost cx = self.ctx();
        let ghost ns0 = names@;
        let ghost ev0 = elements_vec@;
        if start == es.len() {
            proof {
                assert(es@.skip(start as int) =~= Seq::<Pattern>::empty());
                assert(crate::ir::names_view(names@) =~= crate::ir::names_view(ns0) + Seq::<
                    Seq<char>,
                >::empty());
                assert(ir_seq_view(elements_vec@) =~= ir_seq_view(ev0) + Seq::<IrV>::empty());
            }
            Ok(())
        } else {
            proof {
                assert(es@.skip(start as int)[0] == es@[start as int]);
                assert(es@.skip(start as int).skip(1) =~= es@.skip(start as int + 1));
            }
            match &es[start] {
                Pattern::Var { name } => {
                    names.push(name.clone());
                    proof {
                        assert(crate::ir::names_view(names@) =~= crate::ir::names_view(ns0).push(
                            name@,
                        ));
                    }
                    let r = self.build_list_elems(es, start + 1, names, elements_vec, scope);
                    proof {
                        let pre = pattern_list_elems(es@.skip(start as int), scope@, c0, cx);
                        if pre is Some {
                            let t_all = pre.unwrap();
                            assert(crate::ir::names_view(names@) =~= crate::ir::names_view(ns0)
                                + t_all.0);
                        }
                    }
                    r
                },
                Pattern::List { .. } => {
                    let id = self.id_gen.next();
                    let item_name = prefixed_name("list_item_id_", id);
                    names.push(item_name.clone());
                    proof {
                        assert(crate::ir::names_view(names@) =~= crate::ir::names_view(ns0).push(
                            item_name@,
                        ));
                    }
                    let mut var_vec: Vec<IR> = Vec::new();
                    var_vec.push(
                        IR::Var {
                            scope: clone_scope(scope),
                            constructor: ValueConstructor::public(
                                Type::App {
                                    module: String::new(),
                                    name: String::new(),
                                    args: Vec::new(),
                                },
                                crate::ast::ValueConstructorVariant::LocalVariable,
                            ),
                            name: item_name,
                        },
                    );
                    proof {
                        assert(crate::ast::type_seq_view(Seq::<Type>::empty()) =~= Seq::<
                            TypeV,
                        >::empty());
                        assert(ir_seq_view(var_vec@) =~= seq![
                            IrV::Var {
                                scope: scope@,
                                constructor: local_var(blank_app_type()),
                                name: prefixed_name_spec("list_item_id_"@, id),
                            },
                        ]);
                    }
                    match self.pattern_ir_into(&es[start], elements_vec, &mut var_vec, clone_scope(
                        scope,
                    )) {
                        Err(e) => Err(e),
                        Ok(()) => {
                            let r = self.build_list_elems(
                                es,
                                start + 1,
                                names,
                                elements_vec,
                                scope,
                            );
                            proof {
                                let pre = pattern_list_elems(
                                    es@.skip(start as int),
                                    scope@,
                                    c0,
                                    cx,
                                );
                                if pre is Some {
                                    let t_all = pre.unwrap();
                                    assert(crate::ir::names_view(names@) =~= crate::ir::names_view(
                                        ns0,
                                    ) + t_all.0);
                                    assert(ir_seq_view(elements_vec@) =~= ir_seq_view(ev0)
                                        + t_all.1);
                                }
                            }
                            r
                        },
                    }
                },
                _ => Err(
                    CodeGenError::Unsupported { construct: "list element pattern".to_owned() },
                ),
            }
        }
    }

    /// The recursive pattern worker: emits destructuring IR for list and
    /// constructor patterns, draining `values`.
    #[verifier::rlimit(100)]
    fn pattern_ir_into(
        &mut self,
        pattern: &Pattern,
        pattern_vec: &mut Vec<IR>,
        values: &mut Vec<IR>,
        scope: Vec<u64>,
    ) -> (r: Result<(), CodeGenError>)
        ensures
            final(self).same_tables(old(self)),
            final(self).defined_functions == old(self).defined_functions,
            final(self).needs_field_access == old(self).needs_field_access,
            r is Ok <==> pattern_spec(
                *pattern,
                ir_seq_view(old(values)@),
                scope@,
                old(self).id_gen.count,
                old(self).ctx(),
            ) is Some,
            pattern_spec(
                *pattern,
                ir_seq_view(old(values)@),
                scope@,
                old(self).id_gen.count,
                old(self).ctx(),
            ) matches Some(t) ==> ir_seq_view(final(pattern_vec)@) == ir_seq_view(
                old(pattern_vec)@,
            ) + t.0 && final(self).id_gen.count == t.1 && final(values)@.len() == 0,
        decreases *pattern, 1int,
    {
        let ghost pv0 = pattern_vec@;
        let ghost vals0 = ir_seq_view(values@);
        match pattern {
            Pattern::Discard { .. } => {
                pattern_vec.push(IR::Discard { scope });
                let ghost pv1 = pattern_vec@;
                pattern_vec.append(values);
                proof {
                    assert(ir_seq_view(pv1) =~= ir_seq_view(pv0).push(pv1.last()@));
                    lemma_ir_view_concat(pv1, old(values)@);
                    assert(ir_seq_view(pattern_vec@) =~= ir_seq_view(pv0) + (seq![
                        IrV::Discard { scope: scope@ },
                    ] + vals0));
                }
                Ok(())
            },
            Pattern::List { elements, tail } => {
                let mut elements_vec: Vec<IR> = Vec::new();
                let mut names: Vec<String> = Vec::new();
                proof {
                    assert(elements@.skip(0) =~= elements@);
                    assert(crate::ir::names_view(Seq::<String>::empty()) =~= Seq::<
                        Seq<char>,
                    >::empty());
                    assert(ir_seq_view(Seq::<IR>::empty()) =~= Seq::<IrV>::empty());
                }
                match self.build_list_elems(elements, 0, &mut names, &mut elements_vec, &scope) {
                    Err(e) => Err(e),
                    Ok(()) => {
                        let ghost base_names = crate::ir::names_view(names@);
                        match tail {
                            Some(t) => match &**t {
                                Pattern::Var { name } => {
                                    names.push(name.clone());
                                    proof {
                                        assert(crate::ir::names_view(names@) =~= base_names.push(
                                            name@,
                                        ));
                                    }
                                },
                                Pattern::Discard { .. } => {},
                                _ => {
                                    return Err(
                                        CodeGenError::Unsupported {
                                            construct: "list tail pattern".to_owned(),
                                        },
                                    );
                                },
                            },
                            None => {},
                        }
                        pattern_vec.push(
                            IR::ListAccessor { scope, names, tail: tail.is_some() },
                        );
                        let ghost pv1 = pattern_vec@;
                        pattern_vec.append(values);
                        let ghost pv2 = pattern_vec@;
                        let ghost evv = elements_vec@;
                        pattern_vec.append(&mut elements_vec);
                        proof {
                            assert(ir_seq_view(pv1) =~= ir_seq_view(pv0).push(pv1.last()@));
                            lemma_ir_view_concat(pv1, old(values)@);
                            lemma_ir_view_concat(pv2, evv);
                            let pre = pattern_spec(*pattern, vals0, scope@, old(self).id_gen.count,
                                old(self).ctx());
                            if pre is Some {
                                let t_all = pre.unwrap();
                                assert(ir_seq_view(pattern_vec@) =~= ir_seq_view(pv0) + t_all.0);
                            }
                        }
                        Ok(())
                    },
                }
            },
            Pattern::Constructor { is_record, name, arguments, constructor, tipo } => {
                let key: (&String, &String) = match tipo {
                    Type::Fn { ret, .. } => match &**ret {
                        Type::App { module, name: tname, .. } => {
                            proof {
                                assert((**ret)@ matches TypeV::App { .. });
                            }
                            (module, tname)
                        },
                        Type::Fn { .. } => {
                            proof {
                                assert((**ret)@ matches TypeV::Fn { .. });
                            }
                            return Err(
                                CodeGenError::MissingDefinition {
                                    name: "constructor type".to_owned(),
                                },
                            );
                        },
                        Type::Var => {
                            proof {
                                assert((**ret)@ == TypeV::Var);
                            }
                            return Err(
                                CodeGenError::MissingDefinition {
                                    name: "constructor type".to_owned(),
                                },
                            );
                        },
                        Type::Tuple => {
                            proof {
                                assert((**ret)@ == TypeV::Tuple);
                            }
                            return Err(
                                CodeGenError::MissingDefinition {
                                    name: "constructor type".to_owned(),
                                },
                            );
                        },
                    },
                    Type::App { module, name: tname, .. } => (module, tname),
                    Type::Var => {
                        return Err(
                            CodeGenError::MissingDefinition {
                                name: "constructor type".to_owned(),
                            },
                        );
                    },
                    Type::Tuple => {
                        return Err(
                            CodeGenError::MissingDefinition {
                                name: "constructor type".to_owned(),
                            },
                        );
                    },
                };
                let dlr = crate::ast::find_data_type(&self.data_types, key.0, key.1);
                let di = match dlr {
                    Some(di) => di,
                    None => {
                        return Err(CodeGenError::MissingDefinition { name: key.1.clone() });
                    },
                };
                let dt_entry = &self.data_types[di];
                proof {
                    assert(*dt_entry == self.data_types@[di as int]);
                }
                let clr = crate::ast::find_constructor(&dt_entry.1.constructors, name);
                let ci = match clr {
                    Some(ci) => ci,
                    None => {
                        return Err(CodeGenError::MissingDefinition { name: name.clone() });
                    },
                };
                let ctype = &dt_entry.1.constructors[ci];
                proof {
                    assert(*ctype == self.data_types@[di as int].1.constructors@[ci as int]);
                }
                pattern_vec.push(
                    IR::Int { scope: clone_scope(&scope), value: u64_to_decimal(ci as u64) },
                );
                proof {
                    assert(ir_seq_view(pattern_vec@) =~= ir_seq_view(pv0).push(
                        IrV::Int { scope: scope@, value: dec_str(ci as int) },
                    ));
                }
                let ghost pv1 = pattern_vec@;
                let indices: Vec<(usize, String, Type)> = if *is_record {
                    let fm = match constructor {
                        PatternConstructor::Record { field_map, .. } => match field_map {
                            Some(fm) => fm,
                            None => {
                                return Err(
                                    CodeGenError::MissingDefinition {
                                        name: "field map".to_owned(),
                                    },
                                );
                            },
                        },
                    };
                    if !record_labels_ok_exec(&ctype.arguments) {
                        return Err(
                            CodeGenError::MissingDefinition { name: "field label".to_owned() },
                        );
                    }
                    let resolved = match resolve_record_all(arguments, &fm.fields, &ctype.arguments) {
                        Ok(v) => v,
                        Err(e) => {
                            return Err(e);
                        },
                    };
                    sort_indices(resolved)
                } else {
                    match resolve_positional_all(arguments, &ctype.arguments) {
                        Ok(v) => v,
                        Err(e) => {
                            return Err(e);
                        },
                    }
                };
                if indices.len() > 0 {
                    let count = match indices.len().checked_add(2) {
                        Some(c) => c,
                        None => {
                            return Err(
                                CodeGenError::Unsupported { construct: "fields".to_owned() },
                            );
                        },
                    };
                    pattern_vec.push(IR::FieldsExpose { scope, count, indices });
                    proof {
                        assert(ir_seq_view(pattern_vec@) =~= ir_seq_view(pv1).push(
                            pattern_vec@.last()@,
                        ));
                    }
                } else {
                    proof {
                        assert(crate::ir::indices_view(indices@).len() == indices@.len());
                    }
                }
                let ghost pv2 = pattern_vec@;
                pattern_vec.append(values);
                proof {
                    lemma_ir_view_concat(pv2, old(values)@);
                    let pre = pattern_spec(*pattern, vals0, scope@, old(self).id_gen.count,
                        old(self).ctx());
                    if pre is Some {
                        let t_all = pre.unwrap();
                        assert(ir_seq_view(pattern_vec@) =~= ir_seq_view(pv0) + t_all.0);
                    }
                }
                Ok(())
            },
            _ => Err(CodeGenError::Unsupported { construct: "pattern".to_owned() }),
        }
    }
}

impl CodeGenerator {
    /// Lowers a typed expression, appending its IR to `ir_stack`. On success
    /// the appended nodes, the counter afterwards and the need for
    /// field-access helpers are exactly what `lower_expr` states; on an
    /// error — an unsupported construct, named in the error, or a name the
    /// tables cannot resolve — the produced IR is discarded and the
    /// generator is left as it was.
    pub fn build_ir(&mut self, body: &TypedExpr, ir_stack: &mut Vec<IR>, scope: Vec<u64>) -> (r:
        Result<(), CodeGenError>)
        ensures
            final(self).same_tables(old(self)),
            final(self).defined_functions == old(self).defined_functions,
            r is Ok <==> lower_expr(*body, scope@, old(self).id_gen.count, old(self).ctx())
                is Some,
            lower_expr(*body, scope@, old(self).id_gen.count, old(self).ctx()) matches Some(t)
                ==> ir_seq_view(final(ir_stack)@) == ir_seq_view(old(ir_stack)@) + t.0
                && final(self).id_gen.count == t.1 && final(self).needs_field_access == (old(
                self,
            ).needs_field_access || t.2),
            unsupported_construct(*body) matches Some(c) ==> r matches Err(
                CodeGenError::Unsupported { construct },
            ) && construct@ == c,
            r is Err ==> *final(ir_stack) == *old(ir_stack) && final(self).id_gen.count == old(
                self,
            ).id_gen.count && final(self).needs_field_access == old(self).needs_field_access,
    {
        let saved_count = self.id_gen.count;
        let saved_nfa = self.needs_field_access;
        let mut produced: Vec<IR> = Vec::new();
        match self.build_ir_into(body, &mut produced, scope) {
            Ok(()) => {
                let ghost stack0 = ir_stack@;
                let ghost prod = produced@;
                ir_stack.append(&mut produced);
                proof {
                    lemma_ir_view_concat(stack0, prod);
                    assert(ir_seq_view(prod) =~= Seq::<IrV>::empty() + ir_seq_view(prod));
                }
                Ok(())
            },
            Err(e) => {
                self.id_gen.count = saved_count;
                self.needs_field_access = saved_nfa;
                Err(e)
            },
        }
    }

    /// Emits the binding IR for a let-style assignment into `pattern_vec`:
    /// the pattern head, then the lowered value, draining `value_vec`. On an
    /// error `pattern_vec` and the generator are left as they were.
    pub fn assignment_ir(
        &mut self,
        pattern: &Pattern,
        pattern_vec: &mut Vec<IR>,
        value_vec: &mut Vec<IR>,
        _tipo: &Type,
        kind: AssignmentKind,
        scope: Vec<u64>,
    ) -> (r: Result<(), CodeGenError>)
        ensures
            final(self).same_tables(old(self)),
            final(self).defined_functions == old(self).defined_functions,
            final(self).needs_field_access == old(self).needs_field_access,
            r is Ok <==> assign_pattern(
                *pattern,
                ir_seq_view(old(value_vec)@),
                kind,
                scope@,
                old(self).id_gen.count,
                old(self).ctx(),
            ) is Some,
            assign_pattern(
                *pattern,
                ir_seq_view(old(value_vec)@),
                kind,
                scope@,
                old(self).id_gen.count,
                old(self).ctx(),
            ) matches Some(t) ==> ir_seq_view(final(pattern_vec)@) == ir_seq_view(
                old(pattern_vec)@,
            ) + t.0 && final(self).id_gen.count == t.1 && final(value_vec)@.len() == 0,
            r is Err ==> *final(pattern_vec) == *old(pattern_vec) && final(self).id_gen.count
                == old(self).id_gen.count,
    {
        let saved_count = self.id_gen.count;
        let mut produced: Vec<IR> = Vec::new();
        match self.assignment_ir_into(pattern, &mut produced, value_vec, _tipo, kind, scope) {
            Ok(()) => {
                let ghost pv0 = pattern_vec@;
                let ghost prod = produced@;
                pattern_vec.append(&mut produced);
                proof {
                    lemma_ir_view_concat(pv0, prod);
                    assert(ir_seq_view(prod) =~= Seq::<IrV>::empty() + ir_seq_view(prod));
                }
                Ok(())
            },
            Err(e) => {
                self.id_gen.count = saved_count;
                Err(e)
            },
        }
    }

    /// Emits the clause-head IR for a `when` branch pattern into
    /// `pattern_vec`, draining `values` (the lowered clause body). On an
    /// error `pattern_vec`, the recursion mark and the generator are left as
    /// they were.
    pub fn when_ir(
        &mut self,
        pattern: &Pattern,
        pattern_vec: &mut Vec<IR>,
        values: &mut Vec<IR>,
        tipo: &Type,
        constr_var: String,
        needs_constr_var: &mut bool,
        scope: Vec<u64>,
    ) -> (r: Result<(), CodeGenError>)
        ensures
            final(self).same_tables(old(self)),
            final(self).defined_functions == old(self).defined_functions,
            final(self).needs_field_access == old(self).needs_field_access,
            r is Ok <==> when_pattern(
                *pattern,
                ir_seq_view(old(values)@),
                tipo@,
                constr_var@,
                scope@,
                old(self).id_gen.count,
                old(self).ctx(),
            ) is Some,
            when_pattern(
                *pattern,
                ir_seq_view(old(values)@),
                tipo@,
                constr_var@,
                scope@,
                old(self).id_gen.count,
                old(self).ctx(),
            ) matches Some(t) ==> ir_seq_view(final(pattern_vec)@) == ir_seq_view(
                old(pattern_vec)@,
            ) + t.0 && final(self).id_gen.count == t.1 && *final(needs_constr_var) == (*old(
                needs_constr_var,
            ) || t.2) && final(values)@.len() == 0,
            r is Err ==> *final(pattern_vec) == *old(pattern_vec) && *final(needs_constr_var)
                == *old(needs_constr_var) && final(self).id_gen.count == old(self).id_gen.count,
    {
        let saved_count = self.id_gen.count;
        let saved_mark = *needs_constr_var;
        let mut produced: Vec<IR> = Vec::new();
        match self.when_ir_into(
            pattern,
            &mut produced,
            values,
            tipo,
            constr_var,
            needs_constr_var,
            scope,
        ) {
            Ok(()) => {
                let ghost pv0 = pattern_vec@;
                let ghost prod = produced@;
                pattern_vec.append(&mut produced);
                proof {
                    lemma_ir_view_concat(pv0, prod);
                    assert(ir_seq_view(prod) =~= Seq::<IrV>::empty() + ir_seq_view(prod));
                }
                Ok(())
            },
            Err(e) => {
                self.id_gen.count = saved_count;
                *needs_constr_var = saved_mark;
                Err(e)
            },
        }
    }

    /// The recursive pattern worker: emits destructuring IR for list and
    /// constructor patterns into `pattern_vec`, draining `values`. On an
    /// error `pattern_vec` and the generator are left as they were.
    pub fn pattern_ir(
        &mut self,
        pattern: &Pattern,
        pattern_vec: &mut Vec<IR>,
        values: &mut Vec<IR>,
        scope: Vec<u64>,
    ) -> (r: Result<(), CodeGenError>)
        ensures
            final(self).same_tables(old(self)),
            final(self).defined_functions == old(self).defined_functions,
            final(self).needs_field_access == old(self).needs_field_access,
            r is Ok <==> pattern_spec(
                *pattern,
                ir_seq_view(old(values)@),
                scope@,
                old(self).id_gen.count,
                old(self).ctx(),
            ) is Some,
            pattern_spec(
                *pattern,
                ir_seq_view(old(values)@),
                scope@,
                old(self).id_gen.count,
                old(self).ctx(),
            ) matches Some(t) ==> ir_seq_view(final(pattern_vec)@) == ir_seq_view(
                old(pattern_vec)@,
            ) + t.0 && final(self).id_gen.count == t.1 && final(values)@.len() == 0,
            r is Err ==> *final(pattern_vec) == *old(pattern_vec) && final(self).id_gen.count
                == old(self).id_gen.count,
    {
        let saved_count = self.id_gen.count;
        let mut produced: Vec<IR> = Vec::new();
        match self.pattern_ir_into(pattern, &mut produced, values, scope) {
            Ok(()) => {
                let ghost pv0 = pattern_vec@;
                let ghost prod = produced@;
                pattern_vec.append(&mut produced);
                proof {
                    lemma_ir_view_concat(pv0, prod);
                    assert(ir_seq_view(prod) =~= Seq::<IrV>::empty() + ir_seq_view(prod));
                }
                Ok(())
            },
            Err(e) => {
                self.id_gen.count = saved_count;
                Err(e)
            },
        }
    }
}

} // verus!
