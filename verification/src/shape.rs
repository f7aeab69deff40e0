use crate::ast::{CallArg, Pattern, TypeV, TypedClause, TypedExpr};
use crate::gen::LowerCtx;
use crate::ir::IrV;
use crate::lower::{
    assign_pattern, lower_args, lower_clauses, lower_each, lower_expr, pattern_list_elems,
    pattern_spec, when_pattern,
};
use crate::scope::next_count;
use vstd::prelude::*;

verus! {

// The lowering's shape is a function of the expression and the tables
// alone: two lowerings of one expression under different scope paths and
// different fresh-id counters succeed or fail together, and on success they
// emit the same sequence of IR variants in the same order. Only scope paths
// and generated names differ.

/// The shape of an IR node: its variant alone.
pub enum IrTag {
    Int,
    String,
    ByteArray,
    Var,
    Builtin,
    List,
    Tail,
    ListAccessor,
    Call,
    BinOp,
    Assignment,
    When,
    Clause,
    Finally,
    Lam,
    DefineFunc,
    DefineConst,
    DefineConstrFields,
    DefineConstrFieldAccess,
    RecordAccess,
    FieldsExpose,
    Discard,
    Todo,
    If,
    Constr,
    Fields,
    RecordUpdate,
    Negate,
}

pub open spec fn tag_of(v: IrV) -> IrTag {
    match v {
        IrV::Int { .. } => IrTag::Int,
        IrV::String { .. } => IrTag::String,
        IrV::ByteArray { .. } => IrTag::ByteArray,
        IrV::Var { .. } => IrTag::Var,
        IrV::Builtin { .. } => IrTag::Builtin,
        IrV::List { .. } => IrTag::List,
        IrV::Tail { .. } => IrTag::Tail,
        IrV::ListAccessor { .. } => IrTag::ListAccessor,
        IrV::Call { .. } => IrTag::Call,
        IrV::BinOp { .. } => IrTag::BinOp,
        IrV::Assignment { .. } => IrTag::Assignment,
        IrV::When { .. } => IrTag::When,
        IrV::Clause { .. } => IrTag::Clause,
        IrV::Finally { .. } => IrTag::Finally,
        IrV::Lam { .. } => IrTag::Lam,
        IrV::DefineFunc { .. } => IrTag::DefineFunc,
        IrV::DefineConst { .. } => IrTag::DefineConst,
        IrV::DefineConstrFields { .. } => IrTag::DefineConstrFields,
        IrV::DefineConstrFieldAccess { .. } => IrTag::DefineConstrFieldAccess,
        IrV::RecordAccess { .. } => IrTag::RecordAccess,
        IrV::FieldsExpose { .. } => IrTag::FieldsExpose,
        IrV::Discard { .. } => IrTag::Discard,
        IrV::Todo { .. } => IrTag::Todo,
        IrV::If { .. } => IrTag::If,
        IrV::Constr { .. } => IrTag::Constr,
        IrV::Fields { .. } => IrTag::Fields,
        IrV::RecordUpdate { .. } => IrTag::RecordUpdate,
        IrV::Negate { .. } => IrTag::Negate,
    }
}

/// The shapes of a sequence of IR nodes.
pub open spec fn tags(s: Seq<IrV>) -> Seq<IrTag> {
    s.map_values(|v: IrV| tag_of(v))
}

pub proof fn lemma_tags_concat(a: Seq<IrV>, b: Seq<IrV>)
    ensures
        tags(a + b) == tags(a) + tags(b),
{
    assert(tags(a + b) =~= tags(a) + tags(b));
}

/// Two lowerings of one expression under different scopes and counters
/// succeed or fail together, and emit the same IR shape.
#[verifier::rlimit(100)]
pub proof fn lemma_expr_shape(
    e: TypedExpr,
    s1: Seq<u64>,
    c1: u64,
    s2: Seq<u64>,
    c2: u64,
    cx: LowerCtx,
)
    ensures
        lower_expr(e, s1, c1, cx) is Some <==> lower_expr(e, s2, c2, cx) is Some,
        lower_expr(e, s1, c1, cx) matches Some(t1) ==> lower_expr(e, s2, c2, cx) matches Some(t2)
            && tags(t1.0) == tags(t2.0),
    decreases e, 3int,
{
    match e {
        TypedExpr::Int { value } => {
            assert(tags(seq![IrV::Int { scope: s1, value: value@ }]) =~= tags(
                seq![IrV::Int { scope: s2, value: value@ }],
            ));
        },
        TypedExpr::String { value } => {
            assert(tags(seq![IrV::String { scope: s1, value: value@ }]) =~= tags(
                seq![IrV::String { scope: s2, value: value@ }],
            ));
        },
        TypedExpr::ByteArray { bytes } => {
            assert(tags(seq![IrV::ByteArray { scope: s1, bytes: bytes@ }]) =~= tags(
                seq![IrV::ByteArray { scope: s2, bytes: bytes@ }],
            ));
        },
        TypedExpr::Var { constructor, name } => {
            assert(tags(
                seq![IrV::Var { scope: s1, constructor: constructor@, name: name@ }],
            ) =~= tags(seq![IrV::Var { scope: s2, constructor: constructor@, name: name@ }]));
        },
        TypedExpr::Sequence { expressions } => {
            lemma_each_shape(expressions@, s1, c1, s2, c2, cx);
        },
        TypedExpr::Pipeline { expressions } => {
            lemma_each_shape(expressions@, s1, c1, s2, c2, cx);
        },
        TypedExpr::List { elements, tail, tipo } => {
            lemma_each_shape(elements@, s1, c1, s2, c2, cx);
            let er1 = lower_each(elements@, s1, c1, cx);
            let er2 = lower_each(elements@, s2, c2, cx);
            if er1 is Some {
                let p1 = er1.unwrap();
                let p2 = er2.unwrap();
                let head1 = IrV::List {
                    scope: s1,
                    count: if tail is Some {
                        (elements@.len() + 1) as nat
                    } else {
                        elements@.len()
                    },
                    tipo: tipo@,
                    tail: tail is Some,
                };
                let head2 = IrV::List {
                    scope: s2,
                    count: if tail is Some {
                        (elements@.len() + 1) as nat
                    } else {
                        elements@.len()
                    },
                    tipo: tipo@,
                    tail: tail is Some,
                };
                match tail {
                    Some(t) => {
                        let ts1 = s1.push(p1.1);
                        let ts2 = s2.push(p2.1);
                        lemma_expr_shape(*t, ts1, next_count(p1.1), ts2, next_count(p2.1), cx);
                        let tr1 = lower_expr(*t, ts1, next_count(p1.1), cx);
                        let tr2 = lower_expr(*t, ts2, next_count(p2.1), cx);
                        if tr1 is Some {
                            let q1 = tr1.unwrap();
                            let q2 = tr2.unwrap();
                            lemma_tags_concat(seq![head1], p1.0);
                            lemma_tags_concat(seq![head2], p2.0);
                            lemma_tags_concat(
                                seq![head1] + p1.0,
                                seq![IrV::Tail { scope: ts1, count: 1 }],
                            );
                            lemma_tags_concat(
                                seq![head2] + p2.0,
                                seq![IrV::Tail { scope: ts2, count: 1 }],
                            );
                            lemma_tags_concat(
                                seq![head1] + p1.0 + seq![IrV::Tail { scope: ts1, count: 1 }],
                                q1.0,
                            );
                            lemma_tags_concat(
                                seq![head2] + p2.0 + seq![IrV::Tail { scope: ts2, count: 1 }],
                                q2.0,
                            );
                            assert(tags(seq![head1]) =~= tags(seq![head2]));
                            assert(tags(seq![IrV::Tail { scope: ts1, count: 1 }]) =~= tags(
                                seq![IrV::Tail { scope: ts2, count: 1 }],
                            ));
                        }
                    },
                    None => {
                        lemma_tags_concat(seq![head1], p1.0);
                        lemma_tags_concat(seq![head2], p2.0);
                        assert(tags(seq![head1]) =~= tags(seq![head2]));
                    },
                }
            }
        },
        TypedExpr::Call { fun, args } => {
            let fr1 = lower_expr(*fun, s1.push(c1), next_count(c1), cx);
            let fr2 = lower_expr(*fun, s2.push(c2), next_count(c2), cx);
            lemma_expr_shape(*fun, s1.push(c1), next_count(c1), s2.push(c2), next_count(c2), cx);
            if fr1 is Some {
                let p1 = fr1.unwrap();
                let p2 = fr2.unwrap();
                lemma_args_shape(args@, s1, p1.1, s2, p2.1, cx);
                let ar1 = lower_args(args@, s1, p1.1, cx);
                let ar2 = lower_args(args@, s2, p2.1, cx);
                if ar1 is Some {
                    let q1 = ar1.unwrap();
                    let q2 = ar2.unwrap();
                    let head1 = IrV::Call { scope: s1, count: (args@.len() + 1) as nat };
                    let head2 = IrV::Call { scope: s2, count: (args@.len() + 1) as nat };
                    lemma_tags_concat(seq![head1], p1.0);
                    lemma_tags_concat(seq![head2], p2.0);
                    lemma_tags_concat(seq![head1] + p1.0, q1.0);
                    lemma_tags_concat(seq![head2] + p2.0, q2.0);
                    assert(tags(seq![head1]) =~= tags(seq![head2]));
                }
            }
        },
        TypedExpr::BinOp { name, left, right, tipo } => {
            let l1 = lower_expr(*left, s1.push(c1), next_count(next_count(c1)), cx);
            let l2 = lower_expr(*left, s2.push(c2), next_count(next_count(c2)), cx);
            lemma_expr_shape(
                *left,
                s1.push(c1),
                next_count(next_count(c1)),
                s2.push(c2),
                next_count(next_count(c2)),
                cx,
            );
            if l1 is Some {
                let p1 = l1.unwrap();
                let p2 = l2.unwrap();
                lemma_expr_shape(
                    *right,
                    s1.push(next_count(c1)),
                    p1.1,
                    s2.push(next_count(c2)),
                    p2.1,
                    cx,
                );
                let r1 = lower_expr(*right, s1.push(next_count(c1)), p1.1, cx);
                let r2 = lower_expr(*right, s2.push(next_count(c2)), p2.1, cx);
                if r1 is Some {
                    let q1 = r1.unwrap();
                    let q2 = r2.unwrap();
                    let head1 = IrV::BinOp { scope: s1, name, count: 2, tipo: tipo@ };
                    let head2 = IrV::BinOp { scope: s2, name, count: 2, tipo: tipo@ };
                    lemma_tags_concat(seq![head1], p1.0);
                    lemma_tags_concat(seq![head2], p2.0);
                    lemma_tags_concat(seq![head1] + p1.0, q1.0);
                    lemma_tags_concat(seq![head2] + p2.0, q2.0);
                    assert(tags(seq![head1]) =~= tags(seq![head2]));
                }
            }
        },
        TypedExpr::Assignment { value, pattern, kind, .. } => {
            lemma_expr_shape(*value, s1.push(c1), next_count(c1), s2.push(c2), next_count(c2), cx);
            let v1 = lower_expr(*value, s1.push(c1), next_count(c1), cx);
            let v2 = lower_expr(*value, s2.push(c2), next_count(c2), cx);
            if v1 is Some {
                let p1 = v1.unwrap();
                let p2 = v2.unwrap();
                lemma_assign_shape(pattern, p1.0, p2.0, kind, s1, p1.1, s2, p2.1, cx);
            }
        },
        TypedExpr::When { subjects, clauses, tipo } => {
            lemma_when_shape(subjects, clauses, tipo, s1, c1, s2, c2, cx);
        },
        TypedExpr::RecordAccess { record, index, tipo } => {
            lemma_expr_shape(*record, s1, c1, s2, c2, cx);
            let rr1 = lower_expr(*record, s1, c1, cx);
            let rr2 = lower_expr(*record, s2, c2, cx);
            if rr1 is Some {
                let p1 = rr1.unwrap();
                let p2 = rr2.unwrap();
                let head1 = IrV::RecordAccess { scope: s1, index, tipo: tipo@ };
                let head2 = IrV::RecordAccess { scope: s2, index, tipo: tipo@ };
                lemma_tags_concat(seq![head1], p1.0);
                lemma_tags_concat(seq![head2], p2.0);
                assert(tags(seq![head1]) =~= tags(seq![head2]));
            }
        },
        TypedExpr::ModuleSelect { constructor, .. } => {
            let r1 = lower_expr(e, s1, c1, cx);
            let r2 = lower_expr(e, s2, c2, cx);
            if r1 is Some {
                let p1 = r1.unwrap();
                let p2 = r2.unwrap();
                assert(tags(p1.0) =~= tags(p2.0));
            }
        },
        _ => {},
    }
}

/// The shape of a lowered expression list is scope- and counter-insensitive.
pub proof fn lemma_each_shape(
    es: Seq<TypedExpr>,
    s1: Seq<u64>,
    c1: u64,
    s2: Seq<u64>,
    c2: u64,
    cx: LowerCtx,
)
    ensures
        lower_each(es, s1, c1, cx) is Some <==> lower_each(es, s2, c2, cx) is Some,
        lower_each(es, s1, c1, cx) matches Some(t1) ==> lower_each(es, s2, c2, cx) matches Some(
            t2,
        ) && tags(t1.0) == tags(t2.0),
    decreases es, 3int,
{
    if es.len() == 0 {
        assert(tags(Seq::<IrV>::empty()) =~= tags(Seq::<IrV>::empty()));
    } else {
        lemma_expr_shape(es[0], s1.push(c1), next_count(c1), s2.push(c2), next_count(c2), cx);
        let f1 = lower_expr(es[0], s1.push(c1), next_count(c1), cx);
        let f2 = lower_expr(es[0], s2.push(c2), next_count(c2), cx);
        if f1 is Some {
            let p1 = f1.unwrap();
            let p2 = f2.unwrap();
            lemma_each_shape(es.skip(1), s1, p1.1, s2, p2.1, cx);
            let r1 = lower_each(es.skip(1), s1, p1.1, cx);
            let r2 = lower_each(es.skip(1), s2, p2.1, cx);
            if r1 is Some {
                lemma_tags_concat(p1.0, r1.unwrap().0);
                lemma_tags_concat(p2.0, r2.unwrap().0);
            }
        }
    }
}

/// The shape of lowered call arguments is scope- and counter-insensitive.
pub proof fn lemma_args_shape(
    args: Seq<CallArg>,
    s1: Seq<u64>,
    c1: u64,
    s2: Seq<u64>,
    c2: u64,
    cx: LowerCtx,
)
    ensures
        lower_args(args, s1, c1, cx) is Some <==> lower_args(args, s2, c2, cx) is Some,
        lower_args(args, s1, c1, cx) matches Some(t1) ==> lower_args(args, s2, c2, cx) matches
            Some(t2) && tags(t1.0) == tags(t2.0),
    decreases args, 3int,
{
    if args.len() == 0 {
        assert(tags(Seq::<IrV>::empty()) =~= tags(Seq::<IrV>::empty()));
    } else {
        lemma_expr_shape(
            args[0].value,
            s1.push(c1),
            next_count(c1),
            s2.push(c2),
            next_count(c2),
            cx,
        );
        let f1 = lower_expr(args[0].value, s1.push(c1), next_count(c1), cx);
        let f2 = lower_expr(args[0].value, s2.push(c2), next_count(c2), cx);
        if f1 is Some {
            let p1 = f1.unwrap();
            let p2 = f2.unwrap();
            lemma_args_shape(args.skip(1), s1, p1.1, s2, p2.1, cx);
            let r1 = lower_args(args.skip(1), s1, p1.1, cx);
            let r2 = lower_args(args.skip(1), s2, p2.1, cx);
            if r1 is Some {
                lemma_tags_concat(p1.0, r1.unwrap().0);
                lemma_tags_concat(p2.0, r2.unwrap().0);
            }
        }
    }
}

/// The shape of a lowered `when` is scope- and counter-insensitive.
#[verifier::rlimit(100)]
pub proof fn lemma_when_shape(
    subjects: Vec<TypedExpr>,
    clauses: Vec<TypedClause>,
    tipo: crate::ast::Type,
    s1: Seq<u64>,
    c1: u64,
    s2: Seq<u64>,
    c2: u64,
    cx: LowerCtx,
)
    ensures
        lower_expr((TypedExpr::When { subjects, clauses, tipo }), s1, c1, cx) is Some
            <==> lower_expr((TypedExpr::When { subjects, clauses, tipo }), s2, c2, cx) is Some,
        lower_expr((TypedExpr::When { subjects, clauses, tipo }), s1, c1, cx) matches Some(t1)
            ==> lower_expr((TypedExpr::When { subjects, clauses, tipo }), s2, c2, cx) matches
            Some(t2) && tags(t1.0) == tags(t2.0),
    decreases (TypedExpr::When { subjects, clauses, tipo }), 2int,
{
    if subjects@.len() == 0 {
    } else if clauses@.len() == 0 {
        assert(tags(Seq::<IrV>::empty()) =~= tags(Seq::<IrV>::empty()));
    } else {
        let subject = subjects@[0];
        let sn1 = crate::names::prefixed_name_spec("__subject_name_"@, c1);
        let sn2 = crate::names::prefixed_name_spec("__subject_name_"@, c2);
        let cv1 = crate::names::prefixed_name_spec("__constr_name_"@, next_count(c1));
        let cv2 = crate::names::prefixed_name_spec("__constr_name_"@, next_count(c2));
        let ca = next_count(next_count(c1));
        let cb = next_count(next_count(c2));
        lemma_clauses_shape(clauses@.drop_last(), tipo@, sn1, cv1, s1, ca, sn2, cv2, s2, cb, cx);
        let fr1 = lower_clauses(clauses@.drop_last(), tipo@, sn1, cv1, s1, ca, cx);
        let fr2 = lower_clauses(clauses@.drop_last(), tipo@, sn2, cv2, s2, cb, cx);
        if fr1 is Some {
            let p1 = fr1.unwrap();
            let p2 = fr2.unwrap();
            let last = clauses@.last();
            if last.pattern@.len() > 0 {
                let fs1 = s1.push(p1.1);
                let fs2 = s2.push(p2.1);
                lemma_expr_shape(last.body, fs1, next_count(p1.1), fs2, next_count(p2.1), cx);
                let b1 = lower_expr(last.body, fs1, next_count(p1.1), cx);
                let b2 = lower_expr(last.body, fs2, next_count(p2.1), cx);
                if b1 is Some {
                    let q1 = b1.unwrap();
                    let q2 = b2.unwrap();
                    lemma_when_pattern_shape(
                        last.pattern@[0],
                        q1.0,
                        q2.0,
                        tipo@,
                        cv1,
                        cv2,
                        s1,
                        q1.1,
                        s2,
                        q2.1,
                        cx,
                    );
                    let w1 = when_pattern(last.pattern@[0], q1.0, tipo@, cv1, s1, q1.1, cx);
                    let w2 = when_pattern(last.pattern@[0], q2.0, tipo@, cv2, s2, q2.1, cx);
                    if w1 is Some {
                        let u1 = w1.unwrap();
                        let u2 = w2.unwrap();
                        let pat1 = p1.0 + seq![IrV::Finally { scope: fs1 }] + u1.0;
                        let pat2 = p2.0 + seq![IrV::Finally { scope: fs2 }] + u2.0;
                        lemma_tags_concat(p1.0, seq![IrV::Finally { scope: fs1 }]);
                        lemma_tags_concat(p2.0, seq![IrV::Finally { scope: fs2 }]);
                        lemma_tags_concat(p1.0 + seq![IrV::Finally { scope: fs1 }], u1.0);
                        lemma_tags_concat(p2.0 + seq![IrV::Finally { scope: fs2 }], u2.0);
                        assert(tags(seq![IrV::Finally { scope: fs1 }]) =~= tags(
                            seq![IrV::Finally { scope: fs2 }],
                        ));
                        assert(p1.3 == p2.3 && u1.2 == u2.2);
                        let needs = p1.3 || u1.2;
                        if needs {
                            lemma_expr_shape(subject, s1, u1.1, s2, u2.1, cx);
                            let j1 = lower_expr(subject, s1, u1.1, cx);
                            let j2 = lower_expr(subject, s2, u2.1, cx);
                            if j1 is Some {
                                let k1 = j1.unwrap();
                                let k2 = j2.unwrap();
                                let lam1 = seq![IrV::Lam { scope: s1, name: cv1 }];
                                let lam2 = seq![IrV::Lam { scope: s2, name: cv2 }];
                                let mid1 = seq![
                                    IrV::When {
                                        scope: s1,
                                        count: clauses@.len(),
                                        subject_name: sn1,
                                        tipo: tipo@,
                                    },
                                    IrV::Var {
                                        scope: s1.push(k1.1),
                                        constructor: crate::lower::local_var(tipo@),
                                        name: cv1,
                                    },
                                ];
                                let mid2 = seq![
                                    IrV::When {
                                        scope: s2,
                                        count: clauses@.len(),
                                        subject_name: sn2,
                                        tipo: tipo@,
                                    },
                                    IrV::Var {
                                        scope: s2.push(k2.1),
                                        constructor: crate::lower::local_var(tipo@),
                                        name: cv2,
                                    },
                                ];
                                lemma_tags_concat(lam1, k1.0);
                                lemma_tags_concat(lam2, k2.0);
                                lemma_tags_concat(lam1 + k1.0, mid1);
                                lemma_tags_concat(lam2 + k2.0, mid2);
                                lemma_tags_concat(lam1 + k1.0 + mid1, pat1);
                                lemma_tags_concat(lam2 + k2.0 + mid2, pat2);
                                assert(tags(lam1) =~= tags(lam2));
                                assert(tags(mid1) =~= tags(mid2));
                            }
                        } else {
                            lemma_expr_shape(
                                subject,
                                s1.push(u1.1),
                                next_count(u1.1),
                                s2.push(u2.1),
                                next_count(u2.1),
                                cx,
                            );
                            let j1 = lower_expr(subject, s1.push(u1.1), next_count(u1.1), cx);
                            let j2 = lower_expr(subject, s2.push(u2.1), next_count(u2.1), cx);
                            if j1 is Some {
                                let k1 = j1.unwrap();
                                let k2 = j2.unwrap();
                                let hd1 = seq![
                                    IrV::When {
                                        scope: s1,
                                        count: clauses@.len(),
                                        subject_name: sn1,
                                        tipo: tipo@,
                                    },
                                ];
                                let hd2 = seq![
                                    IrV::When {
                                        scope: s2,
                                        count: clauses@.len(),
                                        subject_name: sn2,
                                        tipo: tipo@,
                                    },
                                ];
                                lemma_tags_concat(hd1, k1.0);
                                lemma_tags_concat(hd2, k2.0);
                                lemma_tags_concat(hd1 + k1.0, pat1);
                                lemma_tags_concat(hd2 + k2.0, pat2);
                                assert(tags(hd1) =~= tags(hd2));
                            }
                        }
                    }
                }
            }
        }
    }
}

/// The shape of lowered non-default clauses is scope- and
/// counter-insensitive, as is the need to bind the subject constructor.
pub proof fn lemma_clauses_shape(
    cs: Seq<TypedClause>,
    st: TypeV,
    sn1: Seq<char>,
    cv1: Seq<char>,
    s1: Seq<u64>,
    c1: u64,
    sn2: Seq<char>,
    cv2: Seq<char>,
    s2: Seq<u64>,
    c2: u64,
    cx: LowerCtx,
)
    ensures
        lower_clauses(cs, st, sn1, cv1, s1, c1, cx) is Some <==> lower_clauses(
            cs,
            st,
            sn2,
            cv2,
            s2,
            c2,
            cx,
        ) is Some,
        lower_clauses(cs, st, sn1, cv1, s1, c1, cx) matches Some(t1) ==> lower_clauses(
            cs,
            st,
            sn2,
            cv2,
            s2,
            c2,
            cx,
        ) matches Some(t2) && tags(t1.0) == tags(t2.0) && t1.3 == t2.3,
    decreases cs, 3int,
{
    if cs.len() == 0 {
        assert(tags(Seq::<IrV>::empty()) =~= tags(Seq::<IrV>::empty()));
    } else {
        let clause = cs[0];
        if clause.pattern@.len() > 0 {
            let cs1 = s1.push(c1);
            let cs2 = s2.push(c2);
            lemma_expr_shape(clause.body, cs1, next_count(c1), cs2, next_count(c2), cx);
            let b1 = lower_expr(clause.body, cs1, next_count(c1), cx);
            let b2 = lower_expr(clause.body, cs2, next_count(c2), cx);
            if b1 is Some {
                let q1 = b1.unwrap();
                let q2 = b2.unwrap();
                lemma_when_pattern_shape(
                    clause.pattern@[0],
                    q1.0,
                    q2.0,
                    st,
                    cv1,
                    cv2,
                    cs1,
                    q1.1,
                    cs2,
                    q2.1,
                    cx,
                );
                let w1 = when_pattern(clause.pattern@[0], q1.0, st, cv1, cs1, q1.1, cx);
                let w2 = when_pattern(clause.pattern@[0], q2.0, st, cv2, cs2, q2.1, cx);
                if w1 is Some {
                    let u1 = w1.unwrap();
                    let u2 = w2.unwrap();
                    lemma_clauses_shape(
                        cs.skip(1),
                        st,
                        sn1,
                        cv1,
                        s1,
                        u1.1,
                        sn2,
                        cv2,
                        s2,
                        u2.1,
                        cx,
                    );
                    let r1 = lower_clauses(cs.skip(1), st, sn1, cv1, s1, u1.1, cx);
                    let r2 = lower_clauses(cs.skip(1), st, sn2, cv2, s2, u2.1, cx);
                    if r1 is Some {
                        let v1 = r1.unwrap();
                        let v2 = r2.unwrap();
                        let hd1 = seq![
                            IrV::Clause { scope: cs1, count: 2, subject_name: sn1, tipo: st },
                        ];
                        let hd2 = seq![
                            IrV::Clause { scope: cs2, count: 2, subject_name: sn2, tipo: st },
                        ];
                        lemma_tags_concat(hd1, u1.0);
                        lemma_tags_concat(hd2, u2.0);
                        lemma_tags_concat(hd1 + u1.0, v1.0);
                        lemma_tags_concat(hd2 + u2.0, v2.0);
                        assert(tags(hd1) =~= tags(hd2));
                    }
                }
            }
        }
    }
}

/// The shape a clause-head pattern emits is scope- and counter-insensitive,
/// given bodies of equal shape; so is the constructor-binding mark.
pub proof fn lemma_when_pattern_shape(
    p: Pattern,
    vals1: Seq<IrV>,
    vals2: Seq<IrV>,
    st: TypeV,
    cv1: Seq<char>,
    cv2: Seq<char>,
    s1: Seq<u64>,
    c1: u64,
    s2: Seq<u64>,
    c2: u64,
    cx: LowerCtx,
)
    requires
        tags(vals1) == tags(vals2),
    ensures
        when_pattern(p, vals1, st, cv1, s1, c1, cx) is Some <==> when_pattern(
            p,
            vals2,
            st,
            cv2,
            s2,
            c2,
            cx,
        ) is Some,
        when_pattern(p, vals1, st, cv1, s1, c1, cx) matches Some(t1) ==> when_pattern(
            p,
            vals2,
            st,
            cv2,
            s2,
            c2,
            cx,
        ) matches Some(t2) && tags(t1.0) == tags(t2.0) && t1.2 == t2.2,
    decreases p, 2int,
{
    match p {
        Pattern::Int { value } => {
            lemma_tags_concat(seq![IrV::Int { scope: s1, value: value@ }], vals1);
            lemma_tags_concat(seq![IrV::Int { scope: s2, value: value@ }], vals2);
            assert(tags(seq![IrV::Int { scope: s1, value: value@ }]) =~= tags(
                seq![IrV::Int { scope: s2, value: value@ }],
            ));
        },
        Pattern::Discard { .. } => {
            lemma_tags_concat(seq![IrV::Discard { scope: s1 }], vals1);
            lemma_tags_concat(seq![IrV::Discard { scope: s2 }], vals2);
            assert(tags(seq![IrV::Discard { scope: s1 }]) =~= tags(
                seq![IrV::Discard { scope: s2 }],
            ));
        },
        Pattern::Constructor { arguments, .. } => {
            let var1 = IrV::Var { scope: s1, constructor: crate::lower::local_var(st), name: cv1 };
            let var2 = IrV::Var { scope: s2, constructor: crate::lower::local_var(st), name: cv2 };
            if crate::lower::some_arg_needs_access(arguments@) {
                lemma_tags_concat(seq![var1], vals1);
                lemma_tags_concat(seq![var2], vals2);
                assert(tags(seq![var1]) =~= tags(seq![var2]));
                lemma_pattern_shape(p, seq![var1] + vals1, seq![var2] + vals2, s1, c1, s2, c2, cx);
            } else {
                lemma_pattern_shape(p, vals1, vals2, s1, c1, s2, c2, cx);
            }
        },
        _ => {},
    }
}

/// The shape a let-style binding emits is scope- and counter-insensitive,
/// given values of equal shape.
pub proof fn lemma_assign_shape(
    p: Pattern,
    vals1: Seq<IrV>,
    vals2: Seq<IrV>,
    kind: crate::ast::AssignmentKind,
    s1: Seq<u64>,
    c1: u64,
    s2: Seq<u64>,
    c2: u64,
    cx: LowerCtx,
)
    requires
        tags(vals1) == tags(vals2),
    ensures
        assign_pattern(p, vals1, kind, s1, c1, cx) is Some <==> assign_pattern(
            p,
            vals2,
            kind,
            s2,
            c2,
            cx,
        ) is Some,
        assign_pattern(p, vals1, kind, s1, c1, cx) matches Some(t1) ==> assign_pattern(
            p,
            vals2,
            kind,
            s2,
            c2,
            cx,
        ) matches Some(t2) && tags(t1.0) == tags(t2.0),
    decreases p, 2int,
{
    match p {
        Pattern::Var { name } => {
            lemma_tags_concat(seq![IrV::Assignment { scope: s1, name: name@, kind }], vals1);
            lemma_tags_concat(seq![IrV::Assignment { scope: s2, name: name@, kind }], vals2);
            assert(tags(seq![IrV::Assignment { scope: s1, name: name@, kind }]) =~= tags(
                seq![IrV::Assignment { scope: s2, name: name@, kind }],
            ));
        },
        Pattern::List { .. } => {
            lemma_pattern_shape(p, vals1, vals2, s1, c1, s2, c2, cx);
        },
        _ => {},
    }
}

/// The shape the pattern worker emits is scope- and counter-insensitive,
/// given values of equal shape.
#[verifier::rlimit(100)]
pub proof fn lemma_pattern_shape(
    p: Pattern,
    vals1: Seq<IrV>,
    vals2: Seq<IrV>,
    s1: Seq<u64>,
    c1: u64,
    s2: Seq<u64>,
    c2: u64,
    cx: LowerCtx,
)
    requires
        tags(vals1) == tags(vals2),
    ensures
        pattern_spec(p, vals1, s1, c1, cx) is Some <==> pattern_spec(p, vals2, s2, c2, cx)
            is Some,
        pattern_spec(p, vals1, s1, c1, cx) matches Some(t1) ==> pattern_spec(
            p,
            vals2,
            s2,
            c2,
            cx,
        ) matches Some(t2) && tags(t1.0) == tags(t2.0),
    decreases p, 1int,
{
    match p {
        Pattern::Discard { .. } => {
            lemma_tags_concat(seq![IrV::Discard { scope: s1 }], vals1);
            lemma_tags_concat(seq![IrV::Discard { scope: s2 }], vals2);
            assert(tags(seq![IrV::Discard { scope: s1 }]) =~= tags(
                seq![IrV::Discard { scope: s2 }],
            ));
        },
        Pattern::List { elements, tail } => {
            lemma_list_elems_shape(elements@, s1, c1, s2, c2, cx);
            let e1 = pattern_list_elems(elements@, s1, c1, cx);
            let e2 = pattern_list_elems(elements@, s2, c2, cx);
            if e1 is Some {
                let p1 = e1.unwrap();
                let p2 = e2.unwrap();
                let ok = match tail {
                    Some(t) => (*t matches Pattern::Var { .. }) || (*t matches Pattern::Discard {
                        ..
                    }),
                    None => true,
                };
                if ok {
                    let acc1 = IrV::ListAccessor {
                        scope: s1,
                        names: p1.0,
                        tail: tail is Some,
                    };
                    let acc2 = IrV::ListAccessor {
                        scope: s2,
                        names: p2.0,
                        tail: tail is Some,
                    };
                    lemma_tags_concat(seq![acc1], vals1);
                    lemma_tags_concat(seq![acc2], vals2);
                    lemma_tags_concat(seq![acc1] + vals1, p1.1);
                    lemma_tags_concat(seq![acc2] + vals2, p2.1);
                    assert(tags(seq![acc1]) =~= tags(seq![acc2]));
                    match tail {
                        Some(t) => match *t {
                            Pattern::Var { name } => {
                                let acc1v = IrV::ListAccessor {
                                    scope: s1,
                                    names: p1.0.push(name@),
                                    tail: true,
                                };
                                let acc2v = IrV::ListAccessor {
                                    scope: s2,
                                    names: p2.0.push(name@),
                                    tail: true,
                                };
                                lemma_tags_concat(seq![acc1v], vals1);
                                lemma_tags_concat(seq![acc2v], vals2);
                                lemma_tags_concat(seq![acc1v] + vals1, p1.1);
                                lemma_tags_concat(seq![acc2v] + vals2, p2.1);
                                assert(tags(seq![acc1v]) =~= tags(seq![acc2v]));
                            },
                            _ => {},
                        },
                        None => {},
                    }
                }
            }
        },
        Pattern::Constructor { .. } => {
            lemma_constructor_shape(p, vals1, vals2, s1, c1, s2, c2, cx);
        },
        _ => {},
    }
}

/// The constructor-pattern case of the pattern worker: its resolution reads
/// only the pattern and the tables, so the emitted shape cannot depend on
/// the scope or the counter.
#[verifier::rlimit(100)]
proof fn lemma_constructor_shape(
    p: Pattern,
    vals1: Seq<IrV>,
    vals2: Seq<IrV>,
    s1: Seq<u64>,
    c1: u64,
    s2: Seq<u64>,
    c2: u64,
    cx: LowerCtx,
)
    requires
        tags(vals1) == tags(vals2),
        p matches Pattern::Constructor { .. },
    ensures
        pattern_spec(p, vals1, s1, c1, cx) is Some <==> pattern_spec(p, vals2, s2, c2, cx)
            is Some,
        pattern_spec(p, vals1, s1, c1, cx) matches Some(t1) ==> pattern_spec(
            p,
            vals2,
            s2,
            c2,
            cx,
        ) matches Some(t2) && tags(t1.0) == tags(t2.0),
    decreases p, 0int,
{
    match p {
        Pattern::Constructor { is_record, name, arguments, constructor, tipo } => {
            let key: Option<(Seq<char>, Seq<char>)> = match tipo@ {
                TypeV::Fn { ret, .. } => match *ret {
                    TypeV::App { module, name: tname, .. } => Some((module, tname)),
                    _ => None,
                },
                TypeV::App { module, name: tname, .. } => Some((module, tname)),
                _ => None,
            };
            if key is Some {
                let kk = key.unwrap();
                match crate::ast::lookup_data_type(cx.dts, kk.0, kk.1) {
                    Some(di) => match crate::ast::lookup_constructor(
                        cx.dts[di].1.constructors@,
                        name@,
                    ) {
                        Some(ci) => {
                            let idx1 = IrV::Int { scope: s1, value: crate::names::dec_str(ci) };
                            let idx2 = IrV::Int { scope: s2, value: crate::names::dec_str(ci) };
                            let ctype = cx.dts[di].1.constructors@[ci];
                            let resolved: Option<Seq<(nat, Seq<char>, TypeV)>> = if is_record {
                                match constructor {
                                    crate::ast::PatternConstructor::Record {
                                        field_map,
                                        ..
                                    } => match field_map {
                                        Some(fm) => if crate::lower::record_labels_ok(
                                            ctype.arguments@,
                                        ) {
                                            match crate::lower::resolve_record_args(
                                                arguments@,
                                                fm.fields@,
                                                ctype.arguments@,
                                            ) {
                                                Some(rs) => Some(
                                                    crate::lower::sort_by_field_index(rs),
                                                ),
                                                None => None,
                                            }
                                        } else {
                                            None
                                        },
                                        None => None,
                                    },
                                }
                            } else {
                                crate::lower::resolve_positional_args(
                                    arguments@,
                                    ctype.arguments@,
                                    0,
                                )
                            };
                            match resolved {
                                Some(sorted) => {
                                    if sorted.len() == 0 {
                                        lemma_tags_concat(seq![idx1], vals1);
                                        lemma_tags_concat(seq![idx2], vals2);
                                        assert(tags(seq![idx1]) =~= tags(seq![idx2]));
                                    } else if sorted.len() + 2 > usize::MAX {
                                    } else {
                                        let fe1 = IrV::FieldsExpose {
                                            scope: s1,
                                            count: sorted.len() + 2,
                                            indices: sorted,
                                        };
                                        let fe2 = IrV::FieldsExpose {
                                            scope: s2,
                                            count: sorted.len() + 2,
                                            indices: sorted,
                                        };
                                        assert(seq![idx1, fe1] =~= seq![idx1] + seq![fe1]);
                                        assert(seq![idx2, fe2] =~= seq![idx2] + seq![fe2]);
                                        lemma_tags_concat(seq![idx1, fe1], vals1);
                                        lemma_tags_concat(seq![idx2, fe2], vals2);
                                        assert(tags(seq![idx1, fe1]) =~= tags(seq![idx2, fe2]));
                                    }
                                },
                                None => {},
                            }
                        },
                        None => {},
                    },
                    None => {},
                }
            }
        },
        _ => {},
    }
}

/// The names and inner shape a list pattern's elements produce are scope-
/// and counter-insensitive in shape and count.
pub proof fn lemma_list_elems_shape(
    es: Seq<Pattern>,
    s1: Seq<u64>,
    c1: u64,
    s2: Seq<u64>,
    c2: u64,
    cx: LowerCtx,
)
    ensures
        pattern_list_elems(es, s1, c1, cx) is Some <==> pattern_list_elems(es, s2, c2, cx)
            is Some,
        pattern_list_elems(es, s1, c1, cx) matches Some(t1) ==> pattern_list_elems(
            es,
            s2,
            c2,
            cx,
        ) matches Some(t2) && tags(t1.1) == tags(t2.1) && t1.0.len() == t2.0.len(),
    decreases es, 1int,
{
    if es.len() == 0 {
        assert(tags(Seq::<IrV>::empty()) =~= tags(Seq::<IrV>::empty()));
    } else {
        match es[0] {
            Pattern::Var { .. } => {
                lemma_list_elems_shape(es.skip(1), s1, c1, s2, c2, cx);
            },
            Pattern::List { .. } => {
                let var1 = IrV::Var {
                    scope: s1,
                    constructor: crate::lower::local_var(crate::lower::blank_app_type()),
                    name: crate::names::prefixed_name_spec("list_item_id_"@, c1),
                };
                let var2 = IrV::Var {
                    scope: s2,
                    constructor: crate::lower::local_var(crate::lower::blank_app_type()),
                    name: crate::names::prefixed_name_spec("list_item_id_"@, c2),
                };
                assert(tags(seq![var1]) =~= tags(seq![var2]));
                lemma_pattern_shape(
                    es[0],
                    seq![var1],
                    seq![var2],
                    s1,
                    next_count(c1),
                    s2,
                    next_count(c2),
                    cx,
                );
                let i1 = pattern_spec(es[0], seq![var1], s1, next_count(c1), cx);
                let i2 = pattern_spec(es[0], seq![var2], s2, next_count(c2), cx);
                if i1 is Some {
                    let p1 = i1.unwrap();
                    let p2 = i2.unwrap();
                    lemma_list_elems_shape(es.skip(1), s1, p1.1, s2, p2.1, cx);
                    let r1 = pattern_list_elems(es.skip(1), s1, p1.1, cx);
                    let r2 = pattern_list_elems(es.skip(1), s2, p2.1, cx);
                    if r1 is Some {
                        lemma_tags_concat(p1.0, r1.unwrap().1);
                        lemma_tags_concat(p2.0, r2.unwrap().1);
                    }
                }
            },
            _ => {},
        }
    }
}

} // verus!
