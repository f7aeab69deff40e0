use crate::ast::{AssignmentKind, BinOp, Type, TypeV, ValueConstructor, ValueConstructorV};
use crate::term::DefaultFunction;
use vstd::prelude::*;

verus! {

// The linear intermediate representation. The sequence order is evaluation
// (prefix) order: a consuming node fixes how many of the following produced
// values it takes. Every node carries the scope path of the expression it
// came from.

/// One IR node.
pub enum IR {
    Int { scope: Vec<u64>, value: String },
    String { scope: Vec<u64>, value: String },
    ByteArray { scope: Vec<u64>, bytes: Vec<u8> },
    Var { scope: Vec<u64>, constructor: ValueConstructor, name: String },
    Builtin { scope: Vec<u64>, func: DefaultFunction },
    List { scope: Vec<u64>, count: usize, tipo: Type, tail: bool },
    Tail { scope: Vec<u64>, count: usize },
    ListAccessor { scope: Vec<u64>, names: Vec<String>, tail: bool },
    Call { scope: Vec<u64>, count: usize },
    BinOp { scope: Vec<u64>, name: BinOp, count: usize, tipo: Type },
    Assignment { scope: Vec<u64>, name: String, kind: AssignmentKind },
    When { scope: Vec<u64>, count: usize, subject_name: String, tipo: Type },
    Clause { scope: Vec<u64>, count: usize, subject_name: String, tipo: Type },
    Finally { scope: Vec<u64> },
    Lam { scope: Vec<u64>, name: String },
    DefineFunc {
        scope: Vec<u64>,
        func_name: String,
        module_name: String,
        params: Vec<String>,
        recursive: bool,
    },
    DefineConst { scope: Vec<u64> },
    DefineConstrFields { scope: Vec<u64> },
    DefineConstrFieldAccess { scope: Vec<u64> },
    RecordAccess { scope: Vec<u64>, index: u64, tipo: Type },
    FieldsExpose { scope: Vec<u64>, count: usize, indices: Vec<(usize, String, Type)> },
    Discard { scope: Vec<u64> },
    Todo { scope: Vec<u64> },
    If { scope: Vec<u64> },
    Constr { scope: Vec<u64> },
    Fields { scope: Vec<u64> },
    RecordUpdate { scope: Vec<u64> },
    Negate { scope: Vec<u64> },
}

/// The mathematical value of an IR node.
pub enum IrV {
    Int { scope: Seq<u64>, value: Seq<char> },
    String { scope: Seq<u64>, value: Seq<char> },
    ByteArray { scope: Seq<u64>, bytes: Seq<u8> },
    Var { scope: Seq<u64>, constructor: ValueConstructorV, name: Seq<char> },
    Builtin { scope: Seq<u64>, func: DefaultFunction },
    List { scope: Seq<u64>, count: nat, tipo: TypeV, tail: bool },
    Tail { scope: Seq<u64>, count: nat },
    ListAccessor { scope: Seq<u64>, names: Seq<Seq<char>>, tail: bool },
    Call { scope: Seq<u64>, count: nat },
    BinOp { scope: Seq<u64>, name: BinOp, count: nat, tipo: TypeV },
    Assignment { scope: Seq<u64>, name: Seq<char>, kind: AssignmentKind },
    When { scope: Seq<u64>, count: nat, subject_name: Seq<char>, tipo: TypeV },
    Clause { scope: Seq<u64>, count: nat, subject_name: Seq<char>, tipo: TypeV },
    Finally { scope: Seq<u64> },
    Lam { scope: Seq<u64>, name: Seq<char> },
    DefineFunc {
        scope: Seq<u64>,
        func_name: Seq<char>,
        module_name: Seq<char>,
        params: Seq<Seq<char>>,
        recursive: bool,
    },
    DefineConst { scope: Seq<u64> },
    DefineConstrFields { scope: Seq<u64> },
    DefineConstrFieldAccess { scope: Seq<u64> },
    RecordAccess { scope: Seq<u64>, index: u64, tipo: TypeV },
    FieldsExpose { scope: Seq<u64>, count: nat, indices: Seq<(nat, Seq<char>, TypeV)> },
    Discard { scope: Seq<u64> },
    Todo { scope: Seq<u64> },
    If { scope: Seq<u64> },
    Constr { scope: Seq<u64> },
    Fields { scope: Seq<u64> },
    RecordUpdate { scope: Seq<u64> },
    Negate { scope: Seq<u64> },
}

pub open spec fn names_view(s: Seq<String>) -> Seq<Seq<char>> {
    s.map_values(|n: String| n@)
}

pub open spec fn indices_view(s: Seq<(usize, String, Type)>) -> Seq<(nat, Seq<char>, TypeV)> {
    s.map_values(|t: (usize, String, Type)| (t.0 as nat, t.1@, t.2@))
}

impl View for IR {
    type V = IrV;

    open spec fn view(&self) -> IrV {
        match self {
            IR::Int { scope, value } => IrV::Int { scope: scope@, value: value@ },
            IR::String { scope, value } => IrV::String { scope: scope@, value: value@ },
            IR::ByteArray { scope, bytes } => IrV::ByteArray { scope: scope@, bytes: bytes@ },
            IR::Var { scope, constructor, name } => IrV::Var {
                scope: scope@,
                constructor: constructor@,
                name: name@,
            },
            IR::Builtin { scope, func } => IrV::Builtin { scope: scope@, func: *func },
            IR::List { scope, count, tipo, tail } => IrV::List {
                scope: scope@,
                count: *count as nat,
                tipo: tipo@,
                tail: *tail,
            },
            IR::Tail { scope, count } => IrV::Tail { scope: scope@, count: *count as nat },
            IR::ListAccessor { scope, names, tail } => IrV::ListAccessor {
                scope: scope@,
                names: names_view(names@),
                tail: *tail,
            },
            IR::Call { scope, count } => IrV::Call { scope: scope@, count: *count as nat },
            IR::BinOp { scope, name, count, tipo } => IrV::BinOp {
                scope: scope@,
                name: *name,
                count: *count as nat,
                tipo: tipo@,
            },
            IR::Assignment { scope, name, kind } => IrV::Assignment {
                scope: scope@,
                name: name@,
                kind: *kind,
            },
            IR::When { scope, count, subject_name, tipo } => IrV::When {
                scope: scope@,
                count: *count as nat,
                subject_name: subject_name@,
                tipo: tipo@,
            },
            IR::Clause { scope, count, subject_name, tipo } => IrV::Clause {
                scope: scope@,
                count: *count as nat,
                subject_name: subject_name@,
                tipo: tipo@,
            },
            IR::Finally { scope } => IrV::Finally { scope: scope@ },
            IR::Lam { scope, name } => IrV::Lam { scope: scope@, name: name@ },
            IR::DefineFunc { scope, func_name, module_name, params, recursive } => IrV::DefineFunc {
                scope: scope@,
                func_name: func_name@,
                module_name: module_name@,
                params: names_view(params@),
                recursive: *recursive,
            },
            IR::DefineConst { scope } => IrV::DefineConst { scope: scope@ },
            IR::DefineConstrFields { scope } => IrV::DefineConstrFields { scope: scope@ },
            IR::DefineConstrFieldAccess { scope } => IrV::DefineConstrFieldAccess {
                scope: scope@,
            },
            IR::RecordAccess { scope, index, tipo } => IrV::RecordAccess {
                scope: scope@,
                index: *index,
                tipo: tipo@,
            },
            IR::FieldsExpose { scope, count, indices } => IrV::FieldsExpose {
                scope: scope@,
                count: *count as nat,
                indices: indices_view(indices@),
            },
            IR::Discard { scope } => IrV::Discard { scope: scope@ },
            IR::Todo { scope } => IrV::Todo { scope: scope@ },
            IR::If { scope } => IrV::If { scope: scope@ },
            IR::Constr { scope } => IrV::Constr { scope: scope@ },
            IR::Fields { scope } => IrV::Fields { scope: scope@ },
            IR::RecordUpdate { scope } => IrV::RecordUpdate { scope: scope@ },
            IR::Negate { scope } => IrV::Negate { scope: scope@ },
        }
    }
}

impl IrV {
    /// The scope path a node carries.
    pub open spec fn scope(self) -> Seq<u64> {
        match self {
            IrV::Int { scope, .. } => scope,
            IrV::String { scope, .. } => scope,
            IrV::ByteArray { scope, .. } => scope,
            IrV::Var { scope, .. } => scope,
            IrV::Builtin { scope, .. } => scope,
            IrV::List { scope, .. } => scope,
            IrV::Tail { scope, .. } => scope,
            IrV::ListAccessor { scope, .. } => scope,
            IrV::Call { scope, .. } => scope,
            IrV::BinOp { scope, .. } => scope,
            IrV::Assignment { scope, .. } => scope,
            IrV::When { scope, .. } => scope,
            IrV::Clause { scope, .. } => scope,
            IrV::Finally { scope } => scope,
            IrV::Lam { scope, .. } => scope,
            IrV::DefineFunc { scope, .. } => scope,
            IrV::DefineConst { scope } => scope,
            IrV::DefineConstrFields { scope } => scope,
            IrV::DefineConstrFieldAccess { scope } => scope,
            IrV::RecordAccess { scope, .. } => scope,
            IrV::FieldsExpose { scope, .. } => scope,
            IrV::Discard { scope } => scope,
            IrV::Todo { scope } => scope,
            IrV::If { scope } => scope,
            IrV::Constr { scope } => scope,
            IrV::Fields { scope } => scope,
            IrV::RecordUpdate { scope } => scope,
            IrV::Negate { scope } => scope,
        }
    }
}

impl IR {
    /// The scope path a node carries.
    pub fn scope(&self) -> (r: Vec<u64>)
        ensures
            r@ == self@.scope(),
    {
        match self {
            IR::Int { scope, .. } => scope.clone(),
            IR::String { scope, .. } => scope.clone(),
            IR::ByteArray { scope, .. } => scope.clone(),
            IR::Var { scope, .. } => scope.clone(),
            IR::Builtin { scope, .. } => scope.clone(),
            IR::List { scope, .. } => scope.clone(),
            IR::Tail { scope, .. } => scope.clone(),
            IR::ListAccessor { scope, .. } => scope.clone(),
            IR::Call { scope, .. } => scope.clone(),
            IR::BinOp { scope, .. } => scope.clone(),
            IR::Assignment { scope, .. } => scope.clone(),
            IR::When { scope, .. } => scope.clone(),
            IR::Clause { scope, .. } => scope.clone(),
            IR::Finally { scope } => scope.clone(),
            IR::Lam { scope, .. } => scope.clone(),
            IR::DefineFunc { scope, .. } => scope.clone(),
            IR::DefineConst { scope } => scope.clone(),
            IR::DefineConstrFields { scope } => scope.clone(),
            IR::DefineConstrFieldAccess { scope } => scope.clone(),
            IR::RecordAccess { scope, .. } => scope.clone(),
            IR::FieldsExpose { scope, .. } => scope.clone(),
            IR::Discard { scope } => scope.clone(),
            IR::Todo { scope } => scope.clone(),
            IR::If { scope } => scope.clone(),
            IR::Constr { scope } => scope.clone(),
            IR::Fields { scope } => scope.clone(),
            IR::RecordUpdate { scope } => scope.clone(),
            IR::Negate { scope } => scope.clone(),
        }
    }
}

/// The views of a sequence of IR nodes.
pub open spec fn ir_seq_view(s: Seq<IR>) -> Seq<IrV> {
    s.map_values(|x: IR| x@)
}

pub proof fn lemma_ir_view_push(s: Seq<IR>, x: IR)
    ensures
        ir_seq_view(s.push(x)) == ir_seq_view(s).push(x@),
{
    assert(ir_seq_view(s.push(x)) =~= ir_seq_view(s).push(x@));
}

pub proof fn lemma_ir_view_concat(a: Seq<IR>, b: Seq<IR>)
    ensures
        ir_seq_view(a + b) == ir_seq_view(a) + ir_seq_view(b),
{
    assert(ir_seq_view(a + b) =~= ir_seq_view(a) + ir_seq_view(b));
}

pub proof fn lemma_ir_view_empty()
    ensures
        ir_seq_view(Seq::empty()) == Seq::<IrV>::empty(),
{
    assert(ir_seq_view(Seq::empty()) =~= Seq::<IrV>::empty());
}

} // verus!
