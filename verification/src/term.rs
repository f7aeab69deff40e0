use vstd::prelude::*;

verus! {

// The target calculus: an untyped lambda calculus with explicit force/delay
// and a fixed set of builtins. Algebraic values are carried in the `Data`
// universe as (constructor tag, field list) pairs.

/// The builtin primitives the lowering emits.
#[derive(Clone, Copy, PartialEq, Eq, Structural)]
pub enum DefaultFunction {
    AddInteger,
    SubtractInteger,
    EqualsInteger,
    LessThanInteger,
    EqualsString,
    EqualsByteString,
    EqualsData,
    IfThenElse,
    ChooseList,
    ChooseUnit,
    Trace,
    MkCons,
    HeadList,
    TailList,
    FstPair,
    SndPair,
    ConstrData,
    MkPairData,
    UnConstrData,
    UnIData,
    UnBData,
    UnListData,
}

/// How many type parameters a builtin has: it must be forced once per type
/// parameter before saturation.
pub open spec fn spec_force_count(f: DefaultFunction) -> u64 {
    match f {
        DefaultFunction::IfThenElse => 1,
        DefaultFunction::ChooseUnit => 1,
        DefaultFunction::Trace => 1,
        DefaultFunction::MkCons => 1,
        DefaultFunction::HeadList => 1,
        DefaultFunction::TailList => 1,
        DefaultFunction::ChooseList => 2,
        DefaultFunction::FstPair => 2,
        DefaultFunction::SndPair => 2,
        _ => 0,
    }
}

impl DefaultFunction {
    pub fn force_count(&self) -> (r: u64)
        ensures
            r == spec_force_count(*self),
    {
        match self {
            DefaultFunction::IfThenElse => 1,
            DefaultFunction::ChooseUnit => 1,
            DefaultFunction::Trace => 1,
            DefaultFunction::MkCons => 1,
            DefaultFunction::HeadList => 1,
            DefaultFunction::TailList => 1,
            DefaultFunction::ChooseList => 2,
            DefaultFunction::FstPair => 2,
            DefaultFunction::SndPair => 2,
            _ => 0,
        }
    }
}

/// The proto-list element types a constant list can carry.
pub enum UplcType {
    Bool,
    Int,
    String,
    ByteString,
    Unit,
    List(Box<UplcType>),
    Data,
}

/// A self-contained piece of `Data`: an algebraic constant.
pub enum PlutusData {
    BigInt(i128),
    Array(Vec<PlutusData>),
}

/// The mathematical value of a `PlutusData`.
pub enum PlutusDataV {
    BigInt(i128),
    Array(Seq<PlutusDataV>),
}

pub open spec fn plutus_seq_view(s: Seq<PlutusData>) -> Seq<PlutusDataV>
    decreases s,
{
    if s.len() == 0 {
        Seq::empty()
    } else {
        plutus_seq_view(s.drop_last()).push(s.last()@)
    }
}

impl View for PlutusData {
    type V = PlutusDataV;

    open spec fn view(&self) -> PlutusDataV
        decreases self,
    {
        match self {
            PlutusData::BigInt(i) => PlutusDataV::BigInt(*i),
            PlutusData::Array(items) => PlutusDataV::Array(plutus_seq_view(items@)),
        }
    }
}

/// A term-level constant.
pub enum Constant {
    Integer(i128),
    ByteString(Vec<u8>),
    String(String),
    Unit,
    Bool(bool),
    ProtoList(UplcType, Vec<Constant>),
    Data(PlutusData),
}

/// The mathematical value of a `Constant`.
pub enum ConstantV {
    Integer(i128),
    ByteString(Seq<u8>),
    String(Seq<char>),
    Unit,
    Bool(bool),
    ProtoList(UplcType, Seq<ConstantV>),
    Data(PlutusDataV),
}

pub open spec fn constant_seq_view(s: Seq<Constant>) -> Seq<ConstantV>
    decreases s,
{
    if s.len() == 0 {
        Seq::empty()
    } else {
        constant_seq_view(s.drop_last()).push(s.last()@)
    }
}

impl View for Constant {
    type V = ConstantV;

    open spec fn view(&self) -> ConstantV
        decreases self,
    {
        match self {
            Constant::Integer(i) => ConstantV::Integer(*i),
            Constant::ByteString(b) => ConstantV::ByteString(b@),
            Constant::String(s) => ConstantV::String(s@),
            Constant::Unit => ConstantV::Unit,
            Constant::Bool(b) => ConstantV::Bool(*b),
            Constant::ProtoList(t, items) => ConstantV::ProtoList(*t, constant_seq_view(items@)),
            Constant::Data(d) => ConstantV::Data(d@),
        }
    }
}

/// A term of the target calculus. Names are plain strings; assigning unique
/// identities to them is the interner's concern, outside this library.
pub enum Term {
    Var(String),
    Delay(Box<Term>),
    Lambda { parameter_name: String, body: Box<Term> },
    Apply { function: Box<Term>, argument: Box<Term> },
    Constant(Constant),
    Force(Box<Term>),
    Error,
    Builtin(DefaultFunction),
}

/// The mathematical value of a `Term`: the same tree over character
/// sequences. Contracts about emitted code are stated over these values.
pub enum TermV {
    Var(Seq<char>),
    Delay(Box<TermV>),
    Lambda { parameter_name: Seq<char>, body: Box<TermV> },
    Apply { function: Box<TermV>, argument: Box<TermV> },
    Constant(ConstantV),
    Force(Box<TermV>),
    Error,
    Builtin(DefaultFunction),
}

impl View for Term {
    type V = TermV;

    open spec fn view(&self) -> TermV
        decreases self,
    {
        match self {
            Term::Var(name) => TermV::Var(name@),
            Term::Delay(t) => TermV::Delay(Box::new((**t)@)),
            Term::Lambda { parameter_name, body } => TermV::Lambda {
                parameter_name: parameter_name@,
                body: Box::new((**body)@),
            },
            Term::Apply { function, argument } => TermV::Apply {
                function: Box::new((**function)@),
                argument: Box::new((**argument)@),
            },
            Term::Constant(c) => TermV::Constant(c@),
            Term::Force(t) => TermV::Force(Box::new((**t)@)),
            Term::Error => TermV::Error,
            Term::Builtin(f) => TermV::Builtin(*f),
        }
    }
}

// ----- Specification-level term builders -----

pub open spec fn s_apply(f: TermV, a: TermV) -> TermV {
    TermV::Apply { function: Box::new(f), argument: Box::new(a) }
}

pub open spec fn s_lambda(name: Seq<char>, body: TermV) -> TermV {
    TermV::Lambda { parameter_name: name, body: Box::new(body) }
}

pub open spec fn s_force(t: TermV) -> TermV {
    TermV::Force(Box::new(t))
}

pub open spec fn s_delay(t: TermV) -> TermV {
    TermV::Delay(Box::new(t))
}

pub open spec fn s_var(name: Seq<char>) -> TermV {
    TermV::Var(name)
}

pub open spec fn s_builtin(f: DefaultFunction) -> TermV {
    TermV::Builtin(f)
}

pub open spec fn s_integer(i: i128) -> TermV {
    TermV::Constant(ConstantV::Integer(i))
}

pub open spec fn s_bool(b: bool) -> TermV {
    TermV::Constant(ConstantV::Bool(b))
}

pub open spec fn s_unit() -> TermV {
    TermV::Constant(ConstantV::Unit)
}

/// `s_apply_2(f, a, b)` is `(f a) b`.
pub open spec fn s_apply_2(f: TermV, a: TermV, b: TermV) -> TermV {
    s_apply(s_apply(f, a), b)
}

// ----- Executable term builders, each pinned to its spec builder -----

pub fn t_apply(f: Term, a: Term) -> (r: Term)
    ensures
        r@ == s_apply(f@, a@),
{
    Term::Apply { function: Box::new(f), argument: Box::new(a) }
}

pub fn t_lambda(name: String, body: Term) -> (r: Term)
    ensures
        r@ == s_lambda(name@, body@),
{
    Term::Lambda { parameter_name: name, body: Box::new(body) }
}

pub fn t_force(t: Term) -> (r: Term)
    ensures
        r@ == s_force(t@),
{
    Term::Force(Box::new(t))
}

pub fn t_delay(t: Term) -> (r: Term)
    ensures
        r@ == s_delay(t@),
{
    Term::Delay(Box::new(t))
}

pub fn t_var(name: String) -> (r: Term)
    ensures
        r@ == s_var(name@),
{
    Term::Var(name)
}

pub fn t_builtin(f: DefaultFunction) -> (r: Term)
    ensures
        r@ == s_builtin(f),
{
    Term::Builtin(f)
}

/// A target program: a version triple around a closed term.
pub struct Program {
    pub version: (u64, u64, u64),
    pub term: Term,
}

} // verus!
