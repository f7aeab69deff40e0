use vstd::prelude::*;

verus! {

// The typed abstract syntax the code generator consumes, reduced to what the
// lowering reads: expression shapes, patterns, types, and the ambient tables
// that resolve constructors and module values.

/// Identifies a data type declaration: defining module and type name.
pub struct DataTypeKey {
    pub module_name: String,
    pub defined_type: String,
}

/// Identifies a module function: defining module and function name.
pub struct FunctionAccessKey {
    pub module_name: String,
    pub function_name: String,
}

impl FunctionAccessKey {
    /// The pair of name views that stands for this key in specifications.
    pub open spec fn view_pair(&self) -> (Seq<char>, Seq<char>) {
        (self.module_name@, self.function_name@)
    }

    pub fn duplicate(&self) -> (r: FunctionAccessKey)
        ensures
            r == *self,
    {
        let r = FunctionAccessKey {
            module_name: self.module_name.clone(),
            function_name: self.function_name.clone(),
        };
        r
    }
}

/// A source-language type, as far as code generation inspects it.
pub enum Type {
    App { module: String, name: String, args: Vec<Type> },
    Fn { args: Vec<Type>, ret: Box<Type> },
    Var,
    Tuple,
}

/// The mathematical value of a `Type`: the same tree over character
/// sequences.
pub enum TypeV {
    App { module: Seq<char>, name: Seq<char>, args: Seq<TypeV> },
    Fn { args: Seq<TypeV>, ret: Box<TypeV> },
    Var,
    Tuple,
}

pub open spec fn type_seq_view(s: Seq<Type>) -> Seq<TypeV>
    decreases s,
{
    if s.len() == 0 {
        Seq::empty()
    } else {
        type_seq_view(s.drop_last()).push(s.last()@)
    }
}

impl View for Type {
    type V = TypeV;

    open spec fn view(&self) -> TypeV
        decreases self,
    {
        match self {
            Type::App { module, name, args } => TypeV::App {
                module: module@,
                name: name@,
                args: type_seq_view(args@),
            },
            Type::Fn { args, ret } => TypeV::Fn {
                args: type_seq_view(args@),
                ret: Box::new((**ret)@),
            },
            Type::Var => TypeV::Var,
            Type::Tuple => TypeV::Tuple,
        }
    }
}

pub proof fn lemma_type_seq_view_index(s: Seq<Type>, i: int)
    requires
        0 <= i < s.len(),
    ensures
        type_seq_view(s).len() == s.len(),
        type_seq_view(s)[i] == s[i]@,
    decreases s,
{
    lemma_type_seq_view_len(s);
    lemma_type_seq_view_len(s.drop_last());
    assert(type_seq_view(s) == type_seq_view(s.drop_last()).push(s.last()@));
    if i < s.len() - 1 {
        lemma_type_seq_view_index(s.drop_last(), i);
        assert(s.drop_last()[i] == s[i]);
    } else {
        assert(s.last() == s[i]);
    }
}

pub proof fn lemma_type_seq_view_len(s: Seq<Type>)
    ensures
        type_seq_view(s).len() == s.len(),
    decreases s,
{
    if s.len() > 0 {
        lemma_type_seq_view_len(s.drop_last());
        assert(type_seq_view(s) == type_seq_view(s.drop_last()).push(s.last()@));
        assert(type_seq_view(s).len() == type_seq_view(s.drop_last()).len() + 1);
    } else {
        assert(type_seq_view(s) == Seq::<TypeV>::empty());
    }
}

impl TypeV {
    pub open spec fn is_named(self, n: Seq<char>) -> bool {
        self matches TypeV::App { name, .. } && name == n
    }

    pub open spec fn is_int(self) -> bool {
        self.is_named("Int"@)
    }

    pub open spec fn is_bytearray(self) -> bool {
        self.is_named("ByteArray"@)
    }

    pub open spec fn is_string(self) -> bool {
        self.is_named("String"@)
    }

    pub open spec fn is_bool(self) -> bool {
        self.is_named("Bool"@)
    }

    pub open spec fn is_list(self) -> bool {
        self.is_named("List"@)
    }
}

/// Compares a string against a literal; the building block of every name
/// test below.
pub fn str_eq(a: &String, b: &str) -> (r: bool)
    ensures
        r == (a@ == b@),
{
    let other: String = b.to_owned();
    *a == other
}

impl Type {
    pub fn is_named(&self, n: &str) -> (r: bool)
        ensures
            r == self@.is_named(n@),
    {
        match self {
            Type::App { name, .. } => str_eq(name, n),
            _ => false,
        }
    }
}

/// How a named value resolves: a local binding, a module constant, a module
/// function (possibly a builtin), or a data constructor.
pub enum ValueConstructorVariant {
    LocalVariable,
    ModuleConstant,
    ModuleFn { name: String, module: String, builtin: Option<crate::term::DefaultFunction> },
    Record { name: String },
}

/// A resolved value reference: its type and how it resolves.
pub struct ValueConstructor {
    pub tipo: Type,
    pub variant: ValueConstructorVariant,
}

/// The mathematical value of a `ValueConstructorVariant`.
pub enum VariantV {
    LocalVariable,
    ModuleConstant,
    ModuleFn { name: Seq<char>, module: Seq<char>, builtin: Option<crate::term::DefaultFunction> },
    Record { name: Seq<char> },
}

impl View for ValueConstructorVariant {
    type V = VariantV;

    open spec fn view(&self) -> VariantV {
        match self {
            ValueConstructorVariant::LocalVariable => VariantV::LocalVariable,
            ValueConstructorVariant::ModuleConstant => VariantV::ModuleConstant,
            ValueConstructorVariant::ModuleFn { name, module, builtin } => VariantV::ModuleFn {
                name: name@,
                module: module@,
                builtin: *builtin,
            },
            ValueConstructorVariant::Record { name } => VariantV::Record { name: name@ },
        }
    }
}

/// The mathematical value of a `ValueConstructor`.
pub struct ValueConstructorV {
    pub tipo: TypeV,
    pub variant: VariantV,
}

impl View for ValueConstructor {
    type V = ValueConstructorV;

    open spec fn view(&self) -> ValueConstructorV {
        ValueConstructorV { tipo: self.tipo@, variant: self.variant@ }
    }
}

impl ValueConstructor {
    pub fn public(tipo: Type, variant: ValueConstructorVariant) -> (r: ValueConstructor)
        ensures
            r.tipo == tipo,
            r.variant == variant,
    {
        ValueConstructor { tipo, variant }
    }
}

/// What kind of binding an assignment makes.
#[derive(Clone, Copy, PartialEq, Eq, Structural)]
pub enum AssignmentKind {
    Let,
    Assert,
}

/// Binary operators of the source language.
#[derive(Clone, Copy, PartialEq, Eq, Structural)]
pub enum BinOp {
    And,
    Or,
    Eq,
    NotEq,
    LtInt,
    LtEqInt,
    GtEqInt,
    GtInt,
    AddInt,
    SubInt,
    MultInt,
    DivInt,
    ModInt,
}

/// Maps a record constructor's labels to field positions.
pub struct FieldMap {
    pub fields: Vec<(String, usize)>,
}

/// How a constructor pattern resolved during type checking.
pub enum PatternConstructor {
    Record { name: String, field_map: Option<FieldMap> },
}

/// A pattern, as far as the lowering supports patterns.
pub enum Pattern {
    Int { value: String },
    String { value: String },
    Var { name: String },
    VarUsage { name: String },
    Assign { name: String },
    Discard { name: String },
    List { elements: Vec<Pattern>, tail: Option<Box<Pattern>> },
    Constructor {
        is_record: bool,
        name: String,
        arguments: Vec<CallArgPattern>,
        constructor: PatternConstructor,
        tipo: Type,
    },
    Tuple,
}

/// A labelled argument in a call or constructor pattern.
pub struct CallArgPattern {
    pub label: Option<String>,
    pub value: Pattern,
}

/// A labelled argument of a call expression.
pub struct CallArg {
    pub label: Option<String>,
    pub value: TypedExpr,
}

/// One branch of a `when` expression.
pub struct TypedClause {
    pub pattern: Vec<Pattern>,
    pub body: TypedExpr,
}

/// A module selection target: data constructor, function, or constant.
pub enum ModuleValueConstructor {
    Record,
    Fn { name: String },
    Constant,
}

/// A type-checked expression, reduced to the fields the lowering reads.
pub enum TypedExpr {
    Int { value: String },
    String { value: String },
    ByteArray { bytes: Vec<u8> },
    Sequence { expressions: Vec<TypedExpr> },
    Pipeline { expressions: Vec<TypedExpr> },
    Var { constructor: ValueConstructor, name: String },
    Fn,
    List { elements: Vec<TypedExpr>, tail: Option<Box<TypedExpr>>, tipo: Type },
    Call { fun: Box<TypedExpr>, args: Vec<CallArg> },
    BinOp {
        name: BinOp,
        left: Box<TypedExpr>,
        right: Box<TypedExpr>,
        /// The type of the left operand (the type checker has proved both
        /// operands share it), not the operator's result type: it selects
        /// the per-type equality builtin downstream.
        tipo: Type,
    },
    Assignment { value: Box<TypedExpr>, pattern: Pattern, kind: AssignmentKind, tipo: Type },
    Trace,
    When {
        subjects: Vec<TypedExpr>,
        clauses: Vec<TypedClause>,
        /// The type of the subject, not of the whole expression: it decides
        /// how the subject is bound and how clause heads are compared.
        tipo: Type,
    },
    If,
    RecordAccess { record: Box<TypedExpr>, index: u64, tipo: Type },
    ModuleSelect { constructor: ModuleValueConstructor, module_name: String },
    Todo,
    RecordUpdate,
    Negate,
    Tuple,
}

/// The name of a function argument, as written.
pub enum ArgName {
    Named { name: String },
    NamedLabeled { name: String, label: String },
    Discard { name: String },
}

impl ArgName {
    /// The variable name an argument binds, if it binds one.
    pub open spec fn spec_variable_name(&self) -> Option<Seq<char>> {
        match self {
            ArgName::Named { name } => Some(name@),
            ArgName::NamedLabeled { name, .. } => Some(name@),
            ArgName::Discard { .. } => None,
        }
    }
}

/// A typed function argument.
pub struct TypedArg {
    pub arg_name: ArgName,
    pub tipo: Type,
}

/// A typed module function definition: what hoisting needs of it.
pub struct TypedFunction {
    pub arguments: Vec<TypedArg>,
    pub body: TypedExpr,
}

/// One constructor argument of a data type declaration.
pub struct RecordConstructorArg {
    pub label: Option<String>,
    pub tipo: Type,
}

/// One constructor of a data type declaration.
pub struct RecordConstructor {
    pub name: String,
    pub arguments: Vec<RecordConstructorArg>,
}

/// A data type declaration: its constructors in declared order.
pub struct DataType {
    pub constructors: Vec<RecordConstructor>,
}

/// The value environment of a module: its named values.
pub struct TypeInfo {
    pub values: Vec<(String, ValueConstructor)>,
}

// ----- Table lookups -----
// Every ambient table is an association list looked up by name views; the
// first entry with a matching key wins.

pub open spec fn lookup_data_type(
    s: Seq<(DataTypeKey, DataType)>,
    module: Seq<char>,
    name: Seq<char>,
) -> Option<int>
    decreases s.len(),
{
    if s.len() == 0 {
        None
    } else if s[0].0.module_name@ == module && s[0].0.defined_type@ == name {
        Some(0)
    } else {
        match lookup_data_type(s.skip(1), module, name) {
            Some(i) => Some(i + 1),
            None => None,
        }
    }
}

pub open spec fn lookup_module(s: Seq<(String, TypeInfo)>, name: Seq<char>) -> Option<int>
    decreases s.len(),
{
    if s.len() == 0 {
        None
    } else if s[0].0@ == name {
        Some(0)
    } else {
        match lookup_module(s.skip(1), name) {
            Some(i) => Some(i + 1),
            None => None,
        }
    }
}

pub open spec fn lookup_value(s: Seq<(String, ValueConstructor)>, name: Seq<char>) -> Option<int>
    decreases s.len(),
{
    if s.len() == 0 {
        None
    } else if s[0].0@ == name {
        Some(0)
    } else {
        match lookup_value(s.skip(1), name) {
            Some(i) => Some(i + 1),
            None => None,
        }
    }
}

pub open spec fn lookup_function(
    s: Seq<(FunctionAccessKey, TypedFunction)>,
    module: Seq<char>,
    name: Seq<char>,
) -> Option<int>
    decreases s.len(),
{
    if s.len() == 0 {
        None
    } else if s[0].0.module_name@ == module && s[0].0.function_name@ == name {
        Some(0)
    } else {
        match lookup_function(s.skip(1), module, name) {
            Some(i) => Some(i + 1),
            None => None,
        }
    }
}

/// The position of the constructor with the given name in a data type's
/// declared constructor order.
pub open spec fn lookup_constructor(s: Seq<RecordConstructor>, name: Seq<char>) -> Option<int>
    decreases s.len(),
{
    if s.len() == 0 {
        None
    } else if s[0].name@ == name {
        Some(0)
    } else {
        match lookup_constructor(s.skip(1), name) {
            Some(i) => Some(i + 1),
            None => None,
        }
    }
}

/// The field position a label maps to, or 0 when the label is absent.
pub open spec fn lookup_field_index(s: Seq<(String, usize)>, label: Seq<char>) -> usize
    decreases s.len(),
{
    if s.len() == 0 {
        0
    } else if s[0].0@ == label {
        s[0].1
    } else {
        lookup_field_index(s.skip(1), label)
    }
}

/// Copies a byte vector.
pub fn clone_bytes(v: &Vec<u8>) -> (r: Vec<u8>)
    ensures
        r@ == v@,
{
    let r = v.clone();
    proof {
        assert(r@ =~= v@);
    }
    r
}

/// Copies a type tree; the copy has the same mathematical value.
pub fn clone_type(t: &Type) -> (r: Type)
    ensures
        r@ == t@,
    decreases *t,
{
    match t {
        Type::App { module, name, args } => {
            let r = Type::App { module: module.clone(), name: name.clone(), args: clone_types(args) };
            r
        },
        Type::Fn { args, ret } => Type::Fn { args: clone_types(args), ret: Box::new(clone_type(ret)) },
        Type::Var => Type::Var,
        Type::Tuple => Type::Tuple,
    }
}

/// Copies a vector of types.
pub fn clone_types(v: &Vec<Type>) -> (r: Vec<Type>)
    ensures
        type_seq_view(r@) == type_seq_view(v@),
        r@.len() == v@.len(),
    decreases v@,
{
    let mut r: Vec<Type> = Vec::new();
    let mut i: usize = 0;
    while i < v.len()
        invariant
            i <= v@.len(),
            r@.len() == i,
            forall|j: int| 0 <= j < i ==> (#[trigger] r@[j])@ == v@[j]@,
        decreases v@.len() - i,
    {
        proof {
            assert(v@[i as int] == v@.index(i as int));
        }
        let c = clone_type(&v[i]);
        r.push(c);
        i = i + 1;
    }
    proof {
        assert forall|j: int| 0 <= j < v@.len() implies type_seq_view(r@)[j] == type_seq_view(
            v@,
        )[j] by {
            lemma_type_seq_view_index(r@, j);
            lemma_type_seq_view_index(v@, j);
        }
        lemma_type_seq_view_len(r@);
        lemma_type_seq_view_len(v@);
        assert(type_seq_view(r@) =~= type_seq_view(v@));
    }
    r
}

/// Copies a resolved value reference; the copy has the same mathematical
/// value.
pub fn clone_value_constructor(v: &ValueConstructor) -> (r: ValueConstructor)
    ensures
        r@ == v@,
{
    let variant = match &v.variant {
        ValueConstructorVariant::LocalVariable => ValueConstructorVariant::LocalVariable,
        ValueConstructorVariant::ModuleConstant => ValueConstructorVariant::ModuleConstant,
        ValueConstructorVariant::ModuleFn { name, module, builtin } => {
            ValueConstructorVariant::ModuleFn {
                name: name.clone(),
                module: module.clone(),
                builtin: *builtin,
            }
        },
        ValueConstructorVariant::Record { name } => ValueConstructorVariant::Record {
            name: name.clone(),
        },
    };
    ValueConstructor { tipo: clone_type(&v.tipo), variant }
}

// ----- Executable lookups, each pinned to its specification -----

pub fn lookup_data_type_exec(
    s: &Vec<(DataTypeKey, DataType)>,
    start: usize,
    module: &String,
    name: &String,
) -> (r: Option<usize>)
    requires
        start <= s@.len(),
    ensures
        match lookup_data_type(s@.skip(start as int), module@, name@) {
            Some(i) => 0 <= i && start + i < s@.len() && r == Some((start + i) as usize),
            None => r is None,
        },
    decreases s@.len() - start,
{
    if start == s.len() {
        None
    } else {
        proof {
            assert(s@.skip(start as int)[0] == s@[start as int]);
            assert(s@.skip(start as int).skip(1) =~= s@.skip(start as int + 1));
        }
        if s[start].0.module_name == *module && s[start].0.defined_type == *name {
            Some(start)
        } else {
            lookup_data_type_exec(s, start + 1, module, name)
        }
    }
}

pub fn lookup_module_exec(s: &Vec<(String, TypeInfo)>, start: usize, name: &String) -> (r: Option<
    usize,
>)
    requires
        start <= s@.len(),
    ensures
        match lookup_module(s@.skip(start as int), name@) {
            Some(i) => 0 <= i && start + i < s@.len() && r == Some((start + i) as usize),
            None => r is None,
        },
    decreases s@.len() - start,
{
    if start == s.len() {
        None
    } else {
        proof {
            assert(s@.skip(start as int)[0] == s@[start as int]);
            assert(s@.skip(start as int).skip(1) =~= s@.skip(start as int + 1));
        }
        if s[start].0 == *name {
            Some(start)
        } else {
            lookup_module_exec(s, start + 1, name)
        }
    }
}

pub fn lookup_value_exec(
    s: &Vec<(String, ValueConstructor)>,
    start: usize,
    name: &String,
) -> (r: Option<usize>)
    requires
        start <= s@.len(),
    ensures
        match lookup_value(s@.skip(start as int), name@) {
            Some(i) => 0 <= i && start + i < s@.len() && r == Some((start + i) as usize),
            None => r is None,
        },
    decreases s@.len() - start,
{
    if start == s.len() {
        None
    } else {
        proof {
            assert(s@.skip(start as int)[0] == s@[start as int]);
            assert(s@.skip(start as int).skip(1) =~= s@.skip(start as int + 1));
        }
        if s[start].0 == *name {
            Some(start)
        } else {
            lookup_value_exec(s, start + 1, name)
        }
    }
}

pub fn lookup_function_exec(
    s: &Vec<(FunctionAccessKey, TypedFunction)>,
    start: usize,
    module: &String,
    name: &String,
) -> (r: Option<usize>)
    requires
        start <= s@.len(),
    ensures
        match lookup_function(s@.skip(start as int), module@, name@) {
            Some(i) => 0 <= i && start + i < s@.len() && r == Some((start + i) as usize),
            None => r is None,
        },
    decreases s@.len() - start,
{
    if start == s.len() {
        None
    } else {
        proof {
            assert(s@.skip(start as int)[0] == s@[start as int]);
            assert(s@.skip(start as int).skip(1) =~= s@.skip(start as int + 1));
        }
        if s[start].0.module_name == *module && s[start].0.function_name == *name {
            Some(start)
        } else {
            lookup_function_exec(s, start + 1, module, name)
        }
    }
}

pub fn lookup_constructor_exec(s: &Vec<RecordConstructor>, start: usize, name: &String) -> (r:
    Option<usize>)
    requires
        start <= s@.len(),
    ensures
        match lookup_constructor(s@.skip(start as int), name@) {
            Some(i) => 0 <= i && start + i < s@.len() && r == Some((start + i) as usize),
            None => r is None,
        },
    decreases s@.len() - start,
{
    if start == s.len() {
        None
    } else {
        proof {
            assert(s@.skip(start as int)[0] == s@[start as int]);
            assert(s@.skip(start as int).skip(1) =~= s@.skip(start as int + 1));
        }
        if s[start].name == *name {
            Some(start)
        } else {
            lookup_constructor_exec(s, start + 1, name)
        }
    }
}

pub fn lookup_field_index_exec(s: &Vec<(String, usize)>, start: usize, label: &String) -> (r: usize)
    requires
        start <= s@.len(),
    ensures
        r == lookup_field_index(s@.skip(start as int), label@),
    decreases s@.len() - start,
{
    if start == s.len() {
        0
    } else {
        proof {
            assert(s@.skip(start as int)[0] == s@[start as int]);
            assert(s@.skip(start as int).skip(1) =~= s@.skip(start as int + 1));
        }
        if s[start].0 == *label {
            s[start].1
        } else {
            lookup_field_index_exec(s, start + 1, label)
        }
    }
}

/// Finds a data type by key, searching from the front.
pub fn find_data_type(s: &Vec<(DataTypeKey, DataType)>, module: &String, name: &String) -> (r:
    Option<usize>)
    ensures
        r is Some <==> lookup_data_type(s@, module@, name@) is Some,
        r matches Some(i) ==> i < s@.len() && lookup_data_type(s@, module@, name@) == Some(i as int),
{
    let n = s.len();
    proof {
        assert(s@.len() == n);
        assert(s@.skip(0) =~= s@);
    }
    let r = lookup_data_type_exec(s, 0, module, name);
    proof {
        let res = lookup_data_type(s@.skip(0), module@, name@);
        assert(lookup_data_type(s@, module@, name@) == res);
        if res is None {
            assert(r is None);
        } else {
            assert(res matches Some(j) && 0 <= j && 0 + j < s@.len() && r == Some(
                (0 + j) as usize,
            ));
            assert(r matches Some(i) ==> i < s@.len() && res == Some(i as int));
        }
    }
    r
}

/// Finds a module's environment by name, searching from the front.
pub fn find_module(s: &Vec<(String, TypeInfo)>, name: &String) -> (r: Option<usize>)
    ensures
        r is Some <==> lookup_module(s@, name@) is Some,
        r matches Some(i) ==> i < s@.len() && lookup_module(s@, name@) == Some(i as int),
{
    let n = s.len();
    proof {
        assert(s@.len() == n);
        assert(s@.skip(0) =~= s@);
    }
    let r = lookup_module_exec(s, 0, name);
    proof {
        let res = lookup_module(s@.skip(0), name@);
        assert(lookup_module(s@, name@) == res);
        if res is None {
            assert(r is None);
        } else {
            assert(res matches Some(j) && 0 <= j && 0 + j < s@.len() && r == Some(
                (0 + j) as usize,
            ));
            assert(r matches Some(i) ==> i < s@.len() && res == Some(i as int));
        }
    }
    r
}

/// Finds a module value by name, searching from the front.
pub fn find_value(s: &Vec<(String, ValueConstructor)>, name: &String) -> (r: Option<usize>)
    ensures
        r is Some <==> lookup_value(s@, name@) is Some,
        r matches Some(i) ==> i < s@.len() && lookup_value(s@, name@) == Some(i as int),
{
    let n = s.len();
    proof {
        assert(s@.len() == n);
        assert(s@.skip(0) =~= s@);
    }
    let r = lookup_value_exec(s, 0, name);
    proof {
        let res = lookup_value(s@.skip(0), name@);
        assert(lookup_value(s@, name@) == res);
        if res is None {
            assert(r is None);
        } else {
            assert(res matches Some(j) && 0 <= j && 0 + j < s@.len() && r == Some(
                (0 + j) as usize,
            ));
            assert(r matches Some(i) ==> i < s@.len() && res == Some(i as int));
        }
    }
    r
}

/// Finds a module function by key, searching from the front.
pub fn find_function(
    s: &Vec<(FunctionAccessKey, TypedFunction)>,
    module: &String,
    name: &String,
) -> (r: Option<usize>)
    ensures
        r is Some <==> lookup_function(s@, module@, name@) is Some,
        r matches Some(i) ==> i < s@.len() && lookup_function(s@, module@, name@) == Some(i as int),
{
    let n = s.len();
    proof {
        assert(s@.len() == n);
        assert(s@.skip(0) =~= s@);
    }
    let r = lookup_function_exec(s, 0, module, name);
    proof {
        let res = lookup_function(s@.skip(0), module@, name@);
        assert(lookup_function(s@, module@, name@) == res);
        if res is None {
            assert(r is None);
        } else {
            assert(res matches Some(j) && 0 <= j && 0 + j < s@.len() && r == Some(
                (0 + j) as usize,
            ));
            assert(r matches Some(i) ==> i < s@.len() && res == Some(i as int));
        }
    }
    r
}

/// Finds a constructor by name in declared order.
pub fn find_constructor(s: &Vec<RecordConstructor>, name: &String) -> (r: Option<usize>)
    ensures
        r is Some <==> lookup_constructor(s@, name@) is Some,
        r matches Some(i) ==> i < s@.len() && lookup_constructor(s@, name@) == Some(i as int),
{
    let n = s.len();
    proof {
        assert(s@.len() == n);
        assert(s@.skip(0) =~= s@);
    }
    let r = lookup_constructor_exec(s, 0, name);
    proof {
        let res = lookup_constructor(s@.skip(0), name@);
        assert(lookup_constructor(s@, name@) == res);
        if res is None {
            assert(r is None);
        } else {
            assert(res matches Some(j) && 0 <= j && 0 + j < s@.len() && r == Some(
                (0 + j) as usize,
            ));
            assert(r matches Some(i) ==> i < s@.len() && res == Some(i as int));
        }
    }
    r
}

} // verus!
