use crate::ast::{DataType, DataTypeKey, FunctionAccessKey, TypeInfo, TypedFunction};
use crate::ir::IR;
use crate::scope::IdGenerator;
use vstd::prelude::*;

verus! {

/// Why code generation stopped: a source construct the lowering does not
/// yet translate, a name the ambient tables cannot resolve, an integer
/// literal outside the target range, or an internal arity fault.
pub enum CodeGenError {
    /// The named construct has no lowering yet.
    Unsupported { construct: String },
    /// A module, value, data type or constructor the tables do not hold.
    MissingDefinition { name: String },
    /// An integer literal that does not denote a value of the target's
    /// integer constants.
    BadInteger { value: String },
    /// The argument stack ran dry: the IR sequence was not arity-balanced.
    StackUnderflow,
    /// Function hoisting nested deeper than the function table allows,
    /// which only a cyclic dependency chain can cause.
    HoistTooDeep,
}

/// A hoisted function's parts: its lowered body, the module functions it
/// references, its parameter names, and whether it references itself.
pub struct FuncComponents {
    pub ir: Vec<IR>,
    pub dependencies: Vec<FunctionAccessKey>,
    pub args: Vec<String>,
    pub recursive: bool,
}

/// The ambient tables a lowering reads, as one specification value.
pub struct LowerCtx {
    pub fns: Seq<(FunctionAccessKey, TypedFunction)>,
    pub dts: Seq<(DataTypeKey, DataType)>,
    pub mts: Seq<(String, TypeInfo)>,
}

/// The code generator: the ambient tables, the functions already emitted,
/// the fresh-id counter, and whether field-access helpers are needed.
pub struct CodeGenerator {
    pub defined_functions: Vec<FunctionAccessKey>,
    pub functions: Vec<(FunctionAccessKey, TypedFunction)>,
    pub data_types: Vec<(DataTypeKey, DataType)>,
    pub module_types: Vec<(String, TypeInfo)>,
    pub id_gen: IdGenerator,
    pub needs_field_access: bool,
}

impl CodeGenerator {
    /// The tables of this generator, as the lowering specification reads
    /// them.
    pub open spec fn ctx(&self) -> LowerCtx {
        LowerCtx { fns: self.functions@, dts: self.data_types@, mts: self.module_types@ }
    }

    /// The parts of the generator the lowering never changes.
    pub open spec fn same_tables(&self, other: &CodeGenerator) -> bool {
        &&& self.functions == other.functions
        &&& self.data_types == other.data_types
        &&& self.module_types == other.module_types
    }

    pub fn new(
        functions: Vec<(FunctionAccessKey, TypedFunction)>,
        data_types: Vec<(DataTypeKey, DataType)>,
        module_types: Vec<(String, TypeInfo)>,
    ) -> (r: CodeGenerator)
        ensures
            r.functions == functions,
            r.data_types == data_types,
            r.module_types == module_types,
            r.defined_functions@.len() == 0,
            r.id_gen.count == 0,
            !r.needs_field_access,
    {
        CodeGenerator {
            defined_functions: Vec::new(),
            functions,
            data_types,
            module_types,
            id_gen: IdGenerator::new(),
            needs_field_access: false,
        }
    }
}

} // verus!
