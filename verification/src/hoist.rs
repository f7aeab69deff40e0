use crate::ast::FunctionAccessKey;
use crate::gen::FuncComponents;
use crate::ir::IR;
use vstd::prelude::*;

verus! {

// Discovery of a hoisted function's parts: walking its lowered body, every
// reference to a module function is a dependency, except references to the
// function itself, which instead mark it recursive.

/// The views of a sequence of function keys.
pub open spec fn keys_view(s: Seq<FunctionAccessKey>) -> Seq<(Seq<char>, Seq<char>)> {
    s.map_values(|k: FunctionAccessKey| (k.module_name@, k.function_name@))
}

/// The module-function dependencies of an IR sequence with respect to a key:
/// the keys of its module-function references in order, self-references
/// dropped; and whether a self-reference occurred.
pub open spec fn dep_calls(s: Seq<IR>, kv: (Seq<char>, Seq<char>)) -> (
    Seq<(Seq<char>, Seq<char>)>,
    bool,
)
    decreases s.len(),
{
    if s.len() == 0 {
        (Seq::empty(), false)
    } else {
        let rest = dep_calls(s.skip(1), kv);
        match s[0] {
            IR::Var { constructor, .. } => match constructor.variant {
                crate::ast::ValueConstructorVariant::ModuleFn { name, module, .. } => {
                    let c = (module@, name@);
                    if c == kv {
                        (rest.0, true)
                    } else {
                        (seq![c] + rest.0, rest.1)
                    }
                },
                _ => rest,
            },
            _ => rest,
        }
    }
}

/// A node is a reference to the given module function.
pub open spec fn is_reference_to(node: IR, kv: (Seq<char>, Seq<char>)) -> bool {
    node matches IR::Var { constructor, .. }
        && constructor.variant matches crate::ast::ValueConstructorVariant::ModuleFn {
        name,
        module,
        ..
    } && (module@, name@) == kv
}

/// The recursion mark is set exactly when some node of the body references
/// the function itself.
pub proof fn lemma_recursive_iff_self_reference(s: Seq<IR>, kv: (Seq<char>, Seq<char>))
    ensures
        dep_calls(s, kv).1 <==> exists|i: int|
            0 <= i < s.len() && is_reference_to(#[trigger] s[i], kv),
    decreases s.len(),
{
    if s.len() == 0 {
    } else {
        lemma_recursive_iff_self_reference(s.skip(1), kv);
        if dep_calls(s, kv).1 {
            if is_reference_to(s[0], kv) {
                assert(is_reference_to(s[0], kv));
            } else {
                assert(dep_calls(s.skip(1), kv).1);
                let j = choose|j: int|
                    0 <= j < s.skip(1).len() && is_reference_to(#[trigger] s.skip(1)[j], kv);
                assert(s.skip(1)[j] == s[j + 1]);
                assert(is_reference_to(s[j + 1], kv));
            }
        }
        if exists|i: int| 0 <= i < s.len() && is_reference_to(#[trigger] s[i], kv) {
            let i = choose|i: int| 0 <= i < s.len() && is_reference_to(#[trigger] s[i], kv);
            if i == 0 {
                assert(dep_calls(s, kv).1);
            } else {
                assert(s.skip(1)[i - 1] == s[i]);
                assert(is_reference_to(s.skip(1)[i - 1], kv));
                assert(dep_calls(s.skip(1), kv).1);
            }
        }
    }
}

/// Whether two keys name the same module function.
fn key_eq(a: &FunctionAccessKey, b: &FunctionAccessKey) -> (r: bool)
    ensures
        r == ((a.module_name@, a.function_name@) == (b.module_name@, b.function_name@)),
{
    let m = a.module_name == b.module_name;
    let f = a.function_name == b.function_name;
    m && f
}

/// Collects the dependencies of `s` from `start` on, and whether a
/// self-reference occurred.
fn collect_deps(s: &Vec<IR>, start: usize, key: &FunctionAccessKey) -> (r: (
    Vec<FunctionAccessKey>,
    bool,
))
    requires
        start <= s@.len(),
    ensures
        keys_view(r.0@) == dep_calls(s@.skip(start as int), key.view_pair()).0,
        r.1 == dep_calls(s@.skip(start as int), key.view_pair()).1,
    decreases s@.len() - start,
{
    if start == s.len() {
        proof {
            assert(s@.skip(start as int) =~= Seq::<IR>::empty());
            assert(keys_view(Seq::<FunctionAccessKey>::empty()) =~= Seq::<
                (Seq<char>, Seq<char>),
            >::empty());
        }
        (Vec::new(), false)
    } else {
        proof {
            assert(s@.skip(start as int)[0] == s@[start as int]);
            assert(s@.skip(start as int).skip(1) =~= s@.skip(start as int + 1));
        }
        let rest = collect_deps(s, start + 1, key);
        match &s[start] {
            IR::Var { constructor, .. } => match &constructor.variant {
                crate::ast::ValueConstructorVariant::ModuleFn { name, module, .. } => {
                    let c = FunctionAccessKey {
                        module_name: module.clone(),
                        function_name: name.clone(),
                    };
                    if key_eq(&c, key) {
                        (rest.0, true)
                    } else {
                        let mut deps = rest.0;
                        let ghost old_deps = deps@;
                        let found = rest.1;
                        deps.insert(0, c);
                        proof {
                            assert(keys_view(deps@) =~= seq![(module@, name@)] + keys_view(
                                old_deps,
                            ));
                        }
                        (deps, found)
                    }
                },
                _ => rest,
            },
            _ => rest,
        }
    }
}

/// Builds a hoisted function's parts from its key, its lowered body, and its
/// parameter names. The recursion mark is true exactly when the body
/// references the function itself, and such self-references are left out of
/// the dependencies.
pub fn make_func_components(
    key: &FunctionAccessKey,
    func_ir: Vec<IR>,
    args: Vec<String>,
) -> (r: FuncComponents)
    ensures
        r.ir == func_ir,
        r.args == args,
        keys_view(r.dependencies@) == dep_calls(func_ir@, key.view_pair()).0,
        r.recursive == dep_calls(func_ir@, key.view_pair()).1,
        r.recursive <==> exists|i: int|
            0 <= i < func_ir@.len() && is_reference_to(#[trigger] func_ir@[i], key.view_pair()),
{
    proof {
        assert(func_ir@.skip(0) =~= func_ir@);
        lemma_recursive_iff_self_reference(func_ir@, key.view_pair());
    }
    let (dependencies, recursive) = collect_deps(&func_ir, 0, key);
    FuncComponents { ir: func_ir, dependencies, args, recursive }
}

} // verus!
