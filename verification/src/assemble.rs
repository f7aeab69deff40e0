use crate::ast::{ArgName, TypedArg};
use crate::builder::{
    constr_fields_exposer, constr_get_field, final_wrapper, s_constr_fields_exposer,
    s_constr_get_field, s_final_wrapper,
};
use crate::gen::CodeGenerator;
use crate::term::{s_lambda, t_lambda, Program, Term, TermV};
use vstd::prelude::*;

verus! {

// The program assembler: wraps the reduced validator body in the helper
// bindings it needs, enforces the validator result convention, abstracts the
// source arguments in order, and fixes the program version. Assigning unique
// identities to names is the interner's concern, outside this library.

/// The name an argument binds in the program: its variable name, or an
/// underscore for unnamed and discarded arguments.
pub open spec fn spec_arg_name(a: ArgName) -> Seq<char> {
    match a.spec_variable_name() {
        Some(n) => n,
        None => "_"@,
    }
}

/// Wraps `term` in one lambda per source argument: the first argument binds
/// outermost.
pub open spec fn wrap_args(args: Seq<TypedArg>, term: TermV) -> TermV
    decreases args.len(),
{
    if args.len() == 0 {
        term
    } else {
        s_lambda(spec_arg_name(args[0].arg_name), wrap_args(args.skip(1), term))
    }
}

/// The assembled program term: the body, under the field-access bindings
/// when they are needed, under the validator result wrapper, under the
/// argument lambdas.
pub open spec fn assemble_spec(body: TermV, args: Seq<TypedArg>, needs_field_access: bool) -> TermV {
    let with_access = if needs_field_access {
        s_constr_fields_exposer(s_constr_get_field(body))
    } else {
        body
    };
    wrap_args(args, s_final_wrapper(with_access))
}

fn wrap_args_exec(args: &Vec<TypedArg>, first: usize, term: Term) -> (r: Term)
    requires
        first <= args@.len(),
    ensures
        r@ == wrap_args(args@.skip(first as int), term@),
    decreases args@.len() - first,
{
    if first == args.len() {
        proof {
            assert(args@.skip(first as int) =~= Seq::<TypedArg>::empty());
        }
        term
    } else {
        proof {
            assert(args@.skip(first as int)[0] == args@[first as int]);
            assert(args@.skip(first as int).skip(1) =~= args@.skip(first as int + 1));
        }
        let inner = wrap_args_exec(args, first + 1, term);
        let name: String = match &args[first].arg_name {
            ArgName::Named { name } => name.clone(),
            ArgName::NamedLabeled { name, .. } => name.clone(),
            ArgName::Discard { .. } => "_".to_owned(),
        };
        t_lambda(name, inner)
    }
}

impl CodeGenerator {
    /// Assembles the final program from the reduced body: installs the
    /// field-access helper bindings exactly when one was needed, enforces
    /// the validator result convention, abstracts the source arguments in
    /// order (an underscore for discards), and sets the version.
    pub fn assemble(&self, body: Term, arguments: &Vec<TypedArg>) -> (r: Program)
        ensures
            r.version == (1u64, 0u64, 0u64),
            r.term@ == assemble_spec(body@, arguments@, self.needs_field_access),
    {
        let mut term = body;
        if self.needs_field_access {
            term = constr_get_field(term);
            term = constr_fields_exposer(term);
        }
        term = final_wrapper(term);
        proof {
            assert(arguments@.skip(0) =~= arguments@);
        }
        let term = wrap_args_exec(arguments, 0, term);
        Program { version: (1, 0, 0), term }
    }
}

} // verus!
