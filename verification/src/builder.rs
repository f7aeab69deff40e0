use crate::ir::names_view;
use crate::names::{indexed_name, indexed_name_spec};
use crate::term::{
    s_apply, s_apply_2, s_builtin, s_delay, s_force, s_integer, s_lambda, s_unit, s_var, t_apply,
    t_builtin, t_delay, t_force, t_lambda, t_var, Constant, DefaultFunction, Term, TermV,
};
use vstd::prelude::*;

verus! {

// Canonical closed target-code fragments, emitted unchanged wherever needed:
// the accessors that expose a constructor value's tag and field list, the
// recursive field getter, and the wrapper that turns the validator result
// convention into target semantics.

/// The program-level binding name of the field-list accessor.
pub open spec fn constr_fields_exposer_name() -> Seq<char> {
    "__constr_fields_exposer"@
}

/// The program-level binding name of the field getter.
pub open spec fn constr_get_field_name() -> Seq<char> {
    "__constr_get_field"@
}

/// Applies the pair projection that reads a constructor value's integer tag:
/// the first component of the (tag, fields) pair under the data encoding.
pub open spec fn s_constr_index_exposer(constr: TermV) -> TermV {
    s_apply(
        s_force(s_force(s_builtin(DefaultFunction::FstPair))),
        s_apply(s_builtin(DefaultFunction::UnConstrData), constr),
    )
}

pub fn constr_index_exposer(constr: Term) -> (r: Term)
    ensures
        r@ == s_constr_index_exposer(constr@),
{
    t_apply(
        t_force(t_force(t_builtin(DefaultFunction::FstPair))),
        t_apply(t_builtin(DefaultFunction::UnConstrData), constr),
    )
}

/// The lambda that maps a constructor value to its field list: the second
/// component of the (tag, fields) pair under the data encoding.
pub open spec fn s_fields_exposer_lambda() -> TermV {
    s_lambda(
        "__constr_var"@,
        s_apply(
            s_force(s_force(s_builtin(DefaultFunction::SndPair))),
            s_apply(s_builtin(DefaultFunction::UnConstrData), s_var("__constr_var"@)),
        ),
    )
}

/// Binds the field-list accessor around `term` at program top.
pub open spec fn s_constr_fields_exposer(term: TermV) -> TermV {
    s_apply(s_lambda(constr_fields_exposer_name(), term), s_fields_exposer_lambda())
}

pub fn constr_fields_exposer(term: Term) -> (r: Term)
    ensures
        r@ == s_constr_fields_exposer(term@),
{
    let exposer = t_lambda(
        "__constr_var".to_owned(),
        t_apply(
            t_force(t_force(t_builtin(DefaultFunction::SndPair))),
            t_apply(t_builtin(DefaultFunction::UnConstrData), t_var("__constr_var".to_owned())),
        ),
    );
    t_apply(t_lambda("__constr_fields_exposer".to_owned(), term), exposer)
}

/// The self-applied core of the field getter: given itself, a field list and
/// an index, it advances `index` tail steps and returns the head.
pub open spec fn s_get_field_core() -> TermV {
    s_lambda(
        "__self"@,
        s_lambda(
            "__fields"@,
            s_lambda(
                "__index"@,
                s_force(
                    s_apply_2(
                        s_apply(
                            s_force(s_builtin(DefaultFunction::IfThenElse)),
                            s_apply_2(
                                s_builtin(DefaultFunction::EqualsInteger),
                                s_var("__index"@),
                                s_integer(0),
                            ),
                        ),
                        s_delay(
                            s_apply(s_force(s_builtin(DefaultFunction::HeadList)), s_var("__fields"@)),
                        ),
                        s_delay(
                            s_apply_2(
                                s_apply(s_var("__self"@), s_var("__self"@)),
                                s_apply(
                                    s_force(s_builtin(DefaultFunction::TailList)),
                                    s_var("__fields"@),
                                ),
                                s_apply_2(
                                    s_builtin(DefaultFunction::SubtractInteger),
                                    s_var("__index"@),
                                    s_integer(1),
                                ),
                            ),
                        ),
                    ),
                ),
            ),
        ),
    )
}

/// Binds the field getter around `term` at program top.
pub open spec fn s_constr_get_field(term: TermV) -> TermV {
    s_apply(
        s_lambda(constr_get_field_name(), term),
        s_apply(s_get_field_core(), s_get_field_core()),
    )
}

fn get_field_core() -> (r: Term)
    ensures
        r@ == s_get_field_core(),
{
    t_lambda(
        "__self".to_owned(),
        t_lambda(
            "__fields".to_owned(),
            t_lambda(
                "__index".to_owned(),
                t_force(
                    t_apply(
                        t_apply(
                            t_apply(
                                t_force(t_builtin(DefaultFunction::IfThenElse)),
                                t_apply(
                                    t_apply(
                                        t_builtin(DefaultFunction::EqualsInteger),
                                        t_var("__index".to_owned()),
                                    ),
                                    Term::Constant(Constant::Integer(0)),
                                ),
                            ),
                            t_delay(
                                t_apply(
                                    t_force(t_builtin(DefaultFunction::HeadList)),
                                    t_var("__fields".to_owned()),
                                ),
                            ),
                        ),
                        t_delay(
                            t_apply(
                                t_apply(
                                    t_apply(
                                        t_var("__self".to_owned()),
                                        t_var("__self".to_owned()),
                                    ),
                                    t_apply(
                                        t_force(t_builtin(DefaultFunction::TailList)),
                                        t_var("__fields".to_owned()),
                                    ),
                                ),
                                t_apply(
                                    t_apply(
                                        t_builtin(DefaultFunction::SubtractInteger),
                                        t_var("__index".to_owned()),
                                    ),
                                    Term::Constant(Constant::Integer(1)),
                                ),
                            ),
                        ),
                    ),
                ),
            ),
        ),
    )
}

pub fn constr_get_field(term: Term) -> (r: Term)
    ensures
        r@ == s_constr_get_field(term@),
{
    let core = get_field_core();
    let core2 = get_field_core();
    t_apply(t_lambda("__constr_get_field".to_owned(), term), t_apply(core, core2))
}

/// Enforces the validator result convention: if `term` evaluates to true the
/// program yields unit and succeeds; otherwise the error terminal runs.
pub open spec fn s_final_wrapper(term: TermV) -> TermV {
    s_force(
        s_apply_2(
            s_apply(s_force(s_builtin(DefaultFunction::IfThenElse)), term),
            s_delay(s_unit()),
            s_delay(TermV::Error),
        ),
    )
}

pub fn final_wrapper(term: Term) -> (r: Term)
    ensures
        r@ == s_final_wrapper(term@),
{
    t_force(
        t_apply(
            t_apply(
                t_apply(t_force(t_builtin(DefaultFunction::IfThenElse)), term),
                t_delay(Term::Constant(Constant::Unit)),
            ),
            t_delay(Term::Error),
        ),
    )
}

/// The generated name of the running list tail at step `idx`.
pub open spec fn tail_step_name(idx: nat, ids: Seq<u64>) -> Seq<char> {
    indexed_name_spec("tail_index_"@, idx as int, ids[idx as int])
}

/// The list-destructuring template: each declared name is bound to the head
/// of the running tail, each intermediate tail to a fresh name so that
/// `TailList` compositions are not re-evaluated; with `tail`, the last name
/// binds the running tail itself. The whole chain is a lambda awaiting the
/// running tail of step `idx`.
pub open spec fn list_access_term(
    names: Seq<Seq<char>>,
    ids: Seq<u64>,
    tail: bool,
    idx: nat,
    term: TermV,
) -> TermV
    decreases names.len(),
{
    let tn = tail_step_name(idx, ids);
    if names.len() == 2 && tail {
        s_lambda(
            tn,
            s_apply(
                s_lambda(
                    names[0],
                    s_apply(
                        s_lambda(names[1], term),
                        s_apply(s_force(s_builtin(DefaultFunction::TailList)), s_var(tn)),
                    ),
                ),
                s_apply(s_force(s_builtin(DefaultFunction::HeadList)), s_var(tn)),
            ),
        )
    } else if names.len() <= 1 {
        s_lambda(
            tn,
            s_apply(
                s_lambda(names[0], term),
                s_apply(s_force(s_builtin(DefaultFunction::HeadList)), s_var(tn)),
            ),
        )
    } else {
        s_lambda(
            tn,
            s_apply(
                s_lambda(
                    names[0],
                    s_apply(
                        list_access_term(names.skip(1), ids, tail, (idx + 1) as nat, term),
                        s_apply(s_force(s_builtin(DefaultFunction::TailList)), s_var(tn)),
                    ),
                ),
                s_apply(s_force(s_builtin(DefaultFunction::HeadList)), s_var(tn)),
            ),
        )
    }
}

fn list_access_chain(
    names: &Vec<String>,
    first: usize,
    id_list: &Vec<u64>,
    tail: bool,
    current_index: usize,
    term: Term,
) -> (r: Term)
    requires
        first < names@.len(),
        current_index + (names@.len() - first) <= id_list@.len(),
    ensures
        r@ == list_access_term(
            names_view(names@).skip(first as int),
            id_list@,
            tail,
            current_index as nat,
            term@,
        ),
    decreases names@.len() - first,
{
    proof {
        assert(names_view(names@).len() == names@.len());
        assert(names_view(names@).skip(first as int).len() == names@.len() - first);
        assert(names_view(names@).skip(first as int)[0] == names@[first as int]@);
    }
    let tn = indexed_name("tail_index_", current_index, id_list[current_index]);
    let remaining = names.len() - first;
    if remaining == 2 && tail {
        proof {
            assert(names_view(names@).skip(first as int)[1] == names@[first as int + 1]@);
        }
        t_lambda(
            tn.clone(),
            t_apply(
                t_lambda(
                    names[first].clone(),
                    t_apply(
                        t_lambda(names[first + 1].clone(), term),
                        t_apply(
                            t_force(t_builtin(DefaultFunction::TailList)),
                            t_var(tn.clone()),
                        ),
                    ),
                ),
                t_apply(t_force(t_builtin(DefaultFunction::HeadList)), t_var(tn)),
            ),
        )
    } else if remaining == 1 {
        t_lambda(
            tn.clone(),
            t_apply(
                t_lambda(names[first].clone(), term),
                t_apply(t_force(t_builtin(DefaultFunction::HeadList)), t_var(tn)),
            ),
        )
    } else {
        let id_count = id_list.len();
        proof {
            assert(id_list@.len() == id_count);
            assert(current_index + 1 <= id_count);
        }
        let inner = list_access_chain(names, first + 1, id_list, tail, current_index + 1, term);
        proof {
            assert(names_view(names@).skip(first as int).skip(1) =~= names_view(names@).skip(
                first as int + 1,
            ));
        }
        t_lambda(
            tn.clone(),
            t_apply(
                t_lambda(
                    names[first].clone(),
                    t_apply(
                        inner,
                        t_apply(
                            t_force(t_builtin(DefaultFunction::TailList)),
                            t_var(tn.clone()),
                        ),
                    ),
                ),
                t_apply(t_force(t_builtin(DefaultFunction::HeadList)), t_var(tn)),
            ),
        )
    }
}

/// Builds the destructuring chain for the names a list pattern binds beyond
/// the first, starting from the running tail of step `current_index`; `term`
/// is the continuation in which the names are in scope.
pub fn list_access_to_uplc(
    names: &Vec<String>,
    id_list: &Vec<u64>,
    tail: bool,
    current_index: usize,
    term: Term,
) -> (r: Term)
    requires
        names@.len() >= 1,
        current_index + names@.len() <= id_list@.len(),
    ensures
        r@ == list_access_term(
            names_view(names@),
            id_list@,
            tail,
            current_index as nat,
            term@,
        ),
{
    proof {
        assert(names_view(names@).skip(0) =~= names_view(names@));
    }
    list_access_chain(names, 0, id_list, tail, current_index, term)
}

} // verus!
