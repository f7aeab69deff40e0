use vstd::prelude::*;

pub mod assemble;
pub mod ast;
pub mod lower;
pub mod builder;
pub mod gen;
pub mod hoist;
pub mod ir;
pub mod names;
pub mod scope;
pub mod shape;
pub mod term;

verus! {

/// Arguments of the project-creation command: the project's name, and whether
/// only a library skeleton (no validators folder) is wanted.
pub struct Args {
    pub name: String,
    pub lib: bool,
}

} // verus!
