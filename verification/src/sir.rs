//! SIR: the typed intermediate representation that the backend compiles.
use crate::constant::UplcConstant;
use crate::default_fun::DefaultFun;
use crate::module::AnnotationsDecl;
use crate::sir_type::{DataDecl, SIRType, TypeVar};
use vstd::prelude::*;

verus! {

/// Flags of a let binding.
#[derive(Debug, Clone, Copy, PartialEq, Eq, Structural)]
pub struct LetFlags {
    pub is_rec: bool,
    pub is_lazy: bool,
}

/// A pattern of a match case.
#[derive(Debug, PartialEq)]
pub enum Pattern {
    Constr {
        constr_name: String,
        decl_name: String,
        bindings: Vec<String>,
        type_params_bindings: Vec<SIRType>,
    },
    Wildcard,
}

/// A case of a match, with a body of type `T`.
#[derive(Debug, PartialEq)]
pub struct CaseOf<T> {
    pub pattern: Pattern,
    pub body: T,
    pub anns: AnnotationsDecl,
}

/// A case of a match.
pub type Case = CaseOf<SIR>;

/// A binding of a let, with a value of type `T`.
#[derive(Debug, PartialEq)]
pub struct BindingOf<T> {
    pub name: String,
    pub tp: SIRType,
    pub value: T,
}

/// A binding of a let.
pub type Binding = BindingOf<SIR>;

/// A SIR term.
#[derive(Debug, PartialEq)]
pub enum SIR {
    Var { name: String, tp: SIRType, anns: AnnotationsDecl },
    ExternalVar { module_name: String, name: String, tp: SIRType, anns: AnnotationsDecl },
    Const { uplc_const: UplcConstant, tp: SIRType, anns: AnnotationsDecl },
    LamAbs { param: Box<SIR>, term: Box<SIR>, type_params: Vec<TypeVar>, anns: AnnotationsDecl },
    Apply { f: Box<SIR>, arg: Box<SIR>, tp: SIRType, anns: AnnotationsDecl },
    Let { bindings: Vec<Binding>, body: Box<SIR>, flags: LetFlags, anns: AnnotationsDecl },
    Constr { name: String, data: DataDecl, args: Vec<SIR>, tp: SIRType, anns: AnnotationsDecl },
    Match { scrutinee: Box<SIR>, cases: Vec<Case>, tp: SIRType, anns: AnnotationsDecl },
    IfThenElse { cond: Box<SIR>, t: Box<SIR>, f: Box<SIR>, tp: SIRType, anns: AnnotationsDecl },
    Builtin { builtin_fun: DefaultFun, tp: SIRType, anns: AnnotationsDecl },
    Error { msg: Box<SIR>, anns: AnnotationsDecl },
    Decl { data: DataDecl, term: Box<SIR> },
    Select { scrutinee: Box<SIR>, field: String, tp: SIRType, anns: AnnotationsDecl },
}

} // verus!

verus! {

impl LetFlags {
    /// Neither recursive nor lazy.
    pub fn none() -> (r: LetFlags)
        ensures
            r == (LetFlags { is_rec: false, is_lazy: false }),
    {
        LetFlags { is_rec: false, is_lazy: false }
    }
}

} // verus!
