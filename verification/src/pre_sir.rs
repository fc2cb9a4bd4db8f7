//! Pre-SIR: the expression tree that the front end emits, with no SIR types,
//! no application chains and no embedded declarations. The lowering pass
//! turns it into SIR with the help of a `TypeDict` and the resolution context.
use crate::constant::UplcConstant;
use crate::model::{AnnM, ConstM, DeclM, Ty, ann_of, const_of, decl_of, ty_of};
use crate::module::AnnotationsDecl;
use crate::name_map::NameMap;
use crate::sir_type::{DataDecl, SIRType};
use vstd::prelude::*;

verus! {

broadcast use crate::model::group_model_seqs;

// ---------------------------------------------------------------------------
// TypeHint: what the front end can tell of a type from syntax alone
// ---------------------------------------------------------------------------

/// A type as written in the source, before it is resolved against the
/// declarations.
#[derive(Debug, PartialEq)]
pub enum TypeHint {
    Bool,
    Integer,
    ByteString,
    String,
    Unit,
    Data,
    /// A generic type parameter, with its 1-based index.
    TypeParam { name: String, index: i64 },
    /// A named user type with its type arguments.
    Named { rust_path: String, type_args: Vec<TypeHint> },
    /// A function type.
    Fun { from: Box<TypeHint>, to: Box<TypeHint> },
    /// No type written.
    Infer,
}

// ---------------------------------------------------------------------------
// TypeDict: type information gathered at build time
// ---------------------------------------------------------------------------

/// The types that the build step found for variables and Rust types.
#[derive(Debug, PartialEq)]
pub struct TypeDict {
    /// Variable name to its type (names are unique).
    pub vars: NameMap<SIRType>,
    /// Rust type path to its SIR type.
    pub type_map: NameMap<SIRType>,
    /// Rust type path to its data declaration.
    pub decl_map: NameMap<DataDecl>,
}

// ---------------------------------------------------------------------------
// PreSIR: the expression tree
// ---------------------------------------------------------------------------

/// A binary operator.
#[derive(Debug, Clone, Copy, PartialEq, Eq, Structural)]
pub enum BinOp {
    Add,
    Sub,
    Mul,
    Eq,
    Lt,
    Le,
}

/// What an operator computes on integers, where it gives an integer.
pub open spec fn binop_arith_meaning(op: BinOp, x: int, y: int) -> Option<int> {
    match op {
        BinOp::Add => Some(x + y),
        BinOp::Sub => Some(x - y),
        BinOp::Mul => Some(x * y),
        _ => None,
    }
}

/// What an operator answers on integers, where it is a test.
pub open spec fn binop_test_meaning(op: BinOp, x: int, y: int) -> Option<bool> {
    match op {
        BinOp::Eq => Some(x == y),
        BinOp::Lt => Some(x < y),
        BinOp::Le => Some(x <= y),
        _ => None,
    }
}

/// A pre-SIR expression.
#[derive(Debug, PartialEq)]
pub enum PreSIR {
    /// A variable.
    Var { name: String, anns: AnnotationsDecl },
    /// A literal constant.
    Const { value: UplcConstant, anns: AnnotationsDecl },
    /// A function call, by Rust path.
    Call { func_path: String, args: Vec<PreSIR>, anns: AnnotationsDecl },
    /// A binary operation.
    BinOp { op: BinOp, left: Box<PreSIR>, right: Box<PreSIR>, anns: AnnotationsDecl },
    /// A let binding.
    Let {
        name: String,
        type_hint: TypeHint,
        value: Box<PreSIR>,
        body: Box<PreSIR>,
        is_rec: bool,
        anns: AnnotationsDecl,
    },
    /// A match.
    Match { scrutinee: Box<PreSIR>, arms: Vec<PreMatchArm>, anns: AnnotationsDecl },
    /// A conditional; no else branch means unit.
    IfThenElse {
        cond: Box<PreSIR>,
        then_branch: Box<PreSIR>,
        else_branch: Option<Box<PreSIR>>,
        anns: AnnotationsDecl,
    },
    /// A constructor application.
    Construct { type_path: String, constr_name: String, args: Vec<PreSIR>, anns: AnnotationsDecl },
    /// A field access.
    FieldAccess { base: Box<PreSIR>, field: String, anns: AnnotationsDecl },
    /// A conversion from Data.
    FromData { arg: Box<PreSIR>, target_type: TypeHint, anns: AnnotationsDecl },
    /// A conversion to Data.
    ToData { arg: Box<PreSIR>, source_type: TypeHint, anns: AnnotationsDecl },
    /// An error with a message.
    Error { message: String, anns: AnnotationsDecl },
    /// `cond`, or else an error with the message.
    Require { cond: Box<PreSIR>, message: String, anns: AnnotationsDecl },
    /// Integer negation.
    Negate { expr: Box<PreSIR>, anns: AnnotationsDecl },
}

/// An arm of a match, with a body of type `T`.
#[derive(Debug, PartialEq)]
pub struct PreMatchArmOf<T> {
    pub pattern: PrePattern,
    pub body: T,
    pub anns: AnnotationsDecl,
}

/// An arm of a match.
pub type PreMatchArm = PreMatchArmOf<PreSIR>;

/// A pattern of a match arm.
#[derive(Debug, PartialEq)]
pub enum PrePattern {
    /// A constructor pattern with the names it binds.
    Constr { type_path: String, constr_name: String, bindings: Vec<String> },
    /// `_` or a catch-all.
    Wildcard,
}

// ---------------------------------------------------------------------------
// Function definitions
// ---------------------------------------------------------------------------

/// A typeclass bound on a generic parameter.
#[derive(Debug, PartialEq)]
pub struct TypeclassBound {
    /// The trait name, such as `PartialEq`.
    pub trait_name: String,
    /// The 1-based index of the type parameter it constrains.
    pub type_param_index: i64,
}

/// A function parameter.
#[derive(Debug, PartialEq)]
pub struct PreParam {
    pub name: String,
    pub type_hint: TypeHint,
    /// The Rust type path as written, for finding its declaration.
    pub rust_type_path: String,
}

/// A function definition as the front end emits it.
#[derive(Debug, PartialEq)]
pub struct PreFnDef {
    pub rust_name: String,
    pub sir_name: String,
    pub module: Option<String>,
    pub params: Vec<PreParam>,
    pub ret_type: TypeHint,
    pub generic_params: Vec<String>,
    pub typeclass_bounds: Vec<TypeclassBound>,
    pub body: PreSIR,
    pub type_dict: TypeDict,
}

// ---------------------------------------------------------------------------
// Models
// ---------------------------------------------------------------------------

/// Model of a `TypeHint`.
pub enum HintM {
    Bool,
    Integer,
    ByteString,
    String,
    Unit,
    Data,
    TypeParam(Seq<char>, i64),
    Named(Seq<char>, Seq<HintM>),
    Fun(Box<HintM>, Box<HintM>),
    Infer,
}

/// Model of a `PrePattern`.
pub enum PrePatM {
    Constr(Seq<char>, Seq<char>, Seq<Seq<char>>),
    Wildcard,
}

/// Model of a match arm: pattern, body, annotations.
pub type ArmM = (PrePatM, PreM, AnnM);

/// Model of a `PreSIR`.
pub enum PreM {
    Var(Seq<char>, AnnM),
    Const(ConstM, AnnM),
    Call(Seq<char>, Seq<PreM>, AnnM),
    BinOp(BinOp, Box<PreM>, Box<PreM>, AnnM),
    Let(Seq<char>, HintM, Box<PreM>, Box<PreM>, bool, AnnM),
    Match(Box<PreM>, Seq<ArmM>, AnnM),
    IfThenElse(Box<PreM>, Box<PreM>, Option<Box<PreM>>, AnnM),
    Construct(Seq<char>, Seq<char>, Seq<PreM>, AnnM),
    FieldAccess(Box<PreM>, Seq<char>, AnnM),
    FromData(Box<PreM>, HintM, AnnM),
    ToData(Box<PreM>, HintM, AnnM),
    Error(Seq<char>, AnnM),
    Require(Box<PreM>, Seq<char>, AnnM),
    Negate(Box<PreM>, AnnM),
}

/// The model of a type hint.
pub open spec fn hint_of(h: TypeHint) -> HintM
    decreases h,
{
    match h {
        TypeHint::Bool => HintM::Bool,
        TypeHint::Integer => HintM::Integer,
        TypeHint::ByteString => HintM::ByteString,
        TypeHint::String => HintM::String,
        TypeHint::Unit => HintM::Unit,
        TypeHint::Data => HintM::Data,
        TypeHint::TypeParam { name, index } => HintM::TypeParam(name@, index),
        TypeHint::Named { rust_path, type_args } => HintM::Named(rust_path@, hints_of(type_args@)),
        TypeHint::Fun { from, to } => HintM::Fun(Box::new(hint_of(*from)), Box::new(hint_of(*to))),
        TypeHint::Infer => HintM::Infer,
    }
}

/// The models of a sequence of type hints.
pub open spec fn hints_of(s: Seq<TypeHint>) -> Seq<HintM>
    decreases s,
{
    if s.len() == 0 {
        Seq::empty()
    } else {
        hints_of(s.subrange(0, s.len() - 1)).push(hint_of(s[s.len() - 1]))
    }
}

/// The model of a pattern.
pub open spec fn prepat_of(p: PrePattern) -> PrePatM {
    match p {
        PrePattern::Constr { type_path, constr_name, bindings } => PrePatM::Constr(
            type_path@,
            constr_name@,
            bindings@.map_values(|b: String| b@),
        ),
        PrePattern::Wildcard => PrePatM::Wildcard,
    }
}

/// The model of a pre-SIR expression.
pub open spec fn pre_of(p: PreSIR) -> PreM
    decreases p,
{
    match p {
        PreSIR::Var { name, anns } => PreM::Var(name@, ann_of(anns)),
        PreSIR::Const { value, anns } => PreM::Const(const_of(value), ann_of(anns)),
        PreSIR::Call { func_path, args, anns } => PreM::Call(func_path@, pres_of(args@), ann_of(anns)),
        PreSIR::BinOp { op, left, right, anns } => PreM::BinOp(
            op,
            Box::new(pre_of(*left)),
            Box::new(pre_of(*right)),
            ann_of(anns),
        ),
        PreSIR::Let { name, type_hint, value, body, is_rec, anns } => PreM::Let(
            name@,
            hint_of(type_hint),
            Box::new(pre_of(*value)),
            Box::new(pre_of(*body)),
            is_rec,
            ann_of(anns),
        ),
        PreSIR::Match { scrutinee, arms, anns } => PreM::Match(
            Box::new(pre_of(*scrutinee)),
            arms_of(arms@),
            ann_of(anns),
        ),
        PreSIR::IfThenElse { cond, then_branch, else_branch, anns } => PreM::IfThenElse(
            Box::new(pre_of(*cond)),
            Box::new(pre_of(*then_branch)),
            match else_branch {
                Some(e) => Some(Box::new(pre_of(*e))),
                None => None,
            },
            ann_of(anns),
        ),
        PreSIR::Construct { type_path, constr_name, args, anns } => PreM::Construct(
            type_path@,
            constr_name@,
            pres_of(args@),
            ann_of(anns),
        ),
        PreSIR::FieldAccess { base, field, anns } => PreM::FieldAccess(
            Box::new(pre_of(*base)),
            field@,
            ann_of(anns),
        ),
        PreSIR::FromData { arg, target_type, anns } => PreM::FromData(
            Box::new(pre_of(*arg)),
            hint_of(target_type),
            ann_of(anns),
        ),
        PreSIR::ToData { arg, source_type, anns } => PreM::ToData(
            Box::new(pre_of(*arg)),
            hint_of(source_type),
            ann_of(anns),
        ),
        PreSIR::Error { message, anns } => PreM::Error(message@, ann_of(anns)),
        PreSIR::Require { cond, message, anns } => PreM::Require(
            Box::new(pre_of(*cond)),
            message@,
            ann_of(anns),
        ),
        PreSIR::Negate { expr, anns } => PreM::Negate(Box::new(pre_of(*expr)), ann_of(anns)),
    }
}

/// The models of a sequence of expressions.
pub open spec fn pres_of(s: Seq<PreSIR>) -> Seq<PreM>
    decreases s,
{
    if s.len() == 0 {
        Seq::empty()
    } else {
        pres_of(s.subrange(0, s.len() - 1)).push(pre_of(s[s.len() - 1]))
    }
}

/// The models of a sequence of match arms.
pub open spec fn arms_of(s: Seq<PreMatchArm>) -> Seq<ArmM>
    decreases s,
{
    if s.len() == 0 {
        Seq::empty()
    } else {
        let a = s[s.len() - 1];
        arms_of(s.subrange(0, s.len() - 1)).push((prepat_of(a.pattern), pre_of(a.body), ann_of(a.anns)))
    }
}

/// The model of a map from names to types.
pub open spec fn tymap_of(m: NameMap<SIRType>) -> Seq<(Seq<char>, Ty)> {
    m.entries@.map_values(|e: (String, SIRType)| (e.0@, ty_of(e.1)))
}

} // verus!

verus! {

use crate::name_map::{assoc_last, lemma_assoc_last_at, lemma_assoc_last_none, sorted_keys_m};

impl TypeDict {
    /// Each of the maps is well formed.
    pub open spec fn wf(&self) -> bool {
        &&& self.vars.wf()
        &&& self.type_map.wf()
        &&& self.decl_map.wf()
    }

    /// An empty dictionary.
    pub fn new() -> (r: TypeDict)
        ensures
            r.wf(),
            r.vars.entries_spec().len() == 0,
            r.type_map.entries_spec().len() == 0,
            r.decl_map.entries_spec().len() == 0,
    {
        TypeDict { vars: NameMap::new(), type_map: NameMap::new(), decl_map: NameMap::new() }
    }

    /// Record the type of a variable.
    pub fn register_var(&mut self, name: &str, tp: SIRType)
        requires
            old(self).wf(),
        ensures
            final(self).wf(),
            final(self).vars.has_entry(name@, tp),
            forall|k: Seq<char>, x: SIRType|
                k != name@ ==> (final(self).vars.has_entry(k, x) <==> old(self).vars.has_entry(k, x)),
            forall|k: Seq<char>| final(self).vars.contains(k) <==> (old(self).vars.contains(k) || k == name@),
            final(self).type_map == old(self).type_map,
            final(self).decl_map == old(self).decl_map,
    {
        self.vars.insert(crate::text::owned(name), tp);
    }

    /// Record the SIR type of a Rust type and, where it has one, its declaration.
    pub fn register_type_info(&mut self, rust_name: &str, tp: SIRType, decl: Option<DataDecl>)
        requires
            old(self).wf(),
        ensures
            final(self).wf(),
            final(self).vars == old(self).vars,
            final(self).type_map.has_entry(rust_name@, tp),
            forall|k: Seq<char>, x: SIRType|
                k != rust_name@ ==> (final(self).type_map.has_entry(k, x) <==> old(self).type_map.has_entry(k, x)),
            forall|k: Seq<char>|
                final(self).type_map.contains(k) <==> (old(self).type_map.contains(k) || k == rust_name@),
            decl is None ==> final(self).decl_map == old(self).decl_map,
            decl matches Some(d) ==> {
                &&& final(self).decl_map.has_entry(rust_name@, d)
                &&& forall|k: Seq<char>, x: DataDecl|
                    k != rust_name@ ==> (final(self).decl_map.has_entry(k, x) <==> old(self).decl_map.has_entry(k, x))
                &&& forall|k: Seq<char>|
                    final(self).decl_map.contains(k) <==> (old(self).decl_map.contains(k) || k == rust_name@)
            },
    {
        self.type_map.insert(crate::text::owned(rust_name), tp);
        match decl {
            Some(d) => self.decl_map.insert(crate::text::owned(rust_name), d),
            None => {},
        }
    }

    /// The declaration of a Rust type.
    pub fn data_decl(&self, rust_name: &str) -> (r: Option<&DataDecl>)
        requires
            self.wf(),
        ensures
            r is None <==> !self.decl_map.contains(rust_name@),
            r matches Some(d) ==> self.decl_map.has_entry(rust_name@, *d),
    {
        self.decl_map.get(rust_name)
    }

    /// The SIR type of a Rust type.
    pub fn sir_type(&self, rust_name: &str) -> (r: Option<&SIRType>)
        requires
            self.wf(),
        ensures
            r is None <==> !self.type_map.contains(rust_name@),
            r matches Some(t) ==> self.type_map.has_entry(rust_name@, *t),
    {
        self.type_map.get(rust_name)
    }
}

/// The type that a map from names to types binds `k` to.
pub fn lookup_ty<'a>(m: &'a NameMap<SIRType>, k: &str) -> (r: Option<&'a SIRType>)
    requires
        m.wf(),
    ensures
        r matches Some(t) ==> assoc_last(tymap_of(*m), k@) == Some(ty_of(*t)),
        r is None ==> assoc_last(tymap_of(*m), k@) is None,
{
    let ghost tm = tymap_of(*m);
    assert(sorted_keys_m(tm)) by {
        assert forall|i: int, j: int| 0 <= i < j < tm.len() implies crate::text::seq_lt(
            #[trigger] tm[i].0,
            #[trigger] tm[j].0,
        ) by {
            assert(tm[i].0 == m.entries@[i].0@);
            assert(tm[j].0 == m.entries@[j].0@);
        }
    }
    match m.index_of(k) {
        Some(i) => {
            proof {
                lemma_assoc_last_at(tm, i as int);
            }
            Some(&m.entries[i].1)
        },
        None => {
            proof {
                assert forall|i: int| 0 <= i < tm.len() implies #[trigger] tm[i].0 != k@ by {
                    assert(m.entries_spec()[i].0@ != k@);
                }
                lemma_assoc_last_none(tm, k@);
            }
            None
        },
    }
}

} // verus!
