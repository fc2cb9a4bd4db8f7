//! Mathematical models of the compiler's data: every string is its sequence of
//! characters, every vector its sequence of models. Contracts speak of these.
use crate::constant::UplcConstant;
use crate::default_fun::DefaultFun;
use crate::module::{AnnotationsDecl, SourcePos};
use crate::sir::{Binding, Case, LetFlags, Pattern, SIR};
use crate::sir_type::{ConstrDecl, DataDecl, SIRType, TypeBinding, TypeVar};
use vstd::prelude::*;

verus! {

/// Model of a `SIRType`.
pub enum Ty {
    Integer,
    Boolean,
    ByteString,
    String,
    Unit,
    Data,
    Fun(Box<Ty>, Box<Ty>),
    SumCaseClass(Seq<char>, Seq<Ty>),
    CaseClass(Seq<char>, Seq<char>, Seq<Ty>),
    TypeVar(Seq<char>, Option<i64>, bool),
    TypeNothing,
    Unresolved,
}

/// Model of a `TypeVar`.
pub struct TvM {
    pub name: Seq<char>,
    pub opt_id: Option<i64>,
    pub is_builtin: bool,
}

/// Model of a `SourcePos`.
pub struct PosM {
    pub file: Seq<char>,
    pub start_line: i32,
    pub start_column: i32,
    pub end_line: i32,
    pub end_column: i32,
}

/// Model of an `AnnotationsDecl`: the data entries in key order.
pub struct AnnM {
    pub pos: PosM,
    pub comment: Option<Seq<char>>,
    pub data: Seq<(Seq<char>, SirM)>,
}

/// Model of a `ConstrDecl`.
pub struct ConstrM {
    pub name: Seq<char>,
    pub params: Seq<(Seq<char>, Ty)>,
    pub type_params: Seq<TvM>,
    pub parent_type_args: Seq<Ty>,
    pub annotations: AnnM,
}

/// Model of a `DataDecl`.
pub struct DeclM {
    pub name: Seq<char>,
    pub constructors: Seq<ConstrM>,
    pub type_params: Seq<TvM>,
    pub annotations: AnnM,
}

/// Model of a `UplcConstant`.
pub enum ConstM {
    Integer(int),
    ByteString(Seq<u8>),
    String(Seq<char>),
    Bool(bool),
    Unit,
}

/// Model of a `Pattern`.
pub enum PatM {
    Constr(Seq<char>, Seq<char>, Seq<Seq<char>>, Seq<Ty>),
    Wildcard,
}

/// Model of a `Case`: pattern, body, annotations.
pub type CaseM = (PatM, SirM, AnnM);

/// Model of a let `Binding`: name, type, value.
pub type BindM = (Seq<char>, Ty, SirM);

/// Model of a `SIR` term.
pub enum SirM {
    Var(Seq<char>, Ty, AnnM),
    ExternalVar(Seq<char>, Seq<char>, Ty, AnnM),
    Const(ConstM, Ty, AnnM),
    LamAbs(Box<SirM>, Box<SirM>, Seq<TvM>, AnnM),
    Apply(Box<SirM>, Box<SirM>, Ty, AnnM),
    Let(Seq<BindM>, Box<SirM>, LetFlags, AnnM),
    Constr(Seq<char>, DeclM, Seq<SirM>, Ty, AnnM),
    Match(Box<SirM>, Seq<CaseM>, Ty, AnnM),
    IfThenElse(Box<SirM>, Box<SirM>, Box<SirM>, Ty, AnnM),
    Builtin(DefaultFun, Ty, AnnM),
    Error(Box<SirM>, AnnM),
    Decl(DeclM, Box<SirM>),
    Select(Box<SirM>, Seq<char>, Ty, AnnM),
}

// ---------------------------------------------------------------------------
// Types
// ---------------------------------------------------------------------------

/// The model of a type.
pub open spec fn ty_of(t: SIRType) -> Ty
    decreases t,
{
    match t {
        SIRType::Integer => Ty::Integer,
        SIRType::Boolean => Ty::Boolean,
        SIRType::ByteString => Ty::ByteString,
        SIRType::String => Ty::String,
        SIRType::Unit => Ty::Unit,
        SIRType::Data => Ty::Data,
        SIRType::Fun { from, to } => Ty::Fun(Box::new(ty_of(*from)), Box::new(ty_of(*to))),
        SIRType::SumCaseClass { decl_name, type_args } => Ty::SumCaseClass(
            decl_name@,
            tys_of(type_args@),
        ),
        SIRType::CaseClass { constr_name, decl_name, type_args } => Ty::CaseClass(
            constr_name@,
            decl_name@,
            tys_of(type_args@),
        ),
        SIRType::TypeVar { name, opt_id, is_builtin } => Ty::TypeVar(name@, opt_id, is_builtin),
        SIRType::TypeNothing => Ty::TypeNothing,
        SIRType::Unresolved => Ty::Unresolved,
    }
}

/// The models of a sequence of types.
pub open spec fn tys_of(s: Seq<SIRType>) -> Seq<Ty>
    decreases s,
{
    if s.len() == 0 {
        Seq::empty()
    } else {
        tys_of(s.subrange(0, s.len() - 1)).push(ty_of(s[s.len() - 1]))
    }
}

pub proof fn lemma_tys_of(s: Seq<SIRType>)
    ensures
        tys_of(s).len() == s.len(),
        forall|i: int| 0 <= i < s.len() ==> #[trigger] tys_of(s)[i] == ty_of(s[i]),
    decreases s.len(),
{
    if s.len() > 0 {
        lemma_tys_of(s.subrange(0, s.len() - 1));
        assert forall|i: int| 0 <= i < s.len() implies #[trigger] tys_of(s)[i] == ty_of(s[i]) by {
            if i < s.len() - 1 {
                assert(s.subrange(0, s.len() - 1)[i] == s[i]);
            }
        }
    }
}

/// The model of a type variable.
pub open spec fn tv_of(v: TypeVar) -> TvM {
    TvM { name: v.name@, opt_id: v.opt_id, is_builtin: v.is_builtin }
}

/// The models of a sequence of type variables.
pub open spec fn tvs_of(s: Seq<TypeVar>) -> Seq<TvM> {
    s.map_values(|v: TypeVar| tv_of(v))
}

/// The models of constructor fields.
pub open spec fn params_of(s: Seq<TypeBinding>) -> Seq<(Seq<char>, Ty)> {
    s.map_values(|b: TypeBinding| (b.name@, ty_of(b.tp)))
}

/// The model of a source position.
pub open spec fn pos_of(p: SourcePos) -> PosM {
    PosM {
        file: p.file@,
        start_line: p.start_line,
        start_column: p.start_column,
        end_line: p.end_line,
        end_column: p.end_column,
    }
}

/// The model of an optional string.
pub open spec fn opt_str_of(s: Option<String>) -> Option<Seq<char>> {
    match s {
        Some(x) => Some(x@),
        None => None,
    }
}

/// The model of a constant.
pub open spec fn const_of(c: UplcConstant) -> ConstM {
    match c {
        UplcConstant::Integer { value } => ConstM::Integer(value@),
        UplcConstant::ByteString { value } => ConstM::ByteString(value@),
        UplcConstant::String { value } => ConstM::String(value@),
        UplcConstant::Bool { value } => ConstM::Bool(value),
        UplcConstant::Unit => ConstM::Unit,
    }
}

/// The model of a pattern.
pub open spec fn pat_of(p: Pattern) -> PatM {
    match p {
        Pattern::Constr { constr_name, decl_name, bindings, type_params_bindings } => PatM::Constr(
            constr_name@,
            decl_name@,
            bindings@.map_values(|b: String| b@),
            tys_of(type_params_bindings@),
        ),
        Pattern::Wildcard => PatM::Wildcard,
    }
}

// ---------------------------------------------------------------------------
// Annotations, declarations and terms
// ---------------------------------------------------------------------------

/// The model of annotations.
pub open spec fn ann_of(a: AnnotationsDecl) -> AnnM
    decreases a,
{
    AnnM { pos: pos_of(a.pos), comment: opt_str_of(a.comment), data: ann_data_of(a.data@) }
}

/// The models of annotation entries, in order.
pub open spec fn ann_data_of(s: Seq<(String, SIR)>) -> Seq<(Seq<char>, SirM)>
    decreases s,
{
    if s.len() == 0 {
        Seq::empty()
    } else {
        ann_data_of(s.subrange(0, s.len() - 1)).push((s[s.len() - 1].0@, sir_of(s[s.len() - 1].1)))
    }
}

/// The model of a constructor.
pub open spec fn constr_of(c: ConstrDecl) -> ConstrM
    decreases c,
{
    ConstrM {
        name: c.name@,
        params: params_of(c.params@),
        type_params: tvs_of(c.type_params@),
        parent_type_args: tys_of(c.parent_type_args@),
        annotations: ann_of(c.annotations),
    }
}

/// The models of a sequence of constructors.
pub open spec fn constrs_of(s: Seq<ConstrDecl>) -> Seq<ConstrM>
    decreases s,
{
    if s.len() == 0 {
        Seq::empty()
    } else {
        constrs_of(s.subrange(0, s.len() - 1)).push(constr_of(s[s.len() - 1]))
    }
}

/// The models of constructors are taken one by one.
pub broadcast proof fn lemma_constrs_of(s: Seq<ConstrDecl>)
    ensures
        #[trigger] constrs_of(s).len() == s.len(),
        forall|i: int| 0 <= i < s.len() ==> #[trigger] constrs_of(s)[i] == constr_of(s[i]),
    decreases s.len(),
{
    if s.len() > 0 {
        lemma_constrs_of(s.subrange(0, s.len() - 1));
        assert forall|i: int| 0 <= i < s.len() implies #[trigger] constrs_of(s)[i] == constr_of(s[i]) by {
            if i < s.len() - 1 {
                assert(s.subrange(0, s.len() - 1)[i] == s[i]);
            }
        }
    }
}

/// The models of annotation entries are taken one by one.
pub broadcast proof fn lemma_ann_data_of(s: Seq<(String, SIR)>)
    ensures
        #[trigger] ann_data_of(s).len() == s.len(),
        forall|i: int| 0 <= i < s.len() ==> #[trigger] ann_data_of(s)[i] == (s[i].0@, sir_of(s[i].1)),
    decreases s.len(),
{
    if s.len() > 0 {
        lemma_ann_data_of(s.subrange(0, s.len() - 1));
        assert forall|i: int| 0 <= i < s.len() implies #[trigger] ann_data_of(s)[i] == (s[i].0@, sir_of(s[i].1)) by {
            if i < s.len() - 1 {
                assert(s.subrange(0, s.len() - 1)[i] == s[i]);
            }
        }
    }
}

/// The models of sequences, element by element.
pub broadcast group group_model_seqs {
    lemma_constrs_of,
    lemma_ann_data_of,
}

/// The model of a data declaration.
pub open spec fn decl_of(d: DataDecl) -> DeclM
    decreases d,
{
    DeclM {
        name: d.name@,
        constructors: constrs_of(d.constructors@),
        type_params: tvs_of(d.type_params@),
        annotations: ann_of(d.annotations),
    }
}

/// The model of a term.
pub open spec fn sir_of(s: SIR) -> SirM
    decreases s,
{
    match s {
        SIR::Var { name, tp, anns } => SirM::Var(name@, ty_of(tp), ann_of(anns)),
        SIR::ExternalVar { module_name, name, tp, anns } => SirM::ExternalVar(
            module_name@,
            name@,
            ty_of(tp),
            ann_of(anns),
        ),
        SIR::Const { uplc_const, tp, anns } => SirM::Const(
            const_of(uplc_const),
            ty_of(tp),
            ann_of(anns),
        ),
        SIR::LamAbs { param, term, type_params, anns } => SirM::LamAbs(
            Box::new(sir_of(*param)),
            Box::new(sir_of(*term)),
            tvs_of(type_params@),
            ann_of(anns),
        ),
        SIR::Apply { f, arg, tp, anns } => SirM::Apply(
            Box::new(sir_of(*f)),
            Box::new(sir_of(*arg)),
            ty_of(tp),
            ann_of(anns),
        ),
        SIR::Let { bindings, body, flags, anns } => SirM::Let(
            binds_of(bindings@),
            Box::new(sir_of(*body)),
            flags,
            ann_of(anns),
        ),
        SIR::Constr { name, data, args, tp, anns } => SirM::Constr(
            name@,
            decl_of(data),
            sirs_of(args@),
            ty_of(tp),
            ann_of(anns),
        ),
        SIR::Match { scrutinee, cases, tp, anns } => SirM::Match(
            Box::new(sir_of(*scrutinee)),
            cases_of(cases@),
            ty_of(tp),
            ann_of(anns),
        ),
        SIR::IfThenElse { cond, t, f, tp, anns } => SirM::IfThenElse(
            Box::new(sir_of(*cond)),
            Box::new(sir_of(*t)),
            Box::new(sir_of(*f)),
            ty_of(tp),
            ann_of(anns),
        ),
        SIR::Builtin { builtin_fun, tp, anns } => SirM::Builtin(builtin_fun, ty_of(tp), ann_of(anns)),
        SIR::Error { msg, anns } => SirM::Error(Box::new(sir_of(*msg)), ann_of(anns)),
        SIR::Decl { data, term } => SirM::Decl(decl_of(data), Box::new(sir_of(*term))),
        SIR::Select { scrutinee, field, tp, anns } => SirM::Select(
            Box::new(sir_of(*scrutinee)),
            field@,
            ty_of(tp),
            ann_of(anns),
        ),
    }
}

/// The models of a sequence of terms.
pub open spec fn sirs_of(s: Seq<SIR>) -> Seq<SirM>
    decreases s,
{
    if s.len() == 0 {
        Seq::empty()
    } else {
        sirs_of(s.subrange(0, s.len() - 1)).push(sir_of(s[s.len() - 1]))
    }
}

pub proof fn lemma_sirs_of(s: Seq<SIR>)
    ensures
        sirs_of(s).len() == s.len(),
        forall|i: int| 0 <= i < s.len() ==> #[trigger] sirs_of(s)[i] == sir_of(s[i]),
    decreases s.len(),
{
    if s.len() > 0 {
        lemma_sirs_of(s.subrange(0, s.len() - 1));
        assert forall|i: int| 0 <= i < s.len() implies #[trigger] sirs_of(s)[i] == sir_of(s[i]) by {
            if i < s.len() - 1 {
                assert(s.subrange(0, s.len() - 1)[i] == s[i]);
            }
        }
    }
}

pub proof fn lemma_cases_of(s: Seq<Case>)
    ensures
        cases_of(s).len() == s.len(),
        forall|i: int| 0 <= i < s.len() ==> #[trigger] cases_of(s)[i] == (pat_of(s[i].pattern), sir_of(s[i].body), ann_of(s[i].anns)),
    decreases s.len(),
{
    if s.len() > 0 {
        lemma_cases_of(s.subrange(0, s.len() - 1));
        assert forall|i: int| 0 <= i < s.len() implies #[trigger] cases_of(s)[i] == (pat_of(s[i].pattern), sir_of(s[i].body), ann_of(s[i].anns)) by {
            if i < s.len() - 1 {
                assert(s.subrange(0, s.len() - 1)[i] == s[i]);
            }
        }
    }
}

/// The models of a sequence of cases.
pub open spec fn cases_of(s: Seq<Case>) -> Seq<CaseM>
    decreases s,
{
    if s.len() == 0 {
        Seq::empty()
    } else {
        let c = s[s.len() - 1];
        cases_of(s.subrange(0, s.len() - 1)).push(
            (pat_of(c.pattern), sir_of(c.body), ann_of(c.anns)),
        )
    }
}

/// The models of a sequence of let bindings.
pub open spec fn binds_of(s: Seq<Binding>) -> Seq<BindM>
    decreases s,
{
    if s.len() == 0 {
        Seq::empty()
    } else {
        let b = s[s.len() - 1];
        binds_of(s.subrange(0, s.len() - 1)).push(
            (b.name@, ty_of(b.tp), sir_of(b.value)),
        )
    }
}

} // verus!
