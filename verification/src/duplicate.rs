//! Copies of the compiler's data that keep the model unchanged.
use crate::constant::UplcConstant;
use crate::model::{ann_data_of, ann_of, const_of, opt_str_of, pat_of, pos_of, sir_of, sirs_of, cases_of, binds_of, ty_of, tys_of, tv_of, tvs_of, params_of, constr_of, constrs_of, decl_of};
use crate::module::{AnnotationsDecl, SourcePos};
use crate::name_map::{keys_sorted, NameMap};
use crate::sir::{Binding, BindingOf, Case, CaseOf, Pattern, SIR};
use crate::sir_type::{ConstrDecl, DataDecl, SIRType, TypeBinding, TypeVar};
use crate::text::owned;
use vstd::prelude::*;

verus! {

broadcast use {vstd::std_specs::vec::group_vec_axioms, crate::model::group_model_seqs};

pub proof fn lemma_tys_push(s: Seq<SIRType>, x: SIRType)
    ensures
        tys_of(s.push(x)) == tys_of(s).push(ty_of(x)),
{
    assert(s.push(x).subrange(0, s.len() as int) == s);
}

pub proof fn lemma_sirs_push(s: Seq<SIR>, x: SIR)
    ensures
        sirs_of(s.push(x)) == sirs_of(s).push(sir_of(x)),
{
    assert(s.push(x).subrange(0, s.len() as int) == s);
}

pub proof fn lemma_cases_push(s: Seq<Case>, x: Case)
    ensures
        cases_of(s.push(x)) == cases_of(s).push((pat_of(x.pattern), sir_of(x.body), ann_of(x.anns))),
{
    assert(s.push(x).subrange(0, s.len() as int) == s);
}

pub proof fn lemma_binds_push(s: Seq<Binding>, x: Binding)
    ensures
        binds_of(s.push(x)) == binds_of(s).push((x.name@, ty_of(x.tp), sir_of(x.value))),
{
    assert(s.push(x).subrange(0, s.len() as int) == s);
}

/// A copy of a string.
pub fn dup_string(s: &String) -> (r: String)
    ensures
        r@ == s@,
{
    owned(s.as_str())
}

/// A copy of a vector of strings.
pub fn dup_strings(v: &Vec<String>) -> (r: Vec<String>)
    ensures
        r@.map_values(|b: String| b@) == v@.map_values(|b: String| b@),
{
    let mut bs: Vec<String> = Vec::new();
    let mut i: usize = 0;
    while i < v.len()
        invariant
            0 <= i <= v@.len(),
            bs@.len() == i,
            forall|j: int| 0 <= j < i ==> (#[trigger] bs@[j])@ == v@[j]@,
        decreases v@.len() - i,
    {
        bs.push(dup_string(&v[i]));
        i += 1;
    }
    assert(bs@.map_values(|b: String| b@) =~= v@.map_values(|b: String| b@));
    bs
}

/// A copy of an optional string.
pub fn dup_opt_string(s: &Option<String>) -> (r: Option<String>)
    ensures
        opt_str_of(r) == opt_str_of(*s),
{
    match s {
        Some(x) => Some(dup_string(x)),
        None => None,
    }
}

/// A copy of a byte vector.
pub fn dup_bytes(v: &Vec<u8>) -> (r: Vec<u8>)
    ensures
        r@ == v@,
{
    let mut r: Vec<u8> = Vec::new();
    let mut i: usize = 0;
    while i < v.len()
        invariant
            0 <= i <= v@.len(),
            r@ == v@.take(i as int),
        decreases v@.len() - i,
    {
        r.push(v[i]);
        assert(v@.take(i + 1) == v@.take(i as int).push(v@[i as int]));
        i += 1;
    }
    assert(v@.take(v@.len() as int) == v@);
    r
}

/// A copy of a sequence of types.
pub fn dup_types(v: &Vec<SIRType>) -> (r: Vec<SIRType>)
    ensures
        tys_of(r@) == tys_of(v@),
{
    let mut r: Vec<SIRType> = Vec::new();
    let mut i: usize = 0;
    while i < v.len()
        invariant
            0 <= i <= v@.len(),
            tys_of(r@) == tys_of(v@.take(i as int)),
        decreases v@.len() - i,
    {
        let x = v[i].duplicate();
        proof {
            lemma_tys_push(r@, x);
            lemma_tys_push(v@.take(i as int), v@[i as int]);
            assert(v@.take(i + 1) == v@.take(i as int).push(v@[i as int]));
        }
        r.push(x);
        i += 1;
    }
    assert(v@.take(v@.len() as int) == v@);
    r
}

impl SIRType {
    /// A copy of the type.
    pub fn duplicate(&self) -> (r: SIRType)
        ensures
            ty_of(r) == ty_of(*self),
        decreases self,
    {
        match self {
            SIRType::Integer => SIRType::Integer,
            SIRType::Boolean => SIRType::Boolean,
            SIRType::ByteString => SIRType::ByteString,
            SIRType::String => SIRType::String,
            SIRType::Unit => SIRType::Unit,
            SIRType::Data => SIRType::Data,
            SIRType::Fun { from, to } => SIRType::Fun {
                from: Box::new(from.duplicate()),
                to: Box::new(to.duplicate()),
            },
            SIRType::SumCaseClass { decl_name, type_args } => {
                let args = dup_types_rec(type_args, self);
                SIRType::SumCaseClass { decl_name: dup_string(decl_name), type_args: args }
            },
            SIRType::CaseClass { constr_name, decl_name, type_args } => {
                let args = dup_types_rec(type_args, self);
                SIRType::CaseClass {
                    constr_name: dup_string(constr_name),
                    decl_name: dup_string(decl_name),
                    type_args: args,
                }
            },
            SIRType::TypeVar { name, opt_id, is_builtin } => SIRType::TypeVar {
                name: dup_string(name),
                opt_id: *opt_id,
                is_builtin: *is_builtin,
            },
            SIRType::TypeNothing => SIRType::TypeNothing,
            SIRType::Unresolved => SIRType::Unresolved,
        }
    }
}

/// A copy of the type arguments of `parent`.
fn dup_types_rec(v: &Vec<SIRType>, parent: &SIRType) -> (r: Vec<SIRType>)
    requires
        forall|i: int| 0 <= i < v@.len() ==> decreases_to!(*parent => #[trigger] v@[i]),
    ensures
        tys_of(r@) == tys_of(v@),
    decreases parent, 0nat,
{
    let mut r: Vec<SIRType> = Vec::new();
    let mut i: usize = 0;
    while i < v.len()
        invariant
            0 <= i <= v@.len(),
            tys_of(r@) == tys_of(v@.take(i as int)),
            forall|i: int| 0 <= i < v@.len() ==> decreases_to!(*parent => #[trigger] v@[i]),
        decreases v@.len() - i,
    {
        let x = v[i].duplicate();
        proof {
            lemma_tys_push(r@, x);
            lemma_tys_push(v@.take(i as int), v@[i as int]);
            assert(v@.take(i + 1) == v@.take(i as int).push(v@[i as int]));
        }
        r.push(x);
        i += 1;
    }
    assert(v@.take(v@.len() as int) == v@);
    r
}


impl TypeVar {
    /// A copy of the type variable.
    pub fn duplicate(&self) -> (r: TypeVar)
        ensures
            tv_of(r) == tv_of(*self),
    {
        TypeVar { name: dup_string(&self.name), opt_id: self.opt_id, is_builtin: self.is_builtin }
    }
}

/// A copy of a sequence of type variables.
pub fn dup_type_vars(v: &Vec<TypeVar>) -> (r: Vec<TypeVar>)
    ensures
        tvs_of(r@) == tvs_of(v@),
{
    let mut r: Vec<TypeVar> = Vec::new();
    let mut i: usize = 0;
    while i < v.len()
        invariant
            0 <= i <= v@.len(),
            r@.len() == i,
            forall|j: int| 0 <= j < i ==> tv_of(#[trigger] r@[j]) == tv_of(v@[j]),
        decreases v@.len() - i,
    {
        r.push(v[i].duplicate());
        i += 1;
    }
    assert(tvs_of(r@) =~= tvs_of(v@));
    r
}

/// A copy of constructor fields.
pub fn dup_params(v: &Vec<TypeBinding>) -> (r: Vec<TypeBinding>)
    ensures
        params_of(r@) == params_of(v@),
{
    let mut r: Vec<TypeBinding> = Vec::new();
    let mut i: usize = 0;
    while i < v.len()
        invariant
            0 <= i <= v@.len(),
            r@.len() == i,
            forall|j: int|
                0 <= j < i ==> (#[trigger] r@[j]).name@ == v@[j].name@ && ty_of(r@[j].tp) == ty_of(
                    v@[j].tp,
                ),
        decreases v@.len() - i,
    {
        r.push(TypeBinding { name: dup_string(&v[i].name), tp: v[i].tp.duplicate() });
        i += 1;
    }
    assert(params_of(r@) =~= params_of(v@));
    r
}

impl SourcePos {
    /// A copy of the position.
    pub fn duplicate(&self) -> (r: SourcePos)
        ensures
            pos_of(r) == pos_of(*self),
    {
        SourcePos {
            file: dup_string(&self.file),
            start_line: self.start_line,
            start_column: self.start_column,
            end_line: self.end_line,
            end_column: self.end_column,
        }
    }
}

impl UplcConstant {
    /// A copy of the constant.
    pub fn duplicate(&self) -> (r: UplcConstant)
        ensures
            const_of(r) == const_of(*self),
    {
        match self {
            UplcConstant::Integer { value } => UplcConstant::Integer { value: value.copy() },
            UplcConstant::ByteString { value } => UplcConstant::ByteString { value: dup_bytes(value) },
            UplcConstant::String { value } => UplcConstant::String { value: dup_string(value) },
            UplcConstant::Bool { value } => UplcConstant::Bool { value: *value },
            UplcConstant::Unit => UplcConstant::Unit,
        }
    }
}

impl AnnotationsDecl {
    /// A copy of the annotations.
    pub fn duplicate(&self) -> (r: AnnotationsDecl)
        ensures
            ann_of(r) == ann_of(*self),
            self.wf() ==> r.wf(),
        decreases self,
    {
        let e = &self.data;
        let mut out: Vec<(String, SIR)> = Vec::new();
        let mut i: usize = 0;
        while i < e.len()
            invariant
                *e == self.data,
                0 <= i <= e@.len(),
                out@.len() == i,
                forall|j: int|
                    0 <= j < i ==> (#[trigger] out@[j]).0@ == e@[j].0@ && sir_of(out@[j].1) == sir_of(e@[j].1),
            decreases e@.len() - i,
        {
            proof {
                assert(decreases_to!(*self => self.data@[i as int].1));
            }
            let v = e[i].1.duplicate();
            out.push((dup_string(&e[i].0), v));
            i += 1;
        }
        assert(ann_data_of(out@) =~= ann_data_of(e@));
        assert(keys_sorted(e@) ==> keys_sorted(out@)) by {
            if keys_sorted(e@) {
                assert forall|a: int, b: int| 0 <= a < b < out@.len() implies crate::text::seq_lt(
                    #[trigger] out@[a].0@,
                    #[trigger] out@[b].0@,
                ) by {
                    assert(crate::text::seq_lt(e@[a].0@, e@[b].0@));
                }
            }
        }
        AnnotationsDecl {
            pos: self.pos.duplicate(),
            comment: dup_opt_string(&self.comment),
            data: out,
        }
    }
}

impl ConstrDecl {
    /// A copy of the constructor.
    pub fn duplicate(&self) -> (r: ConstrDecl)
        ensures
            constr_of(r) == constr_of(*self),
        decreases self,
    {
        ConstrDecl {
            name: dup_string(&self.name),
            params: dup_params(&self.params),
            type_params: dup_type_vars(&self.type_params),
            parent_type_args: dup_types(&self.parent_type_args),
            annotations: self.annotations.duplicate(),
        }
    }
}

impl DataDecl {
    /// A copy of the declaration.
    pub fn duplicate(&self) -> (r: DataDecl)
        ensures
            decl_of(r) == decl_of(*self),
        decreases self,
    {
        let v = &self.constructors;
        let mut cs: Vec<ConstrDecl> = Vec::new();
        let mut i: usize = 0;
        while i < v.len()
            invariant
                *v == self.constructors,
                0 <= i <= v@.len(),
                cs@.len() == i,
                forall|j: int| 0 <= j < i ==> constr_of(#[trigger] cs@[j]) == constr_of(v@[j]),
            decreases v@.len() - i,
        {
            proof {
                assert(decreases_to!(*self => self.constructors@[i as int]));
            }
            cs.push(v[i].duplicate());
            i += 1;
        }
        assert(constrs_of(cs@) =~= constrs_of(v@));
        DataDecl {
            name: dup_string(&self.name),
            constructors: cs,
            type_params: dup_type_vars(&self.type_params),
            annotations: self.annotations.duplicate(),
        }
    }
}

impl Pattern {
    /// A copy of the pattern.
    pub fn duplicate(&self) -> (r: Pattern)
        ensures
            pat_of(r) == pat_of(*self),
    {
        match self {
            Pattern::Constr { constr_name, decl_name, bindings, type_params_bindings } => {
                let bs = dup_strings(bindings);
                Pattern::Constr {
                    constr_name: dup_string(constr_name),
                    decl_name: dup_string(decl_name),
                    bindings: bs,
                    type_params_bindings: dup_types(type_params_bindings),
                }
            },
            Pattern::Wildcard => Pattern::Wildcard,
        }
    }
}


impl SIR {
    /// A copy of the term.
    pub fn duplicate(&self) -> (r: SIR)
        ensures
            sir_of(r) == sir_of(*self),
        decreases self,
    {
        match self {
            SIR::Var { name, tp, anns } => SIR::Var {
                name: dup_string(name),
                tp: tp.duplicate(),
                anns: anns.duplicate(),
            },
            SIR::ExternalVar { module_name, name, tp, anns } => SIR::ExternalVar {
                module_name: dup_string(module_name),
                name: dup_string(name),
                tp: tp.duplicate(),
                anns: anns.duplicate(),
            },
            SIR::Const { uplc_const, tp, anns } => SIR::Const {
                uplc_const: uplc_const.duplicate(),
                tp: tp.duplicate(),
                anns: anns.duplicate(),
            },
            SIR::LamAbs { param, term, type_params, anns } => SIR::LamAbs {
                param: Box::new(param.duplicate()),
                term: Box::new(term.duplicate()),
                type_params: dup_type_vars(type_params),
                anns: anns.duplicate(),
            },
            SIR::Apply { f, arg, tp, anns } => SIR::Apply {
                f: Box::new(f.duplicate()),
                arg: Box::new(arg.duplicate()),
                tp: tp.duplicate(),
                anns: anns.duplicate(),
            },
            SIR::Let { bindings, body, flags, anns } => {
                let bs = dup_binds_rec(bindings, self);
                SIR::Let {
                    bindings: bs,
                    body: Box::new(body.duplicate()),
                    flags: *flags,
                    anns: anns.duplicate(),
                }
            },
            SIR::Constr { name, data, args, tp, anns } => {
                let a = dup_sirs_rec(args, self);
                SIR::Constr {
                    name: dup_string(name),
                    data: data.duplicate(),
                    args: a,
                    tp: tp.duplicate(),
                    anns: anns.duplicate(),
                }
            },
            SIR::Match { scrutinee, cases, tp, anns } => {
                let cs = dup_cases_rec(cases, self);
                SIR::Match {
                    scrutinee: Box::new(scrutinee.duplicate()),
                    cases: cs,
                    tp: tp.duplicate(),
                    anns: anns.duplicate(),
                }
            },
            SIR::IfThenElse { cond, t, f, tp, anns } => SIR::IfThenElse {
                cond: Box::new(cond.duplicate()),
                t: Box::new(t.duplicate()),
                f: Box::new(f.duplicate()),
                tp: tp.duplicate(),
                anns: anns.duplicate(),
            },
            SIR::Builtin { builtin_fun, tp, anns } => SIR::Builtin {
                builtin_fun: *builtin_fun,
                tp: tp.duplicate(),
                anns: anns.duplicate(),
            },
            SIR::Error { msg, anns } => SIR::Error {
                msg: Box::new(msg.duplicate()),
                anns: anns.duplicate(),
            },
            SIR::Decl { data, term } => SIR::Decl {
                data: data.duplicate(),
                term: Box::new(term.duplicate()),
            },
            SIR::Select { scrutinee, field, tp, anns } => SIR::Select {
                scrutinee: Box::new(scrutinee.duplicate()),
                field: dup_string(field),
                tp: tp.duplicate(),
                anns: anns.duplicate(),
            },
        }
    }
}

/// A copy of the argument terms of `parent`.
fn dup_sirs_rec(v: &Vec<SIR>, parent: &SIR) -> (r: Vec<SIR>)
    requires
        forall|i: int| 0 <= i < v@.len() ==> decreases_to!(*parent => #[trigger] v@[i]),
    ensures
        sirs_of(r@) == sirs_of(v@),
    decreases parent, 0nat,
{
    let mut r: Vec<SIR> = Vec::new();
    let mut i: usize = 0;
    while i < v.len()
        invariant
            0 <= i <= v@.len(),
            sirs_of(r@) == sirs_of(v@.take(i as int)),
            forall|i: int| 0 <= i < v@.len() ==> decreases_to!(*parent => #[trigger] v@[i]),
        decreases v@.len() - i,
    {
        let x = v[i].duplicate();
        proof {
            lemma_sirs_push(r@, x);
            lemma_sirs_push(v@.take(i as int), v@[i as int]);
            assert(v@.take(i + 1) == v@.take(i as int).push(v@[i as int]));
        }
        r.push(x);
        i += 1;
    }
    assert(v@.take(v@.len() as int) == v@);
    r
}

/// A copy of the cases of `parent`.
fn dup_cases_rec(v: &Vec<Case>, parent: &SIR) -> (r: Vec<Case>)
    requires
        forall|i: int| 0 <= i < v@.len() ==> decreases_to!(*parent => #[trigger] v@[i].body),
        forall|i: int| 0 <= i < v@.len() ==> decreases_to!(*parent => #[trigger] v@[i].anns),
    ensures
        cases_of(r@) == cases_of(v@),
    decreases parent, 0nat,
{
    let mut r: Vec<Case> = Vec::new();
    let mut i: usize = 0;
    while i < v.len()
        invariant
            0 <= i <= v@.len(),
            cases_of(r@) == cases_of(v@.take(i as int)),
            forall|i: int| 0 <= i < v@.len() ==> decreases_to!(*parent => #[trigger] v@[i].body),
            forall|i: int| 0 <= i < v@.len() ==> decreases_to!(*parent => #[trigger] v@[i].anns),
        decreases v@.len() - i,
    {
        let c = &v[i];
        let x = CaseOf { pattern: c.pattern.duplicate(), body: c.body.duplicate(), anns: c.anns.duplicate() };
        proof {
            lemma_cases_push(r@, x);
            lemma_cases_push(v@.take(i as int), v@[i as int]);
            assert(v@.take(i + 1) == v@.take(i as int).push(v@[i as int]));
        }
        r.push(x);
        i += 1;
    }
    assert(v@.take(v@.len() as int) == v@);
    r
}

/// A copy of the let bindings of `parent`.
fn dup_binds_rec(v: &Vec<Binding>, parent: &SIR) -> (r: Vec<Binding>)
    requires
        forall|i: int| 0 <= i < v@.len() ==> decreases_to!(*parent => #[trigger] v@[i].value),
    ensures
        binds_of(r@) == binds_of(v@),
    decreases parent, 0nat,
{
    let mut r: Vec<Binding> = Vec::new();
    let mut i: usize = 0;
    while i < v.len()
        invariant
            0 <= i <= v@.len(),
            binds_of(r@) == binds_of(v@.take(i as int)),
            forall|i: int| 0 <= i < v@.len() ==> decreases_to!(*parent => #[trigger] v@[i].value),
        decreases v@.len() - i,
    {
        let b = &v[i];
        let x = BindingOf { name: dup_string(&b.name), tp: b.tp.duplicate(), value: b.value.duplicate() };
        proof {
            lemma_binds_push(r@, x);
            lemma_binds_push(v@.take(i as int), v@[i as int]);
            assert(v@.take(i + 1) == v@.take(i as int).push(v@[i as int]));
        }
        r.push(x);
        i += 1;
    }
    assert(v@.take(v@.len() as int) == v@);
    r
}

} // verus!



verus! {

impl Clone for SIRType {
    fn clone(&self) -> (r: SIRType)
        ensures
            ty_of(r) == ty_of(*self),
    {
        self.duplicate()
    }
}

impl Clone for SIR {
    fn clone(&self) -> (r: SIR)
        ensures
            sir_of(r) == sir_of(*self),
    {
        self.duplicate()
    }
}

impl Clone for DataDecl {
    fn clone(&self) -> (r: DataDecl)
        ensures
            decl_of(r) == decl_of(*self),
    {
        self.duplicate()
    }
}

impl Clone for crate::data::Data {
    fn clone(&self) -> (r: crate::data::Data)
        ensures
            r@ == self@,
    {
        self.duplicate()
    }
}

impl Clone for crate::integer::Integer {
    fn clone(&self) -> (r: crate::integer::Integer)
        ensures
            r@ == self@,
    {
        self.copy()
    }
}

} // verus!
