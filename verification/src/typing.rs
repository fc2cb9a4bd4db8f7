//! Typing pass: walks the SIR tree and resolves `SIRType::Unresolved` types.
//!
//! The pass keeps a type environment (variable name to type) and reads
//! constructor field types from the symbol table of data declarations.
//! Before typing, `renumber_type_vars` gives every type variable of the symbol
//! table an id of its own, so that they do not collide during substitution.
use crate::model::{AnnM, ConstrM, DeclM, SirM, Ty, TvM, CaseM, BindM, PatM, decl_of};
use crate::name_map::{assoc_last, NameMap};
use crate::sir_type::{env_lookup, subst_ty, DataDecl, SIRType};
use crate::text::{after_last, decimal};
use vstd::prelude::*;

verus! {


// ---------------------------------------------------------------------------
// Errors
// ---------------------------------------------------------------------------

/// A typing error and where it occurred.
#[derive(Debug, PartialEq)]
pub struct TypingError {
    pub kind: TypingErrorKind,
    pub location: String,
}

/// The kinds of typing error.
#[derive(Debug, PartialEq)]
pub enum TypingErrorKind {
    UnresolvedType { context: String },
    UnknownVariable { name: String },
    UnknownDataDecl { name: String },
    UnknownConstructor { constr_name: String, decl_name: String },
    NotAFunctionType { tp: SIRType },
    NotADataType { tp: SIRType, context: String },
}

/// The text of a typing error, with ` at <location>` where the location is
/// not empty; `tp` is the text of the type that the error names, for the
/// kinds that name one.
pub open spec fn typing_error_text(e: TypingError, tp: Seq<char>) -> Seq<char> {
    let loc = if e.location@.len() == 0 {
        Seq::<char>::empty()
    } else {
        " at "@ + e.location@
    };
    match e.kind {
        TypingErrorKind::UnresolvedType { context } => "unresolved type in "@ + context@ + loc,
        TypingErrorKind::UnknownVariable { name } => "unknown variable '"@ + name@ + "'"@ + loc,
        TypingErrorKind::UnknownDataDecl { name } => "type '"@ + name@ + "' is not registered with #[derive(ToData)]"@
            + loc,
        TypingErrorKind::UnknownConstructor { constr_name, decl_name } => "unknown constructor '"@ + constr_name@
            + "' in type '"@ + decl_name@ + "'"@ + loc,
        TypingErrorKind::NotAFunctionType { .. } => "expected function type, got "@ + tp + loc,
        TypingErrorKind::NotADataType { context, .. } => "expected data type in "@ + context@ + ", got "@ + tp + loc,
    }
}

impl TypingError {
    /// The message of the error, where `tp` is the text of the type that it
    /// names (its `Debug` text), for the kinds that name one.
    pub fn message(&self, tp: &str) -> (r: String)
        ensures
            r@ == typing_error_text(*self, tp@),
    {
        let mut r = String::new();
        match &self.kind {
            TypingErrorKind::UnresolvedType { context } => {
                crate::text::push_str(&mut r, "unresolved type in ");
                crate::text::push_str(&mut r, context.as_str());
            },
            TypingErrorKind::UnknownVariable { name } => {
                crate::text::push_str(&mut r, "unknown variable '");
                crate::text::push_str(&mut r, name.as_str());
                crate::text::push_str(&mut r, "'");
            },
            TypingErrorKind::UnknownDataDecl { name } => {
                crate::text::push_str(&mut r, "type '");
                crate::text::push_str(&mut r, name.as_str());
                crate::text::push_str(&mut r, "' is not registered with #[derive(ToData)]");
            },
            TypingErrorKind::UnknownConstructor { constr_name, decl_name } => {
                crate::text::push_str(&mut r, "unknown constructor '");
                crate::text::push_str(&mut r, constr_name.as_str());
                crate::text::push_str(&mut r, "' in type '");
                crate::text::push_str(&mut r, decl_name.as_str());
                crate::text::push_str(&mut r, "'");
            },
            TypingErrorKind::NotAFunctionType { .. } => {
                crate::text::push_str(&mut r, "expected function type, got ");
                crate::text::push_str(&mut r, tp);
            },
            TypingErrorKind::NotADataType { context, .. } => {
                crate::text::push_str(&mut r, "expected data type in ");
                crate::text::push_str(&mut r, context.as_str());
                crate::text::push_str(&mut r, ", got ");
                crate::text::push_str(&mut r, tp);
            },
        }
        if crate::text::chars_of(self.location.as_str()).len() > 0 {
            crate::text::push_str(&mut r, " at ");
            crate::text::push_str(&mut r, self.location.as_str());
        }
        proof {
            assert(r@ =~= typing_error_text(*self, tp@));
        }
        r
    }
}

/// Model of a `TypingErrorKind`.
pub enum KindM {
    UnresolvedType(Seq<char>),
    UnknownVariable(Seq<char>),
    UnknownDataDecl(Seq<char>),
    UnknownConstructor(Seq<char>, Seq<char>),
    NotAFunctionType(Ty),
    NotADataType(Ty, Seq<char>),
}

/// Model of a `TypingError`: its kind and its location text.
pub type ErrM = (KindM, Seq<char>);

/// The model of an error kind.
pub open spec fn kind_of(k: TypingErrorKind) -> KindM {
    match k {
        TypingErrorKind::UnresolvedType { context } => KindM::UnresolvedType(context@),
        TypingErrorKind::UnknownVariable { name } => KindM::UnknownVariable(name@),
        TypingErrorKind::UnknownDataDecl { name } => KindM::UnknownDataDecl(name@),
        TypingErrorKind::UnknownConstructor { constr_name, decl_name } => KindM::UnknownConstructor(
            constr_name@,
            decl_name@,
        ),
        TypingErrorKind::NotAFunctionType { tp } => KindM::NotAFunctionType(crate::model::ty_of(tp)),
        TypingErrorKind::NotADataType { tp, context } => KindM::NotADataType(
            crate::model::ty_of(tp),
            context@,
        ),
    }
}

/// The models of a sequence of errors.
pub open spec fn errs_of(v: Seq<TypingError>) -> Seq<ErrM> {
    v.map_values(|e: TypingError| (kind_of(e.kind), e.location@))
}

/// The location text of annotations: `file:line:column` with a 1-based line,
/// or nothing where the position is empty.
pub open spec fn loc_text(a: AnnM) -> Seq<char> {
    if a.pos.file.len() == 0 && a.pos.start_line == 0 {
        Seq::empty()
    } else {
        a.pos.file + seq![':'] + decimal(a.pos.start_line + 1) + seq![':'] + decimal(
            a.pos.start_column as int,
        )
    }
}

// ---------------------------------------------------------------------------
// Types of terms
// ---------------------------------------------------------------------------

/// The type of a term.
pub open spec fn sir_ty(s: SirM) -> Ty
    decreases s,
{
    match s {
        SirM::Var(_, tp, _) => tp,
        SirM::ExternalVar(_, _, tp, _) => tp,
        SirM::Const(_, tp, _) => tp,
        SirM::LamAbs(p, t, _, _) => Ty::Fun(Box::new(sir_ty(*p)), Box::new(sir_ty(*t))),
        SirM::Apply(_, _, tp, _) => tp,
        SirM::Let(_, body, _, _) => sir_ty(*body),
        SirM::Constr(_, _, _, tp, _) => tp,
        SirM::Match(_, _, tp, _) => tp,
        SirM::IfThenElse(_, _, _, tp, _) => tp,
        SirM::Builtin(_, tp, _) => tp,
        SirM::Error(_, _) => Ty::TypeNothing,
        SirM::Decl(_, t) => sir_ty(*t),
        SirM::Select(_, _, tp, _) => tp,
    }
}

/// A type that can stand as the type of a match or conditional.
pub open spec fn informative(t: Ty) -> bool {
    t != Ty::Unresolved && t != Ty::TypeNothing
}

/// The declaration name that a data type refers to.
pub open spec fn decl_name_of(t: Ty) -> Option<Seq<char>> {
    match t {
        Ty::SumCaseClass(d, _) => Some(d),
        Ty::CaseClass(_, d, _) => Some(d),
        _ => None,
    }
}

/// The type arguments of a data type.
pub open spec fn type_args_of(t: Ty) -> Seq<Ty> {
    match t {
        Ty::SumCaseClass(_, a) => a,
        Ty::CaseClass(_, _, a) => a,
        _ => Seq::empty(),
    }
}

/// The map from the ids of the first `n` type parameters to the matching type
/// arguments (a later parameter with the same id wins).
pub open spec fn subst_zip(tps: Seq<TvM>, args: Seq<Ty>, n: int) -> Map<i64, Ty>
    decreases n,
{
    if n <= 0 {
        Map::empty()
    } else {
        let m = subst_zip(tps, args, n - 1);
        match tps[n - 1].opt_id {
            Some(id) => m.insert(id, args[n - 1]),
            None => m,
        }
    }
}

/// The substitution that instantiates the declaration of a data type with its
/// type arguments.
pub open spec fn subst_of_decl(decl: DeclM, t: Ty) -> Map<i64, Ty> {
    let args = type_args_of(t);
    let n = if decl.type_params.len() < args.len() {
        decl.type_params.len()
    } else {
        args.len()
    };
    subst_zip(decl.type_params, args, n as int)
}

/// The substitution for the type of a match scrutinee.
pub open spec fn build_subst(t: Ty, st: Seq<(Seq<char>, DeclM)>) -> Map<i64, Ty> {
    match decl_name_of(t) {
        Some(d) => match assoc_last(st, d) {
            Some(decl) => subst_of_decl(decl, t),
            None => Map::empty(),
        },
        None => Map::empty(),
    }
}

/// The type of the first field named `name`.
pub open spec fn first_param(ps: Seq<(Seq<char>, Ty)>, name: Seq<char>) -> Option<Ty>
    decreases ps.len(),
{
    if ps.len() == 0 {
        None
    } else {
        match first_param(ps.subrange(0, ps.len() - 1), name) {
            Some(t) => Some(t),
            None => if ps[ps.len() - 1].0 == name {
                Some(ps[ps.len() - 1].1)
            } else {
                None
            },
        }
    }
}

/// The type of the first field named `name` in any constructor.
pub open spec fn first_field(cs: Seq<ConstrM>, name: Seq<char>) -> Option<Ty>
    decreases cs.len(),
{
    if cs.len() == 0 {
        None
    } else {
        match first_field(cs.subrange(0, cs.len() - 1), name) {
            Some(t) => Some(t),
            None => first_param(cs[cs.len() - 1].params, name),
        }
    }
}

/// The type of field `field` of a value of data type `t`.
pub open spec fn field_ty(t: Ty, field: Seq<char>, st: Seq<(Seq<char>, DeclM)>) -> Option<Ty> {
    match decl_name_of(t) {
        Some(d) => match assoc_last(st, d) {
            Some(decl) => match first_field(decl.constructors, field) {
                Some(ft) => Some(subst_ty(ft, subst_of_decl(decl, t))),
                None => None,
            },
            None => None,
        },
        None => None,
    }
}

/// `s` ends with `suffix`.
pub open spec fn ends_with(s: Seq<char>, suffix: Seq<char>) -> bool {
    suffix.len() <= s.len() && s.subrange(s.len() - suffix.len(), s.len() as int) == suffix
}

/// The first constructor that satisfies `p`.
pub open spec fn first_constr(cs: Seq<ConstrM>, p: spec_fn(ConstrM) -> bool) -> Option<ConstrM>
    decreases cs.len(),
{
    if cs.len() == 0 {
        None
    } else {
        match first_constr(cs.subrange(0, cs.len() - 1), p) {
            Some(c) => Some(c),
            None => if p(cs[cs.len() - 1]) {
                Some(cs[cs.len() - 1])
            } else {
                None
            },
        }
    }
}

/// Whether a constructor has the given name (or, with `suffix`, a name that
/// ends with it).
pub open spec fn name_test(name: Seq<char>, suffix: bool) -> spec_fn(ConstrM) -> bool {
    if suffix {
        |c: ConstrM| ends_with(c.name, name)
    } else {
        |c: ConstrM| c.name == name
    }
}

/// The constructor that a pattern names: the one with that name, or else the
/// first whose name ends with `$.` and the last `::` segment of it.
pub open spec fn find_constr(cs: Seq<ConstrM>, name: Seq<char>) -> Option<ConstrM> {
    match first_constr(cs, name_test(name, false)) {
        Some(c) => Some(c),
        None => first_constr(cs, name_test(seq!['$', '.'] + after_last(name, seq![':', ':']), true)),
    }
}

/// The declaration that a pattern refers to: by its own name, or else by the
/// scrutinee's type.
pub open spec fn pattern_decl(st: Seq<(Seq<char>, DeclM)>, decl_name: Seq<char>, stp: Ty) -> Option<
    DeclM,
> {
    match assoc_last(st, decl_name) {
        Some(d) => Some(d),
        None => match decl_name_of(stp) {
            Some(d) => assoc_last(st, d),
            None => None,
        },
    }
}

/// The field that binding number `i`, named `b`, stands for: the field of that
/// name, or else the `i`-th field.
pub open spec fn param_for(ps: Seq<(Seq<char>, Ty)>, b: Seq<char>, i: int) -> Option<Ty> {
    match first_param(ps, b) {
        Some(t) => Some(t),
        None => if 0 <= i < ps.len() {
            Some(ps[i].1)
        } else {
            None
        },
    }
}

/// The environment after binding the variables of a constructor pattern.
pub open spec fn bind_fields(
    env: Seq<(Seq<char>, Ty)>,
    bs: Seq<Seq<char>>,
    ps: Seq<(Seq<char>, Ty)>,
    m: Map<i64, Ty>,
) -> Seq<(Seq<char>, Ty)>
    decreases bs.len(),
{
    if bs.len() == 0 {
        env
    } else {
        let env1 = bind_fields(env, bs.subrange(0, bs.len() - 1), ps, m);
        let i = bs.len() - 1;
        if bs[i] == seq!['_'] {
            env1
        } else {
            match param_for(ps, bs[i], i) {
                Some(t) => env1.push((bs[i], subst_ty(t, m))),
                None => env1,
            }
        }
    }
}

/// The environment in which a case body is typed, and the errors of its pattern.
pub open spec fn case_env(
    pat: PatM,
    a: AnnM,
    stp: Ty,
    m: Map<i64, Ty>,
    env: Seq<(Seq<char>, Ty)>,
    st: Seq<(Seq<char>, DeclM)>,
) -> (Seq<(Seq<char>, Ty)>, Seq<ErrM>) {
    match pat {
        PatM::Constr(cn, dn, bs, _) => match pattern_decl(st, dn, stp) {
            Some(decl) => match find_constr(decl.constructors, cn) {
                Some(c) => (bind_fields(env, bs, c.params, m), Seq::empty()),
                None => (env, seq![(KindM::UnknownConstructor(cn, dn), loc_text(a))]),
            },
            None => if dn.len() > 0 {
                (env, seq![(KindM::UnknownDataDecl(dn), loc_text(a))])
            } else {
                (env, Seq::empty())
            },
        },
        PatM::Wildcard => (env, Seq::empty()),
    }
}

/// The type of the first case whose body has an informative type.
pub open spec fn first_case_ty(cs: Seq<CaseM>) -> Option<Ty>
    decreases cs.len(),
{
    if cs.len() == 0 {
        None
    } else {
        match first_case_ty(cs.subrange(0, cs.len() - 1)) {
            Some(t) => Some(t),
            None => if informative(sir_ty(cs[cs.len() - 1].1)) {
                Some(sir_ty(cs[cs.len() - 1].1))
            } else {
                None
            },
        }
    }
}

// ---------------------------------------------------------------------------
// The typing pass, as a function on models
// ---------------------------------------------------------------------------

/// Typing an application types its function and its argument and keeps
/// them in place; a type already given stays, and an application whose type
/// was unresolved gets the result type of its typed function: `b` where the
/// function has type `a -> b`, never the parameter type `a`. Its errors are
/// those of the function, then those of the argument, and where the
/// function's type is known but not a function type, one more.
pub proof fn law_typed_apply(
    f: SirM,
    x: SirM,
    tp: Ty,
    a: AnnM,
    env: Seq<(Seq<char>, Ty)>,
    st: Seq<(Seq<char>, DeclM)>,
    from: Ty,
    to: Ty,
)
    ensures
        ({
            let (r, errs) = typed(SirM::Apply(Box::new(f), Box::new(x), tp, a), env, st);
            let (f2, e1) = typed(f, env, st);
            let (x2, e2) = typed(x, env, st);
            &&& r matches SirM::Apply(rf, rx, t2, ra)
            &&& *rf == f2 && *rx == x2 && ra == a
            &&& tp != Ty::Unresolved ==> t2 == tp && errs == e1 + e2
            &&& tp == Ty::Unresolved && sir_ty(f2) == Ty::Fun(Box::new(from), Box::new(to)) ==> t2 == to && errs
                == e1 + e2
            &&& tp == Ty::Unresolved && sir_ty(f2) == Ty::Unresolved ==> t2 == Ty::Unresolved && errs == e1 + e2
        }),
{
}

/// The typed term and the errors found, for term `s` in environment `env`.
pub open spec fn typed(s: SirM, env: Seq<(Seq<char>, Ty)>, st: Seq<(Seq<char>, DeclM)>) -> (
    SirM,
    Seq<ErrM>,
)
    decreases s,
{
    match s {
        SirM::Var(n, tp, a) => if tp == Ty::Unresolved {
            match env_lookup(env, n) {
                Some(t) => (SirM::Var(n, t, a), Seq::empty()),
                None => (s, seq![(KindM::UnknownVariable(n), loc_text(a))]),
            }
        } else {
            (s, Seq::empty())
        },
        SirM::ExternalVar(..) => (s, Seq::empty()),
        SirM::Const(..) => (s, Seq::empty()),
        SirM::Builtin(..) => (s, Seq::empty()),
        SirM::LamAbs(p, t, tps, a) => {
            let (p2, e1) = typed(*p, env, st);
            let env2 = match p2 {
                SirM::Var(n, tp, _) => env.push((n, tp)),
                _ => env,
            };
            let (t2, e2) = typed(*t, env2, st);
            (SirM::LamAbs(Box::new(p2), Box::new(t2), tps, a), e1 + e2)
        },
        SirM::Apply(f, x, tp, a) => {
            let (f2, e1) = typed(*f, env, st);
            let (x2, e2) = typed(*x, env, st);
            if tp == Ty::Unresolved {
                match sir_ty(f2) {
                    Ty::Fun(_, to) => (SirM::Apply(Box::new(f2), Box::new(x2), *to, a), e1 + e2),
                    Ty::Unresolved => (SirM::Apply(Box::new(f2), Box::new(x2), tp, a), e1 + e2),
                    ft => (
                        SirM::Apply(Box::new(f2), Box::new(x2), tp, a),
                        e1 + e2 + seq![(KindM::NotAFunctionType(ft), loc_text(a))],
                    ),
                }
            } else {
                (SirM::Apply(Box::new(f2), Box::new(x2), tp, a), e1 + e2)
            }
        },
        SirM::Let(bs, body, fl, a) => {
            let (bs2, env2, e1) = typed_binds(bs, env, st);
            let (b2, e2) = typed(*body, env2, st);
            (SirM::Let(bs2, Box::new(b2), fl, a), e1 + e2)
        },
        SirM::Constr(n, d, args, tp, a) => {
            let (args2, e) = typed_all(args, env, st);
            (SirM::Constr(n, d, args2, tp, a), e)
        },
        SirM::Match(scr, cases, tp, a) => {
            let (s2, e1) = typed(*scr, env, st);
            let stp = sir_ty(s2);
            let m = build_subst(stp, st);
            let (cs2, e2) = typed_cases(cases, stp, m, env, st);
            let tp2 = if tp == Ty::Unresolved {
                match first_case_ty(cs2) {
                    Some(t) => t,
                    None => tp,
                }
            } else {
                tp
            };
            (SirM::Match(Box::new(s2), cs2, tp2, a), e1 + e2)
        },
        SirM::IfThenElse(c, t, f, tp, a) => {
            let (c2, e1) = typed(*c, env, st);
            let (t2, e2) = typed(*t, env, st);
            let (f2, e3) = typed(*f, env, st);
            let tp2 = if tp == Ty::Unresolved {
                if informative(sir_ty(t2)) {
                    sir_ty(t2)
                } else if informative(sir_ty(f2)) {
                    sir_ty(f2)
                } else {
                    tp
                }
            } else {
                tp
            };
            (SirM::IfThenElse(Box::new(c2), Box::new(t2), Box::new(f2), tp2, a), e1 + e2 + e3)
        },
        SirM::Error(msg, a) => {
            let (m2, e) = typed(*msg, env, st);
            (SirM::Error(Box::new(m2), a), e)
        },
        SirM::Decl(d, t) => {
            let (t2, e) = typed(*t, env, st);
            (SirM::Decl(d, Box::new(t2)), e)
        },
        SirM::Select(scr, field, tp, a) => {
            let (s2, e1) = typed(*scr, env, st);
            if tp == Ty::Unresolved {
                match field_ty(sir_ty(s2), field, st) {
                    Some(ft) => (SirM::Select(Box::new(s2), field, ft, a), e1),
                    None => (
                        SirM::Select(Box::new(s2), field, tp, a),
                        e1 + seq![
                            (
                                KindM::NotADataType(
                                    sir_ty(s2),
                                    seq!['s', 'e', 'l', 'e', 'c', 't', ' ', '.'] + field,
                                ),
                                loc_text(a),
                            ),
                        ],
                    ),
                }
            } else {
                (SirM::Select(Box::new(s2), field, tp, a), e1)
            }
        },
    }
}

/// Typing of each of a sequence of terms in the same environment.
pub open spec fn typed_all(s: Seq<SirM>, env: Seq<(Seq<char>, Ty)>, st: Seq<(Seq<char>, DeclM)>) -> (
    Seq<SirM>,
    Seq<ErrM>,
)
    decreases s,
{
    if s.len() == 0 {
        (Seq::empty(), Seq::empty())
    } else {
        let (pre, e1) = typed_all(s.subrange(0, s.len() - 1), env, st);
        let (x, e2) = typed(s[s.len() - 1], env, st);
        (pre.push(x), e1 + e2)
    }
}

/// Typing of let bindings in order, each in the environment that the earlier
/// ones extend; an unresolved binding type becomes the type of its value.
pub open spec fn typed_binds(
    bs: Seq<BindM>,
    env: Seq<(Seq<char>, Ty)>,
    st: Seq<(Seq<char>, DeclM)>,
) -> (Seq<BindM>, Seq<(Seq<char>, Ty)>, Seq<ErrM>)
    decreases bs,
{
    if bs.len() == 0 {
        (Seq::empty(), env, Seq::empty())
    } else {
        let (pre, env1, e1) = typed_binds(bs.subrange(0, bs.len() - 1), env, st);
        let b = bs[bs.len() - 1];
        let (v2, e2) = typed(b.2, env1, st);
        let tp = if b.1 == Ty::Unresolved {
            sir_ty(v2)
        } else {
            b.1
        };
        (pre.push((b.0, tp, v2)), env1.push((b.0, tp)), e1 + e2)
    }
}

/// Typing of one case of a match.
pub open spec fn typed_case(
    c: CaseM,
    stp: Ty,
    m: Map<i64, Ty>,
    env: Seq<(Seq<char>, Ty)>,
    st: Seq<(Seq<char>, DeclM)>,
) -> (CaseM, Seq<ErrM>)
    decreases c,
{
    let (env2, e1) = case_env(c.0, c.2, stp, m, env, st);
    let (b2, e2) = typed(c.1, env2, st);
    ((c.0, b2, c.2), e1 + e2)
}

/// Typing of the cases of a match.
pub open spec fn typed_cases(
    cs: Seq<CaseM>,
    stp: Ty,
    m: Map<i64, Ty>,
    env: Seq<(Seq<char>, Ty)>,
    st: Seq<(Seq<char>, DeclM)>,
) -> (Seq<CaseM>, Seq<ErrM>)
    decreases cs,
{
    if cs.len() == 0 {
        (Seq::empty(), Seq::empty())
    } else {
        let (pre, e1) = typed_cases(cs.subrange(0, cs.len() - 1), stp, m, env, st);
        let (x, e2) = typed_case(cs[cs.len() - 1], stp, m, env, st);
        (pre.push(x), e1 + e2)
    }
}

/// The model of a symbol table.
pub open spec fn st_of(st: NameMap<DataDecl>) -> Seq<(Seq<char>, DeclM)> {
    st.entries@.map_values(|e: (String, DataDecl)| (e.0@, decl_of(e.1)))
}

} // verus!

verus! {

use crate::duplicate::{dup_string, lemma_sirs_push, lemma_cases_push, lemma_binds_push};
use crate::model::{ann_of, ty_of, tys_of, lemma_tys_of, sir_of, sirs_of, cases_of, binds_of, pat_of, constr_of, constrs_of, params_of, tvs_of, tv_of};
use crate::module::AnnotationsDecl;
use crate::name_map::{lemma_assoc_last_at, lemma_assoc_last_none, sorted_keys_m, keys_sorted};
use crate::sir::{Binding, BindingOf, Case, CaseOf, Pattern, SIR};
use crate::sir_type::{subst_map_of, ConstrDecl, TypeBinding, TypeEnv};
use crate::text::{int_text, push_str};
use std::collections::HashMap;

broadcast use {vstd::std_specs::vec::group_vec_axioms, vstd::std_specs::hash::group_hash_axioms, crate::model::group_model_seqs};

pub proof fn lemma_errs_push(v: Seq<TypingError>, e: TypingError)
    ensures
        errs_of(v.push(e)) == errs_of(v).push((kind_of(e.kind), e.location@)),
{
    assert(errs_of(v.push(e)) =~= errs_of(v).push((kind_of(e.kind), e.location@)));
}

/// The location of annotations, as `file:line:column` (1-based line), or
/// empty where the position is empty.
pub fn format_location(anns: &AnnotationsDecl) -> (r: String)
    ensures
        r@ == loc_text(ann_of(*anns)),
{
    let pos = &anns.pos;
    if pos.file.as_str().is_empty() && pos.start_line == 0 {
        String::new()
    } else {
        let mut r = crate::text::owned(pos.file.as_str());
        push_str(&mut r, ":");
        let line = int_text(pos.start_line as i64 + 1);
        push_str(&mut r, line.as_str());
        push_str(&mut r, ":");
        let col = int_text(pos.start_column as i64);
        push_str(&mut r, col.as_str());
        proof {
            reveal_strlit(":");
        }
        r
    }
}

/// An error located at the position of `anns`.
pub fn make_error(kind: TypingErrorKind, anns: &AnnotationsDecl) -> (r: TypingError)
    ensures
        kind_of(r.kind) == kind_of(kind),
        r.location@ == loc_text(ann_of(*anns)),
{
    TypingError { kind, location: format_location(anns) }
}

/// An error without a location.
pub fn make_error_no_loc(kind: TypingErrorKind) -> (r: TypingError)
    ensures
        kind_of(r.kind) == kind_of(kind),
        r.location@ == Seq::<char>::empty(),
{
    TypingError { kind, location: String::new() }
}

/// The type of a SIR node.
pub fn sir_type(sir: &SIR) -> (r: SIRType)
    ensures
        ty_of(r) == sir_ty(sir_of(*sir)),
    decreases sir,
{
    match sir {
        SIR::Var { tp, .. } => tp.duplicate(),
        SIR::ExternalVar { tp, .. } => tp.duplicate(),
        SIR::Const { tp, .. } => tp.duplicate(),
        SIR::LamAbs { param, term, .. } => {
            let param_tp = sir_type(param);
            let body_tp = sir_type(term);
            SIRType::Fun { from: Box::new(param_tp), to: Box::new(body_tp) }
        },
        SIR::Apply { tp, .. } => tp.duplicate(),
        SIR::Let { body, .. } => sir_type(body),
        SIR::Constr { tp, .. } => tp.duplicate(),
        SIR::Match { tp, .. } => tp.duplicate(),
        SIR::IfThenElse { tp, .. } => tp.duplicate(),
        SIR::Builtin { tp, .. } => tp.duplicate(),
        SIR::Error { .. } => SIRType::TypeNothing,
        SIR::Decl { term, .. } => sir_type(term),
        SIR::Select { tp, .. } => tp.duplicate(),
    }
}

/// The keys of a well-formed symbol table are sorted in its model.
pub proof fn lemma_st_sorted(st: NameMap<DataDecl>)
    requires
        st.wf(),
    ensures
        sorted_keys_m(st_of(st)),
        st_of(st).len() == st.entries@.len(),
        forall|i: int| 0 <= i < st.entries@.len() ==> #[trigger] st_of(st)[i] == (st.entries@[i].0@, decl_of(st.entries@[i].1)),
{
}

/// The declaration named `k` in the symbol table.
pub fn lookup_decl<'a>(st: &'a NameMap<DataDecl>, k: &str) -> (r: Option<&'a DataDecl>)
    requires
        st.wf(),
    ensures
        r matches Some(d) ==> assoc_last(st_of(*st), k@) == Some(decl_of(*d)),
        r is None ==> assoc_last(st_of(*st), k@) is None,
{
    proof {
        lemma_st_sorted(*st);
    }
    match st.index_of(k) {
        Some(i) => {
            proof {
                lemma_assoc_last_at(st_of(*st), i as int);
            }
            Some(&st.entries[i].1)
        },
        None => {
            proof {
                assert forall|i: int| 0 <= i < st_of(*st).len() implies #[trigger] st_of(*st)[i].0 != k@ by {
                    assert(st.entries_spec()[i].0@ != k@);
                }
                lemma_assoc_last_none(st_of(*st), k@);
            }
            None
        },
    }
}

/// The declaration name of a data type.
pub(crate) fn decl_name_exec(t: &SIRType) -> (r: Option<&String>)
    ensures
        r matches Some(s) ==> decl_name_of(ty_of(*t)) == Some(s@),
        r is None ==> decl_name_of(ty_of(*t)) is None,
{
    match t {
        SIRType::SumCaseClass { decl_name, .. } => Some(decl_name),
        SIRType::CaseClass { decl_name, .. } => Some(decl_name),
        _ => None,
    }
}

/// The type arguments of a data type.
pub(crate) fn type_args_exec(t: &SIRType) -> (r: Option<&Vec<SIRType>>)
    ensures
        r matches Some(a) ==> type_args_of(ty_of(*t)) == tys_of(a@),
        r is None ==> type_args_of(ty_of(*t)) == Seq::<Ty>::empty(),
{
    match t {
        SIRType::SumCaseClass { type_args, .. } => Some(type_args),
        SIRType::CaseClass { type_args, .. } => Some(type_args),
        _ => None,
    }
}

pub proof fn lemma_subst_map_insert(m: Map<i64, SIRType>, k: i64, v: SIRType)
    ensures
        subst_map_of(m.insert(k, v)) == subst_map_of(m).insert(k, ty_of(v)),
{
    assert(subst_map_of(m.insert(k, v)) =~= subst_map_of(m).insert(k, ty_of(v)));
}

/// The substitution that instantiates `decl` with the type arguments of `t`.
pub(crate) fn decl_substitution(decl: &DataDecl, t: &SIRType) -> (r: HashMap<i64, SIRType>)
    ensures
        subst_map_of(r@) == subst_of_decl(decl_of(*decl), ty_of(*t)),
{
    let mut subst: HashMap<i64, SIRType> = HashMap::new();
    let empty: Vec<SIRType> = Vec::new();
    let args = match type_args_exec(t) {
        Some(a) => a,
        None => &empty,
    };
    proof {
        lemma_tys_of(args@);
        assert(tys_of(empty@) =~= Seq::<Ty>::empty());
    }
    let tps = &decl.type_params;
    let n = if tps.len() < args.len() { tps.len() } else { args.len() };
    let ghost dm = decl_of(*decl);
    let ghost targs = type_args_of(ty_of(*t));
    assert(subst_map_of(subst@) =~= Map::<i64, Ty>::empty());
    let mut i: usize = 0;
    while i < n
        invariant
            0 <= i <= n,
            n <= tps@.len(),
            n <= args@.len(),
            dm == decl_of(*decl),
            tps@ == decl.type_params@,
            targs == tys_of(args@),
            tys_of(args@).len() == args@.len(),
            forall|j: int| 0 <= j < args@.len() ==> #[trigger] tys_of(args@)[j] == ty_of(args@[j]),
            subst_map_of(subst@) == subst_zip(dm.type_params, targs, i as int),
        decreases n - i,
    {
        assert(dm.type_params[i as int] == tv_of(tps@[i as int]));
        match tps[i].opt_id {
            Some(id) => {
                let a = args[i].duplicate();
                proof {
                    lemma_subst_map_insert(subst@, id, a);
                }
                subst.insert(id, a);
            },
            None => {},
        }
        i += 1;
    }
    subst
}

/// Build the substitution map from a scrutinee type's arguments and its declaration.
pub fn build_substitution(tp: &SIRType, st: &NameMap<DataDecl>) -> (r: HashMap<i64, SIRType>)
    requires
        st.wf(),
    ensures
        subst_map_of(r@) == build_subst(ty_of(*tp), st_of(*st)),
{
    match decl_name_exec(tp) {
        Some(name) => match lookup_decl(st, name.as_str()) {
            Some(decl) => decl_substitution(decl, tp),
            None => {
                let r: HashMap<i64, SIRType> = HashMap::new();
                assert(subst_map_of(r@) =~= Map::<i64, Ty>::empty());
                r
            },
        },
        None => {
            let r: HashMap<i64, SIRType> = HashMap::new();
            assert(subst_map_of(r@) =~= Map::<i64, Ty>::empty());
            r
        },
    }
}

/// The first field named `name`.
pub(crate) fn first_param_exec<'a>(ps: &'a Vec<TypeBinding>, name: &str) -> (r: Option<&'a TypeBinding>)
    ensures
        r matches Some(b) ==> first_param(params_of(ps@), name@) == Some(ty_of(b.tp)),
        r is None ==> first_param(params_of(ps@), name@) is None,
{
    let ghost m = params_of(ps@);
    let mut found: Option<&TypeBinding> = None;
    let mut i: usize = 0;
    while i < ps.len()
        invariant
            0 <= i <= ps@.len(),
            m == params_of(ps@),
            found matches Some(b) ==> first_param(m.take(i as int), name@) == Some(ty_of(b.tp)),
            found is None ==> first_param(m.take(i as int), name@) is None,
        decreases ps@.len() - i,
    {
        assert(m.take(i + 1).subrange(0, i as int) == m.take(i as int));
        assert(m.take(i + 1)[i as int] == (ps@[i as int].name@, ty_of(ps@[i as int].tp)));
        if found.is_none() && crate::text::str_eq(ps[i].name.as_str(), name) {
            found = Some(&ps[i]);
        }
        i += 1;
    }
    assert(m.take(ps@.len() as int) == m);
    found
}

/// The first field named `name` in any constructor.
pub(crate) fn first_field_exec<'a>(cs: &'a Vec<ConstrDecl>, name: &str) -> (r: Option<&'a TypeBinding>)
    ensures
        r matches Some(b) ==> first_field(constrs_of(cs@), name@) == Some(ty_of(b.tp)),
        r is None ==> first_field(constrs_of(cs@), name@) is None,
{
    let ghost m = constrs_of(cs@);
    let mut found: Option<&TypeBinding> = None;
    let mut i: usize = 0;
    while i < cs.len()
        invariant
            0 <= i <= cs@.len(),
            m == constrs_of(cs@),
            found matches Some(b) ==> first_field(m.take(i as int), name@) == Some(ty_of(b.tp)),
            found is None ==> first_field(m.take(i as int), name@) is None,
        decreases cs@.len() - i,
    {
        assert(m.take(i + 1).subrange(0, i as int) == m.take(i as int));
        assert(m.take(i + 1)[i as int] == constr_of(cs@[i as int]));
        if found.is_none() {
            found = first_param_exec(&cs[i].params, name);
        }
        i += 1;
    }
    assert(m.take(cs@.len() as int) == m);
    found
}

/// Resolve a field's type given the scrutinee type.
pub fn resolve_field_type(scrutinee_tp: &SIRType, field_name: &str, st: &NameMap<DataDecl>) -> (r:
    Option<SIRType>)
    requires
        st.wf(),
    ensures
        r matches Some(t) ==> field_ty(ty_of(*scrutinee_tp), field_name@, st_of(*st)) == Some(ty_of(t)),
        r is None ==> field_ty(ty_of(*scrutinee_tp), field_name@, st_of(*st)) is None,
{
    let name = match decl_name_exec(scrutinee_tp) {
        Some(n) => n,
        None => return None,
    };
    let decl = match lookup_decl(st, name.as_str()) {
        Some(d) => d,
        None => return None,
    };
    match first_field_exec(&decl.constructors, field_name) {
        Some(b) => {
            let subst = decl_substitution(decl, scrutinee_tp);
            Some(b.tp.substitute(&subst))
        },
        None => None,
    }
}

} // verus!

verus! {

/// The first constructor satisfying `p`, among constructors of which `q`
/// tells which satisfy it.
fn first_constr_by_name<'a>(cs: &'a Vec<ConstrDecl>, name: &str, suffix: bool) -> (r: Option<&'a ConstrDecl>)
    ensures
        r matches Some(c) ==> first_constr(constrs_of(cs@), name_test(name@, suffix)) == Some(constr_of(*c)),
        r is None ==> first_constr(constrs_of(cs@), name_test(name@, suffix)) is None,
{
    let ghost p = name_test(name@, suffix);
    let ghost m = constrs_of(cs@);
    let mut found: Option<&ConstrDecl> = None;
    let mut i: usize = 0;
    while i < cs.len()
        invariant
            0 <= i <= cs@.len(),
            m == constrs_of(cs@),
            p == name_test(name@, suffix),
            found matches Some(c) ==> first_constr(m.take(i as int), p) == Some(constr_of(*c)),
            found is None ==> first_constr(m.take(i as int), p) is None,
        decreases cs@.len() - i,
    {
        assert(m.take(i + 1).subrange(0, i as int) == m.take(i as int));
        assert(m.take(i + 1)[i as int] == constr_of(cs@[i as int]));
        if found.is_none() {
            let hit = if suffix {
                crate::text::ends_with(cs[i].name.as_str(), name)
            } else {
                crate::text::str_eq(cs[i].name.as_str(), name)
            };
            if hit {
                found = Some(&cs[i]);
            }
        }
        i += 1;
    }
    assert(m.take(cs@.len() as int) == m);
    found
}

/// The constructor that a pattern names.
pub(crate) fn find_constr_exec<'a>(cs: &'a Vec<ConstrDecl>, name: &str) -> (r: Option<&'a ConstrDecl>)
    ensures
        r matches Some(c) ==> find_constr(constrs_of(cs@), name@) == Some(constr_of(*c)),
        r is None ==> find_constr(constrs_of(cs@), name@) is None,
{
    match first_constr_by_name(cs, name, false) {
        Some(c) => Some(c),
        None => {
            proof {
                reveal_strlit("$.");
                reveal_strlit("::");
            }
            let mut suffix = crate::text::owned("$.");
            let seg = crate::text::last_segment(name, "::");
            push_str(&mut suffix, seg.as_str());
            assert("$."@ =~= seq!['$', '.']);
            assert("::"@ =~= seq![':', ':']);
            assert(suffix@ == seq!['$', '.'] + after_last(name@, seq![':', ':']));
            first_constr_by_name(cs, suffix.as_str(), true)
        },
    }
}

/// Binds the variables of a constructor pattern in `env`.
pub(crate) fn bind_fields_exec(
    bindings: &Vec<String>,
    params: &Vec<TypeBinding>,
    subst: &HashMap<i64, SIRType>,
    env: &mut TypeEnv,
)
    requires
        old(env).wf(),
    ensures
        final(env).wf(),
        final(env).marks() == old(env).marks(),
        final(env).binds() == bind_fields(
            old(env).binds(),
            bindings@.map_values(|b: String| b@),
            params_of(params@),
            subst_map_of(subst@),
        ),
{
    let ghost bs = bindings@.map_values(|b: String| b@);
    let ghost ps = params_of(params@);
    let ghost m = subst_map_of(subst@);
    let ghost env0 = env.binds();
    let mut i: usize = 0;
    while i < bindings.len()
        invariant
            0 <= i <= bindings@.len(),
            env.wf(),
            env.marks() == old(env).marks(),
            env0 == old(env).binds(),
            bs == bindings@.map_values(|b: String| b@),
            ps == params_of(params@),
            m == subst_map_of(subst@),
            env.binds() == bind_fields(env0, bs.take(i as int), ps, m),
        decreases bindings@.len() - i,
    {
        assert(bs.take(i + 1).subrange(0, i as int) == bs.take(i as int));
        assert(bs.take(i + 1)[i as int] == bindings@[i as int]@);
        assert(ps.len() == params@.len());
        let ghost env1 = env.binds();
        let b = &bindings[i];
        proof {
            reveal_strlit("_");
            assert("_"@ =~= seq!['_']);
        }
        if !crate::text::str_eq(b.as_str(), "_") {
            let param = match first_param_exec(params, b.as_str()) {
                Some(p) => Some(p),
                None => if i < params.len() {
                    Some(&params[i])
                } else {
                    None
                },
            };
            match param {
                Some(p) => {
                    assert(param_for(ps, b@, i as int) == Some(ty_of(p.tp)));
                    let t = p.tp.substitute(subst);
                    env.insert(dup_string(b), t);
                },
                None => {
                    assert(param_for(ps, b@, i as int) is None);
                },
            }
        } else {
            assert(b@ == seq!['_']);
        }
        i += 1;
    }
    assert(bs.take(bindings@.len() as int) == bs);
}

} // verus!

verus! {

/// The type is `Unresolved`.
pub(crate) fn is_unresolved(t: &SIRType) -> (r: bool)
    ensures
        r == (ty_of(*t) == Ty::Unresolved),
{
    match t {
        SIRType::Unresolved => true,
        _ => false,
    }
}

/// The type is neither `Unresolved` nor `TypeNothing`.
pub(crate) fn is_informative(t: &SIRType) -> (r: bool)
    ensures
        r == informative(ty_of(*t)),
{
    match t {
        SIRType::Unresolved => false,
        SIRType::TypeNothing => false,
        _ => true,
    }
}

pub proof fn lemma_seq_assoc<A>(a: Seq<A>, b: Seq<A>, c: Seq<A>)
    ensures
        a + b + c == a + (b + c),
{
    assert(a + b + c =~= a + (b + c));
}

/// Type one match case: bind the pattern's variables, type the body.
fn type_case(
    case: Case,
    scrutinee_tp: &SIRType,
    subst: &HashMap<i64, SIRType>,
    env: &mut TypeEnv,
    st: &NameMap<DataDecl>,
    errors: &mut Vec<TypingError>,
) -> (r: Case)
    requires
        old(env).wf(),
        st.wf(),
    ensures
        final(env).wf(),
        final(env).binds() == old(env).binds(),
        final(env).marks() == old(env).marks(),
        ({
            let res = typed_case(
                (pat_of(case.pattern), sir_of(case.body), ann_of(case.anns)),
                ty_of(*scrutinee_tp),
                subst_map_of(subst@),
                old(env).binds(),
                st_of(*st),
            );
            &&& (pat_of(r.pattern), sir_of(r.body), ann_of(r.anns)) == res.0
            &&& errs_of(final(errors)@) == errs_of(old(errors)@) + res.1
        }),
    decreases case.body, 3nat,
{
    let ghost env0 = env.binds();
    let ghost stm = st_of(*st);
    let ghost m = subst_map_of(subst@);
    let ghost stp = ty_of(*scrutinee_tp);
    let ghost ce = case_env(pat_of(case.pattern), ann_of(case.anns), stp, m, env0, stm);
    env.push_scope();
    let CaseOf { pattern, body, anns } = case;
    match &pattern {
        Pattern::Constr { constr_name, decl_name, bindings, .. } => {
            let resolved = match lookup_decl(st, decl_name.as_str()) {
                Some(d) => Some(d),
                None => match decl_name_exec(scrutinee_tp) {
                    Some(n) => lookup_decl(st, n.as_str()),
                    None => None,
                },
            };
            match resolved {
                Some(decl) => {
                    assert(pattern_decl(stm, decl_name@, stp) == Some(decl_of(*decl)));
                    match find_constr_exec(&decl.constructors, constr_name.as_str()) {
                        Some(c) => {
                            bind_fields_exec(bindings, &c.params, subst, env);
                        },
                        None => {
                            let e = make_error(
                                TypingErrorKind::UnknownConstructor {
                                    constr_name: dup_string(constr_name),
                                    decl_name: dup_string(decl_name),
                                },
                                &anns,
                            );
                            proof {
                                lemma_errs_push(errors@, e);
                            }
                            errors.push(e);
                        },
                    }
                },
                None => {
                    assert(pattern_decl(stm, decl_name@, stp) is None);
                    if !decl_name.as_str().is_empty() {
                        let e = make_error(
                            TypingErrorKind::UnknownDataDecl { name: dup_string(decl_name) },
                            &anns,
                        );
                        proof {
                            lemma_errs_push(errors@, e);
                        }
                        errors.push(e);
                    }
                },
            }
        },
        Pattern::Wildcard => {},
    }
    assert(env.binds() == ce.0);
    assert(errs_of(errors@) == errs_of(old(errors)@) + ce.1);
    let ghost errs1 = errors@;
    let body2 = type_node(body, env, st, errors);
    proof {
        lemma_seq_assoc(errs_of(old(errors)@), ce.1, typed(sir_of(body), ce.0, stm).1);
        lemma_case_env_extends(pat_of(case.pattern), ann_of(case.anns), stp, m, env0, stm);
    }
    env.pop_scope();
    assert(env.binds() =~= env0);
    CaseOf { pattern, body: body2, anns }
}

/// Type let bindings in order; each binding is added to `env` once typed.
fn type_binds(
    bindings: Vec<Binding>,
    Ghost(parent): Ghost<SIR>,
    env: &mut TypeEnv,
    st: &NameMap<DataDecl>,
    errors: &mut Vec<TypingError>,
) -> (r: Vec<Binding>)
    requires
        old(env).wf(),
        st.wf(),
        forall|j: int| 0 <= j < bindings@.len() ==> decreases_to!(parent => #[trigger] bindings@[j].value),
    ensures
        final(env).wf(),
        final(env).marks() == old(env).marks(),
        ({
            let res = typed_binds(binds_of(bindings@), old(env).binds(), st_of(*st));
            &&& binds_of(r@) == res.0
            &&& final(env).binds() == res.1
            &&& errs_of(final(errors)@) == errs_of(old(errors)@) + res.2
        }),
    decreases parent, 0nat,
{
    let ghost env0 = env.binds();
    let ghost stm = st_of(*st);
    let ghost e0 = errs_of(errors@);
    let ghost bs0 = bindings@;
    let mut out: Vec<Binding> = Vec::new();
    for b in it: bindings.into_iter()
        invariant
            env.wf(),
            env.marks() == old(env).marks(),
            st.wf(),
            stm == st_of(*st),
            it.seq() == bs0,
            forall|j: int| 0 <= j < bs0.len() ==> decreases_to!(parent => #[trigger] bs0[j].value),
            ({
                let res = typed_binds(binds_of(bs0.take(it.index() as int)), env0, stm);
                &&& binds_of(out@) == res.0
                &&& env.binds() == res.1
                &&& errs_of(errors@) == e0 + res.2
            }),
    {
        let ghost i = it.index() as int;
        let ghost pre = typed_binds(binds_of(bs0.take(i)), env0, stm);
        assert(b == bs0[i]);
        let BindingOf { name, tp, value } = b;
        let v2 = type_node(value, env, st, errors);
        let tp2 = if is_unresolved(&tp) {
            sir_type(&v2)
        } else {
            tp
        };
        env.insert(dup_string(&name), tp2.duplicate());
        let nb = BindingOf { name, tp: tp2, value: v2 };
        proof {
            lemma_binds_push(out@, nb);
            lemma_binds_push(bs0.take(i), bs0[i]);
            assert(bs0.take(i + 1) == bs0.take(i).push(bs0[i]));
            let s = binds_of(bs0.take(i + 1));
            assert(s.subrange(0, s.len() - 1) == binds_of(bs0.take(i)));
            lemma_seq_assoc(e0, pre.2, typed(sir_of(bs0[i].value), pre.1, stm).1);
        }
        out.push(nb);
    }
    assert(bs0.take(bs0.len() as int) == bs0);
    out
}

/// Type each of a sequence of terms in the same environment.
fn type_all(
    args: Vec<SIR>,
    Ghost(parent): Ghost<SIR>,
    env: &mut TypeEnv,
    st: &NameMap<DataDecl>,
    errors: &mut Vec<TypingError>,
) -> (r: Vec<SIR>)
    requires
        old(env).wf(),
        st.wf(),
        forall|j: int| 0 <= j < args@.len() ==> decreases_to!(parent => #[trigger] args@[j]),
    ensures
        final(env).wf(),
        final(env).marks() == old(env).marks(),
        final(env).binds() == old(env).binds(),
        ({
            let res = typed_all(sirs_of(args@), old(env).binds(), st_of(*st));
            &&& sirs_of(r@) == res.0
            &&& errs_of(final(errors)@) == errs_of(old(errors)@) + res.1
        }),
    decreases parent, 0nat,
{
    let ghost env0 = env.binds();
    let ghost stm = st_of(*st);
    let ghost e0 = errs_of(errors@);
    let ghost as0 = args@;
    let mut out: Vec<SIR> = Vec::new();
    for a in it: args.into_iter()
        invariant
            env.wf(),
            env.marks() == old(env).marks(),
            env.binds() == env0,
            st.wf(),
            stm == st_of(*st),
            it.seq() == as0,
            forall|j: int| 0 <= j < as0.len() ==> decreases_to!(parent => #[trigger] as0[j]),
            ({
                let res = typed_all(sirs_of(as0.take(it.index() as int)), env0, stm);
                &&& sirs_of(out@) == res.0
                &&& errs_of(errors@) == e0 + res.1
            }),
    {
        let ghost i = it.index() as int;
        let ghost pre = typed_all(sirs_of(as0.take(i)), env0, stm);
        assert(a == as0[i]);
        let a2 = type_node(a, env, st, errors);
        proof {
            lemma_sirs_push(out@, a2);
            lemma_sirs_push(as0.take(i), as0[i]);
            assert(as0.take(i + 1) == as0.take(i).push(as0[i]));
            let s = sirs_of(as0.take(i + 1));
            assert(s.subrange(0, s.len() - 1) == sirs_of(as0.take(i)));
            lemma_seq_assoc(e0, pre.1, typed(sir_of(as0[i]), env0, stm).1);
        }
        out.push(a2);
    }
    assert(as0.take(as0.len() as int) == as0);
    out
}

/// Type the cases of a match against the scrutinee's type and substitution.
fn type_cases(
    cases: Vec<Case>,
    scrutinee_tp: &SIRType,
    subst: &HashMap<i64, SIRType>,
    Ghost(parent): Ghost<SIR>,
    env: &mut TypeEnv,
    st: &NameMap<DataDecl>,
    errors: &mut Vec<TypingError>,
) -> (r: Vec<Case>)
    requires
        old(env).wf(),
        st.wf(),
        forall|j: int| 0 <= j < cases@.len() ==> decreases_to!(parent => #[trigger] cases@[j].body),
    ensures
        final(env).wf(),
        final(env).marks() == old(env).marks(),
        final(env).binds() == old(env).binds(),
        ({
            let res = typed_cases(
                cases_of(cases@),
                ty_of(*scrutinee_tp),
                subst_map_of(subst@),
                old(env).binds(),
                st_of(*st),
            );
            &&& cases_of(r@) == res.0
            &&& errs_of(final(errors)@) == errs_of(old(errors)@) + res.1
        }),
    decreases parent, 0nat,
{
    let ghost env0 = env.binds();
    let ghost stm = st_of(*st);
    let ghost e0 = errs_of(errors@);
    let ghost cs0 = cases@;
    let ghost stp = ty_of(*scrutinee_tp);
    let ghost m = subst_map_of(subst@);
    let mut out: Vec<Case> = Vec::new();
    for c in it: cases.into_iter()
        invariant
            env.wf(),
            env.marks() == old(env).marks(),
            env.binds() == env0,
            st.wf(),
            stm == st_of(*st),
            stp == ty_of(*scrutinee_tp),
            m == subst_map_of(subst@),
            it.seq() == cs0,
            forall|j: int| 0 <= j < cs0.len() ==> decreases_to!(parent => #[trigger] cs0[j].body),
            ({
                let res = typed_cases(cases_of(cs0.take(it.index() as int)), stp, m, env0, stm);
                &&& cases_of(out@) == res.0
                &&& errs_of(errors@) == e0 + res.1
            }),
    {
        let ghost i = it.index() as int;
        let ghost pre = typed_cases(cases_of(cs0.take(i)), stp, m, env0, stm);
        assert(c == cs0[i]);
        let c2 = type_case(c, scrutinee_tp, subst, env, st, errors);
        proof {
            let cm = (pat_of(cs0[i].pattern), sir_of(cs0[i].body), ann_of(cs0[i].anns));
            lemma_cases_push(out@, c2);
            lemma_cases_push(cs0.take(i), cs0[i]);
            assert(cs0.take(i + 1) == cs0.take(i).push(cs0[i]));
            let s = cases_of(cs0.take(i + 1));
            assert(s.subrange(0, s.len() - 1) == cases_of(cs0.take(i)));
            lemma_seq_assoc(e0, pre.1, typed_case(cm, stp, m, env0, stm).1);
        }
        out.push(c2);
    }
    assert(cs0.take(cs0.len() as int) == cs0);
    out
}

/// The type of the first case whose body has a type other than `Unresolved`
/// or `TypeNothing`.
fn first_case_type(cases: &Vec<Case>) -> (r: Option<SIRType>)
    ensures
        r matches Some(t) ==> first_case_ty(cases_of(cases@)) == Some(ty_of(t)),
        r is None ==> first_case_ty(cases_of(cases@)) is None,
{
    let mut i: usize = 0;
    let mut found: Option<SIRType> = None;
    while i < cases.len()
        invariant
            0 <= i <= cases@.len(),
            found matches Some(t) ==> first_case_ty(cases_of(cases@.take(i as int))) == Some(ty_of(t)),
            found is None ==> first_case_ty(cases_of(cases@.take(i as int))) is None,
        decreases cases@.len() - i,
    {
        proof {
            lemma_cases_push(cases@.take(i as int), cases@[i as int]);
            assert(cases@.take(i + 1) == cases@.take(i as int).push(cases@[i as int]));
            let s = cases_of(cases@.take(i + 1));
            assert(s.subrange(0, s.len() - 1) == cases_of(cases@.take(i as int)));
        }
        if found.is_none() {
            let t = sir_type(&cases[i].body);
            if is_informative(&t) {
                found = Some(t);
            }
        }
        i += 1;
    }
    assert(cases@.take(cases@.len() as int) == cases@);
    found
}

/// The text `select .` followed by a field name.
fn select_context(field: &String) -> (r: String)
    ensures
        r@ == seq!['s', 'e', 'l', 'e', 'c', 't', ' ', '.'] + field@,
{
    proof {
        reveal_strlit("select .");
    }
    let mut r = crate::text::owned("select .");
    push_str(&mut r, field.as_str());
    r
}

/// Type a lambda: the parameter first, then the body with the parameter bound.
fn type_lam(
    param: Box<SIR>,
    term: Box<SIR>,
    type_params: Vec<crate::sir_type::TypeVar>,
    anns: AnnotationsDecl,
    Ghost(parent): Ghost<SIR>,
    env: &mut TypeEnv,
    st: &NameMap<DataDecl>,
    errors: &mut Vec<TypingError>,
) -> (r: SIR)
    requires
        parent == (SIR::LamAbs { param, term, type_params, anns }),
        old(env).wf(),
        st.wf(),
    ensures
        final(env).wf(),
        final(env).binds() == old(env).binds(),
        final(env).marks() == old(env).marks(),
        sir_of(r) == typed(sir_of(parent), old(env).binds(), st_of(*st)).0,
        errs_of(final(errors)@) == errs_of(old(errors)@) + typed(sir_of(parent), old(env).binds(), st_of(*st)).1,
    decreases parent, 1nat,
{
    let ghost env0 = env.binds();
    let ghost stm = st_of(*st);
    let ghost e0 = errs_of(errors@);
    let p2 = type_node(*param, env, st, errors);
    let t2 = match &p2 {
        SIR::Var { name, tp, .. } => {
            env.push_scope();
            env.insert(dup_string(name), tp.duplicate());
            let t2 = type_node(*term, env, st, errors);
            env.pop_scope();
            assert(env.binds() =~= env0);
            t2
        },
        _ => type_node(*term, env, st, errors),
    };
    proof {
        let (pm, e1) = typed(sir_of(*param), env0, stm);
        let env2 = match pm {
            SirM::Var(n, tp, _) => env0.push((n, tp)),
            _ => env0,
        };
        lemma_seq_assoc(e0, e1, typed(sir_of(*term), env2, stm).1);
    }
    SIR::LamAbs { param: Box::new(p2), term: Box::new(t2), type_params, anns }
}

/// Type an application; an unresolved result type is the result type of the
/// function's type.
fn type_apply(
    f: Box<SIR>,
    arg: Box<SIR>,
    tp: SIRType,
    anns: AnnotationsDecl,
    Ghost(parent): Ghost<SIR>,
    env: &mut TypeEnv,
    st: &NameMap<DataDecl>,
    errors: &mut Vec<TypingError>,
) -> (r: SIR)
    requires
        parent == (SIR::Apply { f, arg, tp, anns }),
        old(env).wf(),
        st.wf(),
    ensures
        final(env).wf(),
        final(env).binds() == old(env).binds(),
        final(env).marks() == old(env).marks(),
        sir_of(r) == typed(sir_of(parent), old(env).binds(), st_of(*st)).0,
        errs_of(final(errors)@) == errs_of(old(errors)@) + typed(sir_of(parent), old(env).binds(), st_of(*st)).1,
    decreases parent, 1nat,
{
    let ghost env0 = env.binds();
    let ghost stm = st_of(*st);
    let ghost e0 = errs_of(errors@);
    let f2 = type_node(*f, env, st, errors);
    let a2 = type_node(*arg, env, st, errors);
    let ghost e1 = typed(sir_of(*f), env0, stm).1;
    let ghost e2 = typed(sir_of(*arg), env0, stm).1;
    proof {
        lemma_seq_assoc(e0, e1, e2);
    }
    if is_unresolved(&tp) {
        let f_tp = sir_type(&f2);
        match f_tp {
            SIRType::Fun { to, .. } => SIR::Apply { f: Box::new(f2), arg: Box::new(a2), tp: *to, anns },
            SIRType::Unresolved => SIR::Apply { f: Box::new(f2), arg: Box::new(a2), tp, anns },
            other => {
                let e = make_error(TypingErrorKind::NotAFunctionType { tp: other }, &anns);
                proof {
                    lemma_errs_push(errors@, e);
                    assert(e0 + e1 + e2 + seq![(kind_of(e.kind), e.location@)] == e0 + (e1 + e2
                        + seq![(kind_of(e.kind), e.location@)]));
                }
                errors.push(e);
                SIR::Apply { f: Box::new(f2), arg: Box::new(a2), tp, anns }
            },
        }
    } else {
        SIR::Apply { f: Box::new(f2), arg: Box::new(a2), tp, anns }
    }
}

/// Type a let: the bindings in a scope of their own, then the body in it.
fn type_let(
    bindings: Vec<Binding>,
    body: Box<SIR>,
    flags: crate::sir::LetFlags,
    anns: AnnotationsDecl,
    Ghost(parent): Ghost<SIR>,
    env: &mut TypeEnv,
    st: &NameMap<DataDecl>,
    errors: &mut Vec<TypingError>,
) -> (r: SIR)
    requires
        parent == (SIR::Let { bindings, body, flags, anns }),
        old(env).wf(),
        st.wf(),
    ensures
        final(env).wf(),
        final(env).binds() == old(env).binds(),
        final(env).marks() == old(env).marks(),
        sir_of(r) == typed(sir_of(parent), old(env).binds(), st_of(*st)).0,
        errs_of(final(errors)@) == errs_of(old(errors)@) + typed(sir_of(parent), old(env).binds(), st_of(*st)).1,
    decreases parent, 1nat,
{
    let ghost env0 = env.binds();
    let ghost stm = st_of(*st);
    let ghost e0 = errs_of(errors@);
    env.push_scope();
    let ghost r1 = typed_binds(binds_of(bindings@), env0, stm);
    let bs2 = type_binds(bindings, Ghost(parent), env, st, errors);
    proof {
        lemma_typed_binds_extends(binds_of(bindings@), env0, stm);
    }
    let b2 = type_node(*body, env, st, errors);
    proof {
        lemma_seq_assoc(e0, r1.2, typed(sir_of(*body), r1.1, stm).1);
    }
    env.pop_scope();
    assert(env.binds() =~= env0);
    SIR::Let { bindings: bs2, body: Box::new(b2), flags, anns }
}

/// Type a match: the scrutinee, then each case against the scrutinee's type;
/// an unresolved result type is the first informative type of a case body.
fn type_match(
    scrutinee: Box<SIR>,
    cases: Vec<Case>,
    tp: SIRType,
    anns: AnnotationsDecl,
    Ghost(parent): Ghost<SIR>,
    env: &mut TypeEnv,
    st: &NameMap<DataDecl>,
    errors: &mut Vec<TypingError>,
) -> (r: SIR)
    requires
        parent == (SIR::Match { scrutinee, cases, tp, anns }),
        old(env).wf(),
        st.wf(),
    ensures
        final(env).wf(),
        final(env).binds() == old(env).binds(),
        final(env).marks() == old(env).marks(),
        sir_of(r) == typed(sir_of(parent), old(env).binds(), st_of(*st)).0,
        errs_of(final(errors)@) == errs_of(old(errors)@) + typed(sir_of(parent), old(env).binds(), st_of(*st)).1,
    decreases parent, 1nat,
{
    let ghost env0 = env.binds();
    let ghost stm = st_of(*st);
    let ghost e0 = errs_of(errors@);
    let ghost cs0 = cases@;
    let s2 = type_node(*scrutinee, env, st, errors);
    let stp = sir_type(&s2);
    let subst = build_substitution(&stp, st);
    let cs2 = type_cases(cases, &stp, &subst, Ghost(parent), env, st, errors);
    proof {
        let (sm, e1) = typed(sir_of(*scrutinee), env0, stm);
        lemma_seq_assoc(
            e0,
            e1,
            typed_cases(cases_of(cs0), sir_ty(sm), build_subst(sir_ty(sm), stm), env0, stm).1,
        );
    }
    let tp2 = if is_unresolved(&tp) {
        match first_case_type(&cs2) {
            Some(t) => t,
            None => tp,
        }
    } else {
        tp
    };
    SIR::Match { scrutinee: Box::new(s2), cases: cs2, tp: tp2, anns }
}

/// Type a conditional; an unresolved result type is the first informative type
/// of its branches.
fn type_if(
    cond: Box<SIR>,
    t: Box<SIR>,
    f: Box<SIR>,
    tp: SIRType,
    anns: AnnotationsDecl,
    Ghost(parent): Ghost<SIR>,
    env: &mut TypeEnv,
    st: &NameMap<DataDecl>,
    errors: &mut Vec<TypingError>,
) -> (r: SIR)
    requires
        parent == (SIR::IfThenElse { cond, t, f, tp, anns }),
        old(env).wf(),
        st.wf(),
    ensures
        final(env).wf(),
        final(env).binds() == old(env).binds(),
        final(env).marks() == old(env).marks(),
        sir_of(r) == typed(sir_of(parent), old(env).binds(), st_of(*st)).0,
        errs_of(final(errors)@) == errs_of(old(errors)@) + typed(sir_of(parent), old(env).binds(), st_of(*st)).1,
    decreases parent, 1nat,
{
    let ghost env0 = env.binds();
    let ghost stm = st_of(*st);
    let ghost e0 = errs_of(errors@);
    let c2 = type_node(*cond, env, st, errors);
    let t2 = type_node(*t, env, st, errors);
    let f2 = type_node(*f, env, st, errors);
    proof {
        let e1 = typed(sir_of(*cond), env0, stm).1;
        let e2 = typed(sir_of(*t), env0, stm).1;
        let e3 = typed(sir_of(*f), env0, stm).1;
        assert(e0 + e1 + e2 + e3 == e0 + (e1 + e2 + e3));
    }
    let tp2 = if is_unresolved(&tp) {
        let t_tp = sir_type(&t2);
        if is_informative(&t_tp) {
            t_tp
        } else {
            let f_tp = sir_type(&f2);
            if is_informative(&f_tp) {
                f_tp
            } else {
                tp
            }
        }
    } else {
        tp
    };
    SIR::IfThenElse { cond: Box::new(c2), t: Box::new(t2), f: Box::new(f2), tp: tp2, anns }
}

/// Type a field selection; an unresolved type is the field's type in the
/// scrutinee's declaration.
fn type_select(
    scrutinee: Box<SIR>,
    field: String,
    tp: SIRType,
    anns: AnnotationsDecl,
    Ghost(parent): Ghost<SIR>,
    env: &mut TypeEnv,
    st: &NameMap<DataDecl>,
    errors: &mut Vec<TypingError>,
) -> (r: SIR)
    requires
        parent == (SIR::Select { scrutinee, field, tp, anns }),
        old(env).wf(),
        st.wf(),
    ensures
        final(env).wf(),
        final(env).binds() == old(env).binds(),
        final(env).marks() == old(env).marks(),
        sir_of(r) == typed(sir_of(parent), old(env).binds(), st_of(*st)).0,
        errs_of(final(errors)@) == errs_of(old(errors)@) + typed(sir_of(parent), old(env).binds(), st_of(*st)).1,
    decreases parent, 1nat,
{
    let s2 = type_node(*scrutinee, env, st, errors);
    if is_unresolved(&tp) {
        let scr_tp = sir_type(&s2);
        match resolve_field_type(&scr_tp, field.as_str(), st) {
            Some(ft) => SIR::Select { scrutinee: Box::new(s2), field, tp: ft, anns },
            None => {
                let ctx = select_context(&field);
                let e = make_error(TypingErrorKind::NotADataType { tp: scr_tp, context: ctx }, &anns);
                proof {
                    lemma_errs_push(errors@, e);
                }
                errors.push(e);
                SIR::Select { scrutinee: Box::new(s2), field, tp, anns }
            },
        }
    } else {
        SIR::Select { scrutinee: Box::new(s2), field, tp, anns }
    }
}

/// Type a single SIR node: fill in unresolved types from the environment, the
/// symbol table and the types of sub-terms, and record what cannot be resolved.
pub fn type_node(
    sir: SIR,
    env: &mut TypeEnv,
    st: &NameMap<DataDecl>,
    errors: &mut Vec<TypingError>,
) -> (r: SIR)
    requires
        old(env).wf(),
        st.wf(),
    ensures
        final(env).wf(),
        final(env).binds() == old(env).binds(),
        final(env).marks() == old(env).marks(),
        sir_of(r) == typed(sir_of(sir), old(env).binds(), st_of(*st)).0,
        errs_of(final(errors)@) == errs_of(old(errors)@) + typed(sir_of(sir), old(env).binds(), st_of(*st)).1,
    decreases sir, 2nat,
{
    let ghost s0 = sir;
    let ghost e0 = errs_of(errors@);
    match sir {
        SIR::Var { name, tp, anns } => {
            if is_unresolved(&tp) {
                match env.lookup(name.as_str()) {
                    Some(t) => {
                        let t2 = t.duplicate();
                        assert(e0 + Seq::<ErrM>::empty() == e0);
                        SIR::Var { name, tp: t2, anns }
                    },
                    None => {
                        let e = make_error(TypingErrorKind::UnknownVariable { name: dup_string(&name) }, &anns);
                        proof {
                            lemma_errs_push(errors@, e);
                        }
                        errors.push(e);
                        SIR::Var { name, tp, anns }
                    },
                }
            } else {
                assert(e0 + Seq::<ErrM>::empty() == e0);
                SIR::Var { name, tp, anns }
            }
        },
        SIR::ExternalVar { module_name, name, tp, anns } => {
            assert(e0 + Seq::<ErrM>::empty() == e0);
            SIR::ExternalVar { module_name, name, tp, anns }
        },
        SIR::Const { uplc_const, tp, anns } => {
            assert(e0 + Seq::<ErrM>::empty() == e0);
            SIR::Const { uplc_const, tp, anns }
        },
        SIR::Builtin { builtin_fun, tp, anns } => {
            assert(e0 + Seq::<ErrM>::empty() == e0);
            SIR::Builtin { builtin_fun, tp, anns }
        },
        SIR::LamAbs { param, term, type_params, anns } => type_lam(
            param,
            term,
            type_params,
            anns,
            Ghost(s0),
            env,
            st,
            errors,
        ),
        SIR::Apply { f, arg, tp, anns } => type_apply(f, arg, tp, anns, Ghost(s0), env, st, errors),
        SIR::Let { bindings, body, flags, anns } => type_let(
            bindings,
            body,
            flags,
            anns,
            Ghost(s0),
            env,
            st,
            errors,
        ),
        SIR::Constr { name, data, args, tp, anns } => {
            let args2 = type_all(args, Ghost(s0), env, st, errors);
            SIR::Constr { name, data, args: args2, tp, anns }
        },
        SIR::Match { scrutinee, cases, tp, anns } => type_match(
            scrutinee,
            cases,
            tp,
            anns,
            Ghost(s0),
            env,
            st,
            errors,
        ),
        SIR::IfThenElse { cond, t, f, tp, anns } => type_if(
            cond,
            t,
            f,
            tp,
            anns,
            Ghost(s0),
            env,
            st,
            errors,
        ),
        SIR::Error { msg, anns } => {
            let m2 = type_node(*msg, env, st, errors);
            SIR::Error { msg: Box::new(m2), anns }
        },
        SIR::Decl { data, term } => {
            let t2 = type_node(*term, env, st, errors);
            SIR::Decl { data, term: Box::new(t2) }
        },
        SIR::Select { scrutinee, field, tp, anns } => type_select(
            scrutinee,
            field,
            tp,
            anns,
            Ghost(s0),
            env,
            st,
            errors,
        ),
    }
}

/// The environment that let bindings produce extends the one they start from.
pub proof fn lemma_typed_binds_extends(
    bs: Seq<BindM>,
    env: Seq<(Seq<char>, Ty)>,
    st: Seq<(Seq<char>, DeclM)>,
)
    ensures
        typed_binds(bs, env, st).1.len() >= env.len(),
        typed_binds(bs, env, st).1.take(env.len() as int) == env,
    decreases bs.len(),
{
    if bs.len() > 0 {
        lemma_typed_binds_extends(bs.subrange(0, bs.len() - 1), env, st);
        let e1 = typed_binds(bs.subrange(0, bs.len() - 1), env, st).1;
        let b = bs[bs.len() - 1];
        let x = typed_binds(bs, env, st).1;
        assert(x.take(env.len() as int) =~= e1.take(env.len() as int));
    }
}

} // verus!

verus! {

/// Binding the variables of a pattern extends the environment.
pub proof fn lemma_bind_fields_extends(
    env: Seq<(Seq<char>, Ty)>,
    bs: Seq<Seq<char>>,
    ps: Seq<(Seq<char>, Ty)>,
    m: Map<i64, Ty>,
)
    ensures
        bind_fields(env, bs, ps, m).len() >= env.len(),
        bind_fields(env, bs, ps, m).take(env.len() as int) == env,
    decreases bs.len(),
{
    if bs.len() > 0 {
        lemma_bind_fields_extends(env, bs.subrange(0, bs.len() - 1), ps, m);
        let e1 = bind_fields(env, bs.subrange(0, bs.len() - 1), ps, m);
        let x = bind_fields(env, bs, ps, m);
        assert(x.take(env.len() as int) =~= e1.take(env.len() as int));
    }
}

/// The environment of a case body extends the environment of the match.
pub proof fn lemma_case_env_extends(
    pat: PatM,
    a: AnnM,
    stp: Ty,
    m: Map<i64, Ty>,
    env: Seq<(Seq<char>, Ty)>,
    st: Seq<(Seq<char>, DeclM)>,
)
    ensures
        case_env(pat, a, stp, m, env, st).0.len() >= env.len(),
        case_env(pat, a, stp, m, env, st).0.take(env.len() as int) == env,
{
    assert(env.take(env.len() as int) =~= env);
    match pat {
        PatM::Constr(cn, dn, bs, _) => match pattern_decl(st, dn, stp) {
            Some(decl) => match find_constr(decl.constructors, cn) {
                Some(c) => lemma_bind_fields_extends(env, bs, c.params, m),
                None => {},
            },
            None => {},
        },
        PatM::Wildcard => {},
    }
}

} // verus!

verus! {

// ---------------------------------------------------------------------------
// Completeness: no unresolved type is left
// ---------------------------------------------------------------------------

/// The module whose data conversions the linker types.
pub open spec fn conversion_module() -> Seq<char> {
    "scalus.uplc.builtin.internal.UniversalDataConversion$"@
}

/// An application of a data conversion, which the linker types.
pub open spec fn is_data_conversion(f: SirM) -> bool {
    f matches SirM::ExternalVar(m, _, _, _) && m == conversion_module()
}

/// The context named in the error for an application with an unresolved type.
pub open spec fn apply_context(f: SirM) -> Seq<char> {
    match f {
        SirM::Var(n, _, _) => "call to '"@ + n + "'"@,
        SirM::ExternalVar(_, n, _, _) => "call to '"@ + n + "'"@,
        SirM::Builtin(bf, _, _) => "builtin '"@ + crate::default_fun::fun_name(bf) + "'"@,
        _ => "function application"@,
    }
}

/// One error for an unresolved type, or none.
pub open spec fn unresolved_at(tp: Ty, context: Seq<char>, a: AnnM) -> Seq<ErrM> {
    if crate::sir_type::unresolved(tp) {
        seq![(KindM::UnresolvedType(context), loc_text(a))]
    } else {
        Seq::empty()
    }
}

/// The errors for the unresolved types left in a term, in the order of a
/// walk that reports a node before its sub-terms.
pub open spec fn check(s: SirM) -> Seq<ErrM>
    decreases s,
{
    match s {
        SirM::Var(n, tp, a) => unresolved_at(tp, "variable '"@ + n + "'"@, a),
        SirM::ExternalVar(m, n, tp, a) => if m != conversion_module() {
            unresolved_at(tp, "external variable '"@ + n + "'"@, a)
        } else {
            Seq::empty()
        },
        SirM::Const(_, tp, a) => unresolved_at(tp, "constant"@, a),
        SirM::LamAbs(p, t, _, _) => check(*p) + check(*t),
        SirM::Apply(f, x, tp, a) => {
            let own = if is_data_conversion(*f) {
                Seq::empty()
            } else {
                unresolved_at(tp, apply_context(*f), a)
            };
            own + check(*f) + check(*x)
        },
        SirM::Let(bs, body, _, _) => check_binds(bs) + check(*body),
        SirM::Constr(_, _, args, _, _) => check_all(args),
        SirM::Match(scr, cs, tp, a) => unresolved_at(tp, "match result"@, a) + check(*scr)
            + check_cases(cs),
        SirM::IfThenElse(c, t, f, tp, a) => unresolved_at(tp, "if/else result"@, a) + check(*c)
            + check(*t) + check(*f),
        SirM::Builtin(_, tp, a) => unresolved_at(tp, "builtin"@, a),
        SirM::Error(msg, _) => check(*msg),
        SirM::Decl(_, t) => check(*t),
        SirM::Select(scr, field, tp, a) => unresolved_at(
            tp,
            "field access '."@ + field + "'"@,
            a,
        ) + check(*scr),
    }
}

/// The errors left in a sequence of terms.
pub open spec fn check_all(s: Seq<SirM>) -> Seq<ErrM>
    decreases s,
{
    if s.len() == 0 {
        Seq::empty()
    } else {
        check_all(s.subrange(0, s.len() - 1)) + check(s[s.len() - 1])
    }
}

/// The errors left in let bindings: an unresolved binding type (reported
/// without a location), then its value.
pub open spec fn check_binds(bs: Seq<BindM>) -> Seq<ErrM>
    decreases bs,
{
    if bs.len() == 0 {
        Seq::empty()
    } else {
        let b = bs[bs.len() - 1];
        let own: Seq<ErrM> = if crate::sir_type::unresolved(b.1) {
            seq![(KindM::UnresolvedType("let binding '"@ + b.0 + "'"@), Seq::<char>::empty())]
        } else {
            Seq::empty()
        };
        check_binds(bs.subrange(0, bs.len() - 1)) + own + check(b.2)
    }
}

/// The errors left in the bodies of match cases.
pub open spec fn check_cases(cs: Seq<CaseM>) -> Seq<ErrM>
    decreases cs,
{
    if cs.len() == 0 {
        Seq::empty()
    } else {
        check_cases(cs.subrange(0, cs.len() - 1)) + check(cs[cs.len() - 1].1)
    }
}

/// `prefix`, then `name`, then a closing quote.
fn quoted(prefix: &str, name: &str) -> (r: String)
    ensures
        r@ == prefix@ + name@ + "'"@,
{
    let mut r = crate::text::owned(prefix);
    push_str(&mut r, name);
    push_str(&mut r, "'");
    r
}

/// Records an unresolved-type error at `anns` where `tp` mentions `Unresolved`.
fn report_unresolved(tp: &SIRType, context: String, anns: &AnnotationsDecl, errors: &mut Vec<TypingError>)
    ensures
        errs_of(final(errors)@) == errs_of(old(errors)@) + unresolved_at(ty_of(*tp), context@, ann_of(*anns)),
{
    if tp.has_unresolved() {
        let e = make_error(TypingErrorKind::UnresolvedType { context }, anns);
        proof {
            lemma_errs_push(errors@, e);
        }
        errors.push(e);
    } else {
        assert(errs_of(errors@) + Seq::<ErrM>::empty() == errs_of(errors@));
    }
}

/// The context text for an application whose type is unresolved.
fn apply_context_exec(f: &SIR) -> (r: String)
    ensures
        r@ == apply_context(sir_of(*f)),
{
    match f {
        SIR::Var { name, .. } => quoted("call to '", name.as_str()),
        SIR::ExternalVar { name, .. } => quoted("call to '", name.as_str()),
        SIR::Builtin { builtin_fun, .. } => {
            let n = builtin_fun.name();
            quoted("builtin '", n.as_str())
        },
        _ => crate::text::owned("function application"),
    }
}

/// Whether a term is one of the data conversions that the linker types.
fn is_data_conversion_exec(f: &SIR) -> (r: bool)
    ensures
        r == is_data_conversion(sir_of(*f)),
{
    match f {
        SIR::ExternalVar { module_name, .. } => crate::text::str_eq(
            module_name.as_str(),
            "scalus.uplc.builtin.internal.UniversalDataConversion$",
        ),
        _ => false,
    }
}

/// Walk the tree recording the unresolved types that remain.
pub fn check_node(sir: &SIR, errors: &mut Vec<TypingError>)
    ensures
        errs_of(final(errors)@) == errs_of(old(errors)@) + check(sir_of(*sir)),
    decreases sir, 1nat,
{
    let ghost e0 = errs_of(errors@);
    match sir {
        SIR::Var { tp, name, anns } => {
            report_unresolved(tp, quoted("variable '", name.as_str()), anns, errors);
        },
        SIR::ExternalVar { tp, name, module_name, anns } => {
            if !crate::text::str_eq(
                module_name.as_str(),
                "scalus.uplc.builtin.internal.UniversalDataConversion$",
            ) {
                report_unresolved(tp, quoted("external variable '", name.as_str()), anns, errors);
            } else {
                assert(e0 + Seq::<ErrM>::empty() == e0);
            }
        },
        SIR::Const { tp, anns, .. } => {
            report_unresolved(tp, crate::text::owned("constant"), anns, errors);
        },
        SIR::LamAbs { param, term, .. } => {
            check_node(param, errors);
            check_node(term, errors);
            assert(e0 + check(sir_of(**param)) + check(sir_of(**term)) == e0 + (check(sir_of(**param))
                + check(sir_of(**term))));
        },
        SIR::Apply { f, arg, tp, anns } => {
            let ghost own = if is_data_conversion(sir_of(**f)) {
                Seq::<ErrM>::empty()
            } else {
                unresolved_at(ty_of(*tp), apply_context(sir_of(**f)), ann_of(*anns))
            };
            if !is_data_conversion_exec(f) {
                report_unresolved(tp, apply_context_exec(f), anns, errors);
            } else {
                assert(e0 + Seq::<ErrM>::empty() == e0);
            }
            check_node(f, errors);
            check_node(arg, errors);
            assert(e0 + own + check(sir_of(**f)) + check(sir_of(**arg)) == e0 + (own + check(
                sir_of(**f),
            ) + check(sir_of(**arg))));
        },
        SIR::Let { bindings, body, .. } => {
            check_binds_exec(bindings, sir, errors);
            check_node(body, errors);
            assert(e0 + check_binds(binds_of(bindings@)) + check(sir_of(**body)) == e0 + (check_binds(
                binds_of(bindings@),
            ) + check(sir_of(**body))));
        },
        SIR::Match { scrutinee, cases, tp, anns } => {
            report_unresolved(tp, crate::text::owned("match result"), anns, errors);
            check_node(scrutinee, errors);
            check_cases_exec(cases, sir, errors);
            let ghost a = unresolved_at(ty_of(*tp), "match result"@, ann_of(*anns));
            assert(e0 + a + check(sir_of(**scrutinee)) + check_cases(cases_of(cases@)) == e0 + (a
                + check(sir_of(**scrutinee)) + check_cases(cases_of(cases@))));
        },
        SIR::IfThenElse { cond, t, f, tp, anns } => {
            report_unresolved(tp, crate::text::owned("if/else result"), anns, errors);
            check_node(cond, errors);
            check_node(t, errors);
            check_node(f, errors);
            let ghost a = unresolved_at(ty_of(*tp), "if/else result"@, ann_of(*anns));
            assert(e0 + a + check(sir_of(**cond)) + check(sir_of(**t)) + check(sir_of(**f)) == e0 + (a
                + check(sir_of(**cond)) + check(sir_of(**t)) + check(sir_of(**f))));
        },
        SIR::Select { scrutinee, tp, field, anns } => {
            report_unresolved(tp, quoted("field access '.", field.as_str()), anns, errors);
            check_node(scrutinee, errors);
            let ghost a = unresolved_at(ty_of(*tp), "field access '."@ + field@ + "'"@, ann_of(*anns));
            assert(e0 + a + check(sir_of(**scrutinee)) == e0 + (a + check(sir_of(**scrutinee))));
        },
        SIR::Builtin { tp, anns, .. } => {
            report_unresolved(tp, crate::text::owned("builtin"), anns, errors);
        },
        SIR::Constr { args, .. } => {
            check_all_exec(args, sir, errors);
        },
        SIR::Error { msg, .. } => check_node(msg, errors),
        SIR::Decl { term, .. } => check_node(term, errors),
    }
}

/// Check each of the argument terms of `parent`.
fn check_all_exec(v: &Vec<SIR>, parent: &SIR, errors: &mut Vec<TypingError>)
    requires
        forall|i: int| 0 <= i < v@.len() ==> decreases_to!(*parent => #[trigger] v@[i]),
    ensures
        errs_of(final(errors)@) == errs_of(old(errors)@) + check_all(sirs_of(v@)),
    decreases parent, 0nat,
{
    let ghost e0 = errs_of(errors@);
    let mut i: usize = 0;
    while i < v.len()
        invariant
            0 <= i <= v@.len(),
            errs_of(errors@) == e0 + check_all(sirs_of(v@.take(i as int))),
            forall|i: int| 0 <= i < v@.len() ==> decreases_to!(*parent => #[trigger] v@[i]),
        decreases v@.len() - i,
    {
        check_node(&v[i], errors);
        proof {
            lemma_sirs_push(v@.take(i as int), v@[i as int]);
            assert(v@.take(i + 1) == v@.take(i as int).push(v@[i as int]));
            let s = sirs_of(v@.take(i + 1));
            assert(s.subrange(0, s.len() - 1) == sirs_of(v@.take(i as int)));
            lemma_seq_assoc(e0, check_all(sirs_of(v@.take(i as int))), check(sir_of(v@[i as int])));
        }
        i += 1;
    }
    assert(v@.take(v@.len() as int) == v@);
}

/// Check the bodies of the cases of `parent`.
fn check_cases_exec(v: &Vec<Case>, parent: &SIR, errors: &mut Vec<TypingError>)
    requires
        forall|i: int| 0 <= i < v@.len() ==> decreases_to!(*parent => #[trigger] v@[i].body),
    ensures
        errs_of(final(errors)@) == errs_of(old(errors)@) + check_cases(cases_of(v@)),
    decreases parent, 0nat,
{
    let ghost e0 = errs_of(errors@);
    let mut i: usize = 0;
    while i < v.len()
        invariant
            0 <= i <= v@.len(),
            errs_of(errors@) == e0 + check_cases(cases_of(v@.take(i as int))),
            forall|i: int| 0 <= i < v@.len() ==> decreases_to!(*parent => #[trigger] v@[i].body),
        decreases v@.len() - i,
    {
        check_node(&v[i].body, errors);
        proof {
            lemma_cases_push(v@.take(i as int), v@[i as int]);
            assert(v@.take(i + 1) == v@.take(i as int).push(v@[i as int]));
            let s = cases_of(v@.take(i + 1));
            assert(s.subrange(0, s.len() - 1) == cases_of(v@.take(i as int)));
            lemma_seq_assoc(e0, check_cases(cases_of(v@.take(i as int))), check(sir_of(v@[i as int].body)));
        }
        i += 1;
    }
    assert(v@.take(v@.len() as int) == v@);
}

/// Check the let bindings of `parent`.
fn check_binds_exec(v: &Vec<Binding>, parent: &SIR, errors: &mut Vec<TypingError>)
    requires
        forall|i: int| 0 <= i < v@.len() ==> decreases_to!(*parent => #[trigger] v@[i].value),
    ensures
        errs_of(final(errors)@) == errs_of(old(errors)@) + check_binds(binds_of(v@)),
    decreases parent, 0nat,
{
    let ghost e0 = errs_of(errors@);
    let mut i: usize = 0;
    while i < v.len()
        invariant
            0 <= i <= v@.len(),
            errs_of(errors@) == e0 + check_binds(binds_of(v@.take(i as int))),
            forall|i: int| 0 <= i < v@.len() ==> decreases_to!(*parent => #[trigger] v@[i].value),
        decreases v@.len() - i,
    {
        let b = &v[i];
        let ghost pre = check_binds(binds_of(v@.take(i as int)));
        let ghost own: Seq<ErrM> = if crate::sir_type::unresolved(ty_of(b.tp)) {
            seq![(KindM::UnresolvedType("let binding '"@ + b.name@ + "'"@), Seq::<char>::empty())]
        } else {
            Seq::empty()
        };
        if b.tp.has_unresolved() {
            let e = make_error_no_loc(TypingErrorKind::UnresolvedType { context: quoted("let binding '", b.name.as_str()) });
            proof {
                lemma_errs_push(errors@, e);
            }
            errors.push(e);
        } else {
            assert(errs_of(errors@) + Seq::<ErrM>::empty() == errs_of(errors@));
        }
        check_node(&b.value, errors);
        proof {
            lemma_binds_push(v@.take(i as int), v@[i as int]);
            assert(v@.take(i + 1) == v@.take(i as int).push(v@[i as int]));
            let s = binds_of(v@.take(i + 1));
            assert(s.subrange(0, s.len() - 1) == binds_of(v@.take(i as int)));
            assert(e0 + pre + own + check(sir_of(b.value)) == e0 + (pre + own + check(sir_of(b.value))));
        }
        i += 1;
    }
    assert(v@.take(v@.len() as int) == v@);
}

/// Run the typing pass on a SIR tree, resolving its unresolved types; the
/// errors found, if any, in the order of the walk.
pub fn type_sir(sir: &mut SIR, symbol_table: &NameMap<DataDecl>) -> (r: Result<(), Vec<TypingError>>)
    requires
        symbol_table.wf(),
    ensures
        ({
            let res = typed(sir_of(*old(sir)), Seq::empty(), st_of(*symbol_table));
            &&& sir_of(*final(sir)) == res.0
            &&& (r is Ok <==> res.1.len() == 0)
            &&& (r matches Err(es) ==> errs_of(es@) == res.1)
        }),
{
    let mut env = TypeEnv::new();
    let mut errors: Vec<TypingError> = Vec::new();
    let placeholder = SIR::Error {
        msg: Box::new(SIR::Const {
            uplc_const: crate::constant::UplcConstant::Unit,
            tp: SIRType::Unit,
            anns: AnnotationsDecl::empty(),
        }),
        anns: AnnotationsDecl::empty(),
    };
    let mut s = placeholder;
    std::mem::swap(sir, &mut s);
    assert(env.binds() =~= Seq::<(Seq<char>, Ty)>::empty());
    assert(errs_of(errors@) =~= Seq::<ErrM>::empty());
    let typed_sir = type_node(s, &mut env, symbol_table, &mut errors);
    *sir = typed_sir;
    assert(errs_of(errors@).len() == errors@.len());
    if errors.len() == 0 {
        Ok(())
    } else {
        Err(errors)
    }
}

/// Verify that no unresolved type remains in the SIR tree.
pub fn verify_complete(sir: &SIR) -> (r: Result<(), Vec<TypingError>>)
    ensures
        r is Ok <==> check(sir_of(*sir)).len() == 0,
        r matches Err(es) ==> errs_of(es@) == check(sir_of(*sir)),
{
    let mut errors: Vec<TypingError> = Vec::new();
    assert(errs_of(errors@) =~= Seq::<ErrM>::empty());
    check_node(sir, &mut errors);
    assert(errs_of(errors@).len() == errors@.len());
    if errors.len() == 0 {
        Ok(())
    } else {
        Err(errors)
    }
}

} // verus!
