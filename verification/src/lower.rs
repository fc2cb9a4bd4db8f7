//! Lowering: pre-SIR to SIR, with the types that the front end could not
//! write resolved from the type dictionary, the symbol table and the function
//! signatures: variable types, call types, field types, the equality builtin
//! that an operand type selects, and the typeclass arguments of calls.
use crate::default_fun::{DefaultFun, int_arith_meaning, int_test_meaning};
use crate::model::{AnnM, CaseM, ConstM, DeclM, PatM, SirM, Ty};
use crate::module::{empty_anns, flag_anns};
use crate::name_map::assoc_last;
use crate::pre_sir::{ArmM, BinOp, HintM, PreM, PrePatM, binop_arith_meaning, binop_test_meaning};
use crate::registry::{FnM, fn_lookup, resolved_call};
use crate::sir::LetFlags;
use crate::sir_type::{env_lookup, subst_ty};
use crate::text::after_last;
use crate::typing::{bind_fields, decl_name_of, find_constr, first_field, sir_ty, subst_of_decl};
use vstd::prelude::*;

verus! {


/// Model of the lowering context.
pub struct LowerM {
    /// The symbol table of the resolution context.
    pub st: Seq<(Seq<char>, DeclM)>,
    /// The function signatures of the resolution context, by name.
    pub fns: spec_fn(Seq<char>) -> Option<FnM>,
    /// Rust type path to SIR type, from the type dictionary.
    pub tmap: Seq<(Seq<char>, Ty)>,
    /// Rust type path to declaration, from the type dictionary.
    pub dmap: Seq<(Seq<char>, DeclM)>,
    /// The variable that holds the equality of a generic function, if any.
    pub eq_var: Option<Seq<char>>,
    /// The Rust name of the function being lowered, if any.
    pub cur_fn: Option<Seq<char>>,
    /// The SIR name of the function being lowered, if any.
    pub cur_sir: Option<Seq<char>>,
}

// ---------------------------------------------------------------------------
// Finding declarations
// ---------------------------------------------------------------------------

/// The first declaration whose key ends, after its last `.`, with `name`.
pub open spec fn decl_by_short(st: Seq<(Seq<char>, DeclM)>, name: Seq<char>) -> Option<DeclM>
    decreases st.len(),
{
    if st.len() == 0 {
        None
    } else {
        match decl_by_short(st.subrange(0, st.len() - 1), name) {
            Some(d) => Some(d),
            None => if after_last(st[st.len() - 1].0, "."@) == name {
                Some(st[st.len() - 1].1)
            } else {
                None
            },
        }
    }
}

/// The declaration of a Rust type by its short name: from the type
/// dictionary, or else the first of the symbol table with that short name.
pub open spec fn find_decl_by_name(name: Seq<char>, c: LowerM) -> Option<DeclM> {
    match assoc_last(c.dmap, name) {
        Some(d) => Some(d),
        None => decl_by_short(c.st, name),
    }
}

/// The declaration for a pattern: the one the scrutinee's type names, or else
/// the one the pattern's type names.
pub open spec fn find_decl(type_path: Seq<char>, stp: Ty, c: LowerM) -> Option<DeclM> {
    match decl_name_of(stp) {
        Some(dn) => match assoc_last(c.st, dn) {
            Some(d) => Some(d),
            None => find_decl_by_name(type_path, c),
        },
        None => find_decl_by_name(type_path, c),
    }
}

/// The first declaration (in key order) with the given declaration name.
pub open spec fn decl_named(ds: Seq<(Seq<char>, DeclM)>, name: Seq<char>) -> Option<DeclM>
    decreases ds.len(),
{
    if ds.len() == 0 {
        None
    } else {
        match decl_named(ds.subrange(0, ds.len() - 1), name) {
            Some(d) => Some(d),
            None => if ds[ds.len() - 1].1.name == name {
                Some(ds[ds.len() - 1].1)
            } else {
                None
            },
        }
    }
}

/// The declaration that a data type refers to: from the symbol table, or else
/// from the type dictionary.
pub open spec fn decl_of_type(t: Ty, c: LowerM) -> Option<DeclM> {
    match decl_name_of(t) {
        Some(dn) => match assoc_last(c.st, dn) {
            Some(d) => Some(d),
            None => decl_named(c.dmap, dn),
        },
        None => None,
    }
}

/// The type of field `field` of a value of type `t`.
pub open spec fn field_ty_of(t: Ty, field: Seq<char>, c: LowerM) -> Option<Ty> {
    match decl_of_type(t, c) {
        Some(d) => match first_field(d.constructors, field) {
            Some(ft) => Some(subst_ty(ft, subst_of_decl(d, t))),
            None => None,
        },
        None => None,
    }
}

/// The substitution that instantiates the declaration of type `t`.
pub open spec fn subst_of_type(t: Ty, c: LowerM) -> Map<i64, Ty> {
    match decl_of_type(t, c) {
        Some(d) => subst_of_decl(d, t),
        None => Map::empty(),
    }
}

/// The type that a declaration gives its values, with the given type
/// arguments: a case class where it has one constructor, else a sum.
pub open spec fn decl_ty(d: DeclM, args: Seq<Ty>) -> Ty {
    if d.constructors.len() == 1 {
        Ty::CaseClass(d.constructors[0].name, d.name, args)
    } else {
        Ty::SumCaseClass(d.name, args)
    }
}

// ---------------------------------------------------------------------------
// Types from hints
// ---------------------------------------------------------------------------

/// The SIR type of a type hint.
pub open spec fn hint_ty(h: HintM, c: LowerM) -> Ty
    decreases h,
{
    match h {
        HintM::Bool => Ty::Boolean,
        HintM::Integer => Ty::Integer,
        HintM::ByteString => Ty::ByteString,
        HintM::String => Ty::String,
        HintM::Unit => Ty::Unit,
        HintM::Data => Ty::Data,
        HintM::TypeParam(n, i) => Ty::TypeVar(n, Some(i), false),
        HintM::Named(p, args) => {
            if args.len() == 0 && assoc_last(c.tmap, p) is Some {
                assoc_last(c.tmap, p).unwrap()
            } else {
                match find_decl_by_name(p, c) {
                    Some(d) => decl_ty(d, hint_tys(args, c)),
                    None => Ty::Unresolved,
                }
            }
        },
        HintM::Fun(a, b) => Ty::Fun(Box::new(hint_ty(*a, c)), Box::new(hint_ty(*b, c))),
        HintM::Infer => Ty::Unresolved,
    }
}

/// The SIR types of a sequence of hints.
pub open spec fn hint_tys(s: Seq<HintM>, c: LowerM) -> Seq<Ty>
    decreases s,
{
    if s.len() == 0 {
        Seq::empty()
    } else {
        hint_tys(s.subrange(0, s.len() - 1), c).push(hint_ty(s[s.len() - 1], c))
    }
}

// ---------------------------------------------------------------------------
// Small builders
// ---------------------------------------------------------------------------

/// The type of a constant.
pub open spec fn const_ty(k: ConstM) -> Ty {
    match k {
        ConstM::Integer(_) => Ty::Integer,
        ConstM::ByteString(_) => Ty::ByteString,
        ConstM::String(_) => Ty::String,
        ConstM::Bool(_) => Ty::Boolean,
        ConstM::Unit => Ty::Unit,
    }
}

/// The result type of a function type, or `Unresolved`.
pub open spec fn peel(t: Ty) -> Ty {
    match t {
        Ty::Fun(_, to) => *to,
        _ => Ty::Unresolved,
    }
}

/// The type `a -> b`.
pub open spec fn fun_ty(a: Ty, b: Ty) -> Ty {
    Ty::Fun(Box::new(a), Box::new(b))
}

/// `fun left right` for a binary builtin over `operand` giving `result`.
pub open spec fn apply2(fun: DefaultFun, operand: Ty, result: Ty, l: SirM, r: SirM, a: AnnM) -> SirM {
    SirM::Apply(
        Box::new(
            SirM::Apply(
                Box::new(SirM::Builtin(fun, fun_ty(operand, fun_ty(operand, result)), empty_anns())),
                Box::new(l),
                fun_ty(operand, result),
                a,
            ),
        ),
        Box::new(r),
        result,
        a,
    )
}

/// The equality builtin for values of a type, and the type it compares at.
pub open spec fn eq_fun(t: Ty) -> (DefaultFun, Ty) {
    match t {
        Ty::Integer => (DefaultFun::EqualsInteger, Ty::Integer),
        Ty::ByteString => (DefaultFun::EqualsByteString, Ty::ByteString),
        Ty::String => (DefaultFun::EqualsString, Ty::String),
        _ => (DefaultFun::EqualsData, Ty::Data),
    }
}

/// The equality builtin for values of a type, as a term.
pub open spec fn eq_builtin(t: Ty) -> SirM {
    let (f, o) = eq_fun(t);
    SirM::Builtin(f, fun_ty(o, fun_ty(o, Ty::Boolean)), empty_anns())
}

/// A string constant.
pub open spec fn str_const(s: Seq<char>) -> SirM {
    SirM::Const(ConstM::String(s), Ty::String, empty_anns())
}

/// The unit constant.
pub open spec fn unit_const() -> SirM {
    SirM::Const(ConstM::Unit, Ty::Unit, empty_anns())
}

/// The conversion of Data to type `t`, as a function.
pub open spec fn from_data_fn(t: Ty) -> SirM {
    SirM::ExternalVar(
        crate::typing::conversion_module(),
        crate::typing::conversion_module() + ".fromData"@,
        fun_ty(Ty::Data, t),
        empty_anns(),
    )
}

/// The conversion of type `t` to Data, as a function.
pub open spec fn to_data_fn(t: Ty) -> SirM {
    SirM::ExternalVar(
        crate::typing::conversion_module(),
        crate::typing::conversion_module() + ".toData"@,
        fun_ty(t, Ty::Data),
        empty_anns(),
    )
}

/// `f` applied to each of `args` in turn, each application typed by peeling
/// the function type; the final term and its remaining type.
pub open spec fn apply_chain(f: SirM, ftp: Ty, args: Seq<SirM>, a: AnnM) -> (SirM, Ty)
    decreases args.len(),
{
    if args.len() == 0 {
        (f, ftp)
    } else {
        let (g, t) = apply_chain(f, ftp, args.subrange(0, args.len() - 1), a);
        let at = peel(t);
        (SirM::Apply(Box::new(g), Box::new(args[args.len() - 1]), at, a), at)
    }
}

/// The equality arguments that a call passes for the typeclass bounds of its
/// callee, each chosen by the type of the argument that the bound names.
pub open spec fn bound_chain(r: SirM, t: Ty, bounds: Seq<(Seq<char>, usize)>, args: Seq<SirM>, a: AnnM) -> (
    SirM,
    Ty,
)
    decreases bounds.len(),
{
    if bounds.len() == 0 {
        (r, t)
    } else {
        let (r1, t1) = bound_chain(r, t, bounds.subrange(0, bounds.len() - 1), args, a);
        let b = bounds[bounds.len() - 1];
        if b.0 == "PartialEq"@ {
            let elem = if (b.1 as int) < args.len() {
                sir_ty(args[b.1 as int])
            } else {
                Ty::Data
            };
            let at = peel(t1);
            (SirM::Apply(Box::new(r1), Box::new(eq_builtin(elem)), at, a), at)
        } else {
            (r1, t1)
        }
    }
}

/// The variable that holds the equality of a generic function, as a term.
pub open spec fn eq_var_term(v: Seq<char>, env: Seq<(Seq<char>, Ty)>) -> SirM {
    SirM::Var(
        v,
        match env_lookup(env, v) {
            Some(t) => t,
            None => Ty::Unresolved,
        },
        empty_anns(),
    )
}

/// A call is to the function being lowered.
pub open spec fn is_recursive(path: Seq<char>, c: LowerM) -> bool {
    c.cur_fn == Some(path) || c.cur_sir == Some(path)
}

/// The lowering of a call with its lowered arguments.
pub open spec fn call_of(path: Seq<char>, args: Seq<SirM>, a: AnnM, env: Seq<(Seq<char>, Ty)>, c: LowerM) -> SirM {
    let f = resolved_call(c.fns, path, Ty::Unresolved);
    let (r, t) = apply_chain(f, sir_ty(f), args, a);
    if is_recursive(path, c) && c.eq_var is Some {
        SirM::Apply(Box::new(r), Box::new(eq_var_term(c.eq_var.unwrap(), env)), peel(t), a)
    } else {
        match fn_lookup(c.fns, path) {
            Some(fd) => bound_chain(r, t, fd.bounds, args, a).0,
            None => r,
        }
    }
}

/// The lowering of a binary operation on lowered operands.
pub open spec fn binop_of(op: BinOp, l: SirM, r: SirM, a: AnnM, env: Seq<(Seq<char>, Ty)>, c: LowerM) -> SirM {
    match op {
        BinOp::Eq => match c.eq_var {
            Some(v) => SirM::Apply(
                Box::new(SirM::Apply(Box::new(eq_var_term(v, env)), Box::new(l), Ty::Unresolved, a)),
                Box::new(r),
                Ty::Boolean,
                a,
            ),
            None => {
                let (f, o) = eq_fun(sir_ty(l));
                apply2(f, o, Ty::Boolean, l, r, a)
            },
        },
        BinOp::Add => apply2(DefaultFun::AddInteger, Ty::Integer, Ty::Integer, l, r, a),
        BinOp::Sub => apply2(DefaultFun::SubtractInteger, Ty::Integer, Ty::Integer, l, r, a),
        BinOp::Mul => apply2(DefaultFun::MultiplyInteger, Ty::Integer, Ty::Integer, l, r, a),
        BinOp::Lt => apply2(DefaultFun::LessThanInteger, Ty::Integer, Ty::Boolean, l, r, a),
        BinOp::Le => apply2(DefaultFun::LessThanEqualsInteger, Ty::Integer, Ty::Boolean, l, r, a),
    }
}

/// Lowering an arithmetic or order operator applies, in any context, one
/// integer builtin to the lowered left operand and then the lowered right
/// one; that builtin means on chain what the operator means: `l < r` becomes
/// `lessThanInteger l r`, true exactly when `l < r`, and `l <= r` becomes
/// `lessThanEqualsInteger l r`, true exactly when `l <= r`. A test gives a
/// Boolean, an arithmetic operator an integer.
pub proof fn law_lowered_operator_means_the_same(
    op: BinOp,
    l: PreM,
    r: PreM,
    a: AnnM,
    env: Seq<(Seq<char>, Ty)>,
    c: LowerM,
    x: int,
    y: int,
)
    requires
        op != BinOp::Eq,
    ensures
        ({
            let s = lowered(PreM::BinOp(op, Box::new(l), Box::new(r), a), env, c);
            &&& s matches SirM::Apply(g, rr, t, _)
            &&& *g matches SirM::Apply(b, ll, _, _)
            &&& *b matches SirM::Builtin(f, _, _)
            &&& *ll == lowered(l, env, c)
            &&& *rr == lowered(r, env, c)
            &&& int_arith_meaning(f, x, y) == binop_arith_meaning(op, x, y)
            &&& int_test_meaning(f, x, y) == binop_test_meaning(op, x, y)
            &&& t == if binop_test_meaning(op, x, y) is Some {
                Ty::Boolean
            } else {
                Ty::Integer
            }
            &&& op == BinOp::Lt ==> f == DefaultFun::LessThanInteger
            &&& op == BinOp::Le ==> f == DefaultFun::LessThanEqualsInteger
        }),
{
    let p = PreM::BinOp(op, Box::new(l), Box::new(r), a);
    assert(lowered(p, env, c) == lowered_binop(p, env, c));
    assert(lowered_binop(p, env, c) == binop_of(op, lowered(l, env, c), lowered(r, env, c), a, env, c));
}

/// The declaration that a constructor application builds, and its type: the
/// one found by name, or else a declaration of that name with no constructors.
pub open spec fn construct_decl(type_path: Seq<char>, c: LowerM) -> (DeclM, Ty) {
    match find_decl_by_name(type_path, c) {
        Some(d) => (d, decl_ty(d, Seq::empty())),
        None => (
            DeclM { name: type_path, constructors: Seq::empty(), type_params: Seq::empty(), annotations: empty_anns() },
            Ty::SumCaseClass(type_path, Seq::empty()),
        ),
    }
}

/// The environment of a match arm's body.
pub open spec fn arm_env(pat: PrePatM, stp: Ty, m: Map<i64, Ty>, env: Seq<(Seq<char>, Ty)>, c: LowerM) -> Seq<
    (Seq<char>, Ty),
> {
    match pat {
        PrePatM::Constr(tn, cn, bs) => match find_decl(tn, stp, c) {
            Some(d) => match find_constr(d.constructors, cn) {
                Some(k) => bind_fields(env, bs, k.params, m),
                None => env,
            },
            None => env,
        },
        PrePatM::Wildcard => env,
    }
}

/// The SIR pattern of a match arm: the declaration is named as the symbol
/// table names it, where it is found.
pub open spec fn arm_pattern(pat: PrePatM, stp: Ty, c: LowerM) -> PatM {
    match pat {
        PrePatM::Constr(tn, cn, bs) => PatM::Constr(
            cn,
            match find_decl(tn, stp, c) {
                Some(d) => d.name,
                None => tn,
            },
            bs,
            Seq::empty(),
        ),
        PrePatM::Wildcard => PatM::Wildcard,
    }
}

// ---------------------------------------------------------------------------
// Lowering, on models
// ---------------------------------------------------------------------------

/// The SIR term that an expression lowers to in environment `env`.
pub open spec fn lowered(p: PreM, env: Seq<(Seq<char>, Ty)>, c: LowerM) -> SirM
    decreases p, 1nat,
{
    match p {
        PreM::Var(n, a) => SirM::Var(
            n,
            match env_lookup(env, n) {
                Some(t) => t,
                None => Ty::Unresolved,
            },
            a,
        ),
        PreM::Const(k, a) => SirM::Const(k, const_ty(k), a),
        PreM::Call(..) => lowered_call(p, env, c),
        PreM::BinOp(..) => lowered_binop(p, env, c),
        PreM::Let(..) => lowered_let(p, env, c),
        PreM::Match(..) => lowered_match(p, env, c),
        PreM::IfThenElse(..) => lowered_if(p, env, c),
        PreM::Construct(..) => lowered_construct(p, env, c),
        PreM::FieldAccess(..) => lowered_field(p, env, c),
        PreM::FromData(..) => lowered_conversion(p, env, c),
        PreM::ToData(..) => lowered_conversion(p, env, c),
        PreM::Error(msg, a) => SirM::Error(Box::new(str_const(msg)), a),
        PreM::Require(..) => lowered_require(p, env, c),
        PreM::Negate(..) => lowered_negate(p, env, c),
    }
}

/// The lowering of a call (of nothing else).
pub open spec fn lowered_call(p: PreM, env: Seq<(Seq<char>, Ty)>, c: LowerM) -> SirM
    decreases p, 0nat,
{
    match p {
        PreM::Call(path, args, a) => call_of(path, lowered_all(args, env, c), a, env, c),
        _ => unit_const(),
    }
}

/// The lowering of a binary operation (of nothing else).
pub open spec fn lowered_binop(p: PreM, env: Seq<(Seq<char>, Ty)>, c: LowerM) -> SirM
    decreases p, 0nat,
{
    match p {
        PreM::BinOp(op, l, r, a) => binop_of(op, lowered(*l, env, c), lowered(*r, env, c), a, env, c),
        _ => unit_const(),
    }
}

/// The lowering of a let (of nothing else).
pub open spec fn lowered_let(p: PreM, env: Seq<(Seq<char>, Ty)>, c: LowerM) -> SirM
    decreases p, 0nat,
{
    match p {
        PreM::Let(n, h, v, b, is_rec, a) => {
            let v2 = lowered(*v, env, c);
            let t = match h {
                HintM::Infer => sir_ty(v2),
                _ => hint_ty(h, c),
            };
            let b2 = lowered(*b, env.push((n, t)), c);
            SirM::Let(seq![(n, t, v2)], Box::new(b2), LetFlags { is_rec, is_lazy: false }, a)
        },
        _ => unit_const(),
    }
}

/// The lowering of a match (of nothing else).
pub open spec fn lowered_match(p: PreM, env: Seq<(Seq<char>, Ty)>, c: LowerM) -> SirM
    decreases p, 0nat,
{
    match p {
        PreM::Match(s, arms, a) => {
            let s2 = lowered(*s, env, c);
            let stp = sir_ty(s2);
            let cs = lowered_arms(arms, stp, subst_of_type(stp, c), env, c);
            let t = if cs.len() > 0 {
                sir_ty(cs[0].1)
            } else {
                Ty::Unresolved
            };
            SirM::Match(Box::new(s2), cs, t, a)
        },
        _ => unit_const(),
    }
}

/// The lowering of a conditional (of nothing else).
pub open spec fn lowered_if(p: PreM, env: Seq<(Seq<char>, Ty)>, c: LowerM) -> SirM
    decreases p, 0nat,
{
    match p {
        PreM::IfThenElse(cond, t, f, a) => {
            let t2 = lowered(*t, env, c);
            let f2 = match f {
                Some(e) => lowered(*e, env, c),
                None => unit_const(),
            };
            SirM::IfThenElse(Box::new(lowered(*cond, env, c)), Box::new(t2), Box::new(f2), sir_ty(t2), a)
        },
        _ => unit_const(),
    }
}

/// The lowering of a constructor application (of nothing else).
pub open spec fn lowered_construct(p: PreM, env: Seq<(Seq<char>, Ty)>, c: LowerM) -> SirM
    decreases p, 0nat,
{
    match p {
        PreM::Construct(tn, cn, args, a) => {
            let (d, t) = construct_decl(tn, c);
            SirM::Constr(cn, d, lowered_all(args, env, c), t, a)
        },
        _ => unit_const(),
    }
}

/// The lowering of a field access (of nothing else).
pub open spec fn lowered_field(p: PreM, env: Seq<(Seq<char>, Ty)>, c: LowerM) -> SirM
    decreases p, 0nat,
{
    match p {
        PreM::FieldAccess(b, field, a) => {
            let b2 = lowered(*b, env, c);
            SirM::Select(
                Box::new(b2),
                field,
                match field_ty_of(sir_ty(b2), field, c) {
                    Some(t) => t,
                    None => Ty::Unresolved,
                },
                a,
            )
        },
        _ => unit_const(),
    }
}

/// The lowering of a conversion from or to Data (of nothing else).
pub open spec fn lowered_conversion(p: PreM, env: Seq<(Seq<char>, Ty)>, c: LowerM) -> SirM
    decreases p, 0nat,
{
    match p {
        PreM::FromData(x, h, _) => {
            let t = hint_ty(h, c);
            SirM::Apply(Box::new(from_data_fn(t)), Box::new(lowered(*x, env, c)), t, flag_anns("fromData"@))
        },
        PreM::ToData(x, h, _) => {
            let x2 = lowered(*x, env, c);
            let t = match h {
                HintM::Infer => sir_ty(x2),
                _ => hint_ty(h, c),
            };
            SirM::Apply(Box::new(to_data_fn(t)), Box::new(x2), Ty::Data, flag_anns("toData"@))
        },
        _ => unit_const(),
    }
}

/// The lowering of a requirement (of nothing else): unit where the
/// condition holds, else an error with the message.
pub open spec fn lowered_require(p: PreM, env: Seq<(Seq<char>, Ty)>, c: LowerM) -> SirM
    decreases p, 0nat,
{
    match p {
        PreM::Require(cond, msg, a) => SirM::IfThenElse(
            Box::new(lowered(*cond, env, c)),
            Box::new(unit_const()),
            Box::new(SirM::Error(Box::new(str_const(msg)), empty_anns())),
            Ty::Unit,
            a,
        ),
        _ => unit_const(),
    }
}

/// The lowering of a negation (of nothing else): `0 - x`.
pub open spec fn lowered_negate(p: PreM, env: Seq<(Seq<char>, Ty)>, c: LowerM) -> SirM
    decreases p, 0nat,
{
    match p {
        PreM::Negate(x, a) => apply2(
            DefaultFun::SubtractInteger,
            Ty::Integer,
            Ty::Integer,
            SirM::Const(ConstM::Integer(0), Ty::Integer, empty_anns()),
            lowered(*x, env, c),
            a,
        ),
        _ => unit_const(),
    }
}

/// The lowerings of a sequence of expressions in the same environment.
pub open spec fn lowered_all(s: Seq<PreM>, env: Seq<(Seq<char>, Ty)>, c: LowerM) -> Seq<SirM>
    decreases s, 1nat,
{
    if s.len() == 0 {
        Seq::empty()
    } else {
        lowered_all(s.subrange(0, s.len() - 1), env, c).push(lowered(s[s.len() - 1], env, c))
    }
}

/// The lowering of one match arm.
pub open spec fn lowered_arm(arm: ArmM, stp: Ty, m: Map<i64, Ty>, env: Seq<(Seq<char>, Ty)>, c: LowerM) -> CaseM
    decreases arm, 1nat,
{
    (arm_pattern(arm.0, stp, c), lowered(arm.1, arm_env(arm.0, stp, m, env, c), c), arm.2)
}

/// The lowerings of the arms of a match.
pub open spec fn lowered_arms(
    arms: Seq<ArmM>,
    stp: Ty,
    m: Map<i64, Ty>,
    env: Seq<(Seq<char>, Ty)>,
    c: LowerM,
) -> Seq<CaseM>
    decreases arms, 1nat,
{
    if arms.len() == 0 {
        Seq::empty()
    } else {
        lowered_arms(arms.subrange(0, arms.len() - 1), stp, m, env, c).push(
            lowered_arm(arms[arms.len() - 1], stp, m, env, c),
        )
    }
}

} // verus!

verus! {

use crate::constant::UplcConstant;
use crate::duplicate::{dup_string, lemma_tys_push};
use crate::integer::Integer;
use crate::model::{const_of, decl_of, lemma_tys_of, sir_of, ty_of, tys_of};
use crate::module::AnnotationsDecl;
use crate::name_map::{NameMap, lemma_assoc_last_at, lemma_assoc_last_none};
use crate::pre_sir::{TypeDict, TypeHint, hint_of, hints_of, lookup_ty, tymap_of};
use crate::sir::SIR;
use crate::sir_type::{DataDecl, SIRType};
use crate::typing::{decl_name_exec, decl_substitution, first_field_exec, lookup_decl, st_of};
use crate::text::{last_segment, str_eq};
use std::collections::HashMap;

broadcast use {vstd::std_specs::vec::group_vec_axioms, vstd::std_specs::hash::group_hash_axioms, crate::model::group_model_seqs};

/// The first declaration of the symbol table whose key ends, after its last
/// `.`, with `name`.
fn decl_by_short_exec<'b>(st: &'b NameMap<DataDecl>, name: &str) -> (r: Option<&'b DataDecl>)
    ensures
        r matches Some(d) ==> decl_by_short(st_of(*st), name@) == Some(decl_of(*d)),
        r is None ==> decl_by_short(st_of(*st), name@) is None,
{
    let ghost m = st_of(*st);
    let mut i: usize = 0;
    let mut found: Option<&DataDecl> = None;
    proof {
        reveal_strlit(".");
    }
    while i < st.entries.len()
        invariant
            0 <= i <= st.entries@.len(),
            m == st_of(*st),
            "."@.len() > 0,
            found matches Some(d) ==> decl_by_short(m.take(i as int), name@) == Some(decl_of(*d)),
            found is None ==> decl_by_short(m.take(i as int), name@) is None,
        decreases st.entries@.len() - i,
    {
        assert(m.take(i + 1).subrange(0, i as int) == m.take(i as int));
        assert(m.take(i + 1)[i as int] == (st.entries@[i as int].0@, decl_of(st.entries@[i as int].1)));
        if found.is_none() {
            let short = last_segment(st.entries[i].0.as_str(), ".");
            if str_eq(short.as_str(), name) {
                found = Some(&st.entries[i].1);
            }
        }
        i += 1;
    }
    assert(m.take(st.entries@.len() as int) == m);
    found
}

/// The first declaration of a map with the given declaration name.
fn decl_named_exec<'b>(ds: &'b NameMap<DataDecl>, name: &str) -> (r: Option<&'b DataDecl>)
    ensures
        r matches Some(d) ==> decl_named(st_of(*ds), name@) == Some(decl_of(*d)),
        r is None ==> decl_named(st_of(*ds), name@) is None,
{
    let ghost m = st_of(*ds);
    let mut i: usize = 0;
    let mut found: Option<&DataDecl> = None;
    while i < ds.entries.len()
        invariant
            0 <= i <= ds.entries@.len(),
            m == st_of(*ds),
            found matches Some(d) ==> decl_named(m.take(i as int), name@) == Some(decl_of(*d)),
            found is None ==> decl_named(m.take(i as int), name@) is None,
        decreases ds.entries@.len() - i,
    {
        assert(m.take(i + 1).subrange(0, i as int) == m.take(i as int));
        assert(m.take(i + 1)[i as int] == (ds.entries@[i as int].0@, decl_of(ds.entries@[i as int].1)));
        if found.is_none() && str_eq(ds.entries[i].1.name.as_str(), name) {
            found = Some(&ds.entries[i].1);
        }
        i += 1;
    }
    assert(m.take(ds.entries@.len() as int) == m);
    found
}

/// The model of a lowering context made of these tables and names.
pub open spec fn ctx_model(
    st: NameMap<DataDecl>,
    fns: NameMap<crate::registry::FunctionDef>,
    td: TypeDict,
    eq_var: Option<Seq<char>>,
    cur_fn: Option<Seq<char>>,
    cur_sir: Option<Seq<char>>,
) -> LowerM {
    LowerM {
        st: st_of(st),
        fns: crate::registry::fn_table(fns),
        tmap: tymap_of(td.type_map),
        dmap: st_of(td.decl_map),
        eq_var,
        cur_fn,
        cur_sir,
    }
}

/// The declaration of a Rust type by short name, from the type dictionary or
/// else the symbol table.
fn find_decl_by_name_exec<'b>(name: &str, st: &'b NameMap<DataDecl>, td: &'b TypeDict) -> (r: Option<&'b DataDecl>)
    requires
        st.wf(),
        td.wf(),
    ensures
        forall|c: LowerM| c.st == st_of(*st) && c.dmap == st_of(td.decl_map) ==> {
            &&& r matches Some(d) ==> find_decl_by_name(name@, c) == Some(decl_of(*d))
            &&& r is None ==> find_decl_by_name(name@, c) is None
        },
{
    match lookup_decl(&td.decl_map, name) {
        Some(d) => Some(d),
        None => decl_by_short_exec(st, name),
    }
}

/// The declaration for a pattern of type `type_path` against a scrutinee of
/// type `stp`.
fn find_decl_exec<'b>(type_path: &str, stp: &SIRType, st: &'b NameMap<DataDecl>, td: &'b TypeDict) -> (r: Option<
    &'b DataDecl,
>)
    requires
        st.wf(),
        td.wf(),
    ensures
        forall|c: LowerM| c.st == st_of(*st) && c.dmap == st_of(td.decl_map) ==> {
            &&& r matches Some(d) ==> find_decl(type_path@, ty_of(*stp), c) == Some(decl_of(*d))
            &&& r is None ==> find_decl(type_path@, ty_of(*stp), c) is None
        },
{
    match decl_name_exec(stp) {
        Some(dn) => match lookup_decl(st, dn.as_str()) {
            Some(d) => Some(d),
            None => find_decl_by_name_exec(type_path, st, td),
        },
        None => find_decl_by_name_exec(type_path, st, td),
    }
}

/// The declaration that a data type refers to.
fn decl_of_type_exec<'b>(t: &SIRType, st: &'b NameMap<DataDecl>, td: &'b TypeDict) -> (r: Option<&'b DataDecl>)
    requires
        st.wf(),
        td.wf(),
    ensures
        forall|c: LowerM| c.st == st_of(*st) && c.dmap == st_of(td.decl_map) ==> {
            &&& r matches Some(d) ==> decl_of_type(ty_of(*t), c) == Some(decl_of(*d))
            &&& r is None ==> decl_of_type(ty_of(*t), c) is None
        },
{
    match decl_name_exec(t) {
        Some(dn) => match lookup_decl(st, dn.as_str()) {
            Some(d) => Some(d),
            None => decl_named_exec(&td.decl_map, dn.as_str()),
        },
        None => None,
    }
}

/// Resolve a field's type from a scrutinee's type.
fn resolve_field_type(scrutinee_tp: &SIRType, field_name: &str, st: &NameMap<DataDecl>, td: &TypeDict) -> (r: Option<
    SIRType,
>)
    requires
        st.wf(),
        td.wf(),
    ensures
        forall|c: LowerM| c.st == st_of(*st) && c.dmap == st_of(td.decl_map) ==> {
            &&& r matches Some(t) ==> field_ty_of(ty_of(*scrutinee_tp), field_name@, c) == Some(ty_of(t))
            &&& r is None ==> field_ty_of(ty_of(*scrutinee_tp), field_name@, c) is None
        },
{
    match decl_of_type_exec(scrutinee_tp, st, td) {
        Some(decl) => match first_field_exec(&decl.constructors, field_name) {
            Some(b) => {
                let subst = decl_substitution(decl, scrutinee_tp);
                Some(b.tp.substitute(&subst))
            },
            None => None,
        },
        None => None,
    }
}

/// Build a substitution map from a scrutinee type's type arguments and its
/// declaration.
fn build_substitution(tp: &SIRType, st: &NameMap<DataDecl>, td: &TypeDict) -> (r: HashMap<i64, SIRType>)
    requires
        st.wf(),
        td.wf(),
    ensures
        forall|c: LowerM| c.st == st_of(*st) && c.dmap == st_of(td.decl_map) ==>
            crate::sir_type::subst_map_of(r@) == subst_of_type(ty_of(*tp), c),
{
    match decl_of_type_exec(tp, st, td) {
        Some(decl) => decl_substitution(decl, tp),
        None => {
            let r: HashMap<i64, SIRType> = HashMap::new();
            assert(crate::sir_type::subst_map_of(r@) =~= Map::<i64, Ty>::empty());
            r
        },
    }
}

/// The type that a declaration gives its values.
fn decl_type(d: &DataDecl, args: Vec<SIRType>) -> (r: SIRType)
    ensures
        ty_of(r) == decl_ty(decl_of(*d), tys_of(args@)),
{
    if d.constructors.len() == 1 {
        SIRType::CaseClass {
            constr_name: dup_string(&d.constructors[0].name),
            decl_name: dup_string(&d.name),
            type_args: args,
        }
    } else {
        SIRType::SumCaseClass { decl_name: dup_string(&d.name), type_args: args }
    }
}

} // verus!

verus! {


/// The contexts that agree with these tables.
pub open spec fn agrees(c: LowerM, st: NameMap<DataDecl>, td: TypeDict) -> bool {
    &&& c.st == st_of(st)
    &&& c.dmap == st_of(td.decl_map)
    &&& c.tmap == tymap_of(td.type_map)
}

/// Resolve a type hint to a SIR type with the type dictionary and the symbol
/// table.
pub fn resolve_type_hint(hint: &TypeHint, type_dict: &TypeDict, data_decls: &NameMap<DataDecl>) -> (r: SIRType)
    requires
        type_dict.wf(),
        data_decls.wf(),
    ensures
        forall|c: LowerM| agrees(c, *data_decls, *type_dict) ==> ty_of(r) == hint_ty(hint_of(*hint), c),
    decreases hint, 1nat,
{
    match hint {
        TypeHint::Bool => SIRType::Boolean,
        TypeHint::Integer => SIRType::Integer,
        TypeHint::ByteString => SIRType::ByteString,
        TypeHint::String => SIRType::String,
        TypeHint::Unit => SIRType::Unit,
        TypeHint::Data => SIRType::Data,
        TypeHint::TypeParam { name, index } => SIRType::TypeVar { name: dup_string(name), opt_id: Some(*index), is_builtin: false },
        TypeHint::Named { rust_path, type_args } => {
            if type_args.len() == 0 {
                match crate::pre_sir::lookup_ty(&type_dict.type_map, rust_path.as_str()) {
                    Some(tp) => {
                        assert(hints_of(type_args@) =~= Seq::<HintM>::empty());
                        return tp.duplicate();
                    },
                    None => {},
                }
            }
            let args = resolve_hints(type_args, type_dict, data_decls, hint);
            match find_decl_by_name_exec(rust_path.as_str(), data_decls, type_dict) {
                Some(decl) => decl_type(decl, args),
                None => SIRType::Unresolved,
            }
        },
        TypeHint::Fun { from, to } => SIRType::Fun {
            from: Box::new(resolve_type_hint(from, type_dict, data_decls)),
            to: Box::new(resolve_type_hint(to, type_dict, data_decls)),
        },
        TypeHint::Infer => SIRType::Unresolved,
    }
}

/// Resolve each of the type argument hints of `parent`.
fn resolve_hints(v: &Vec<TypeHint>, type_dict: &TypeDict, data_decls: &NameMap<DataDecl>, parent: &TypeHint) -> (r: Vec<SIRType>)
    requires
        type_dict.wf(),
        data_decls.wf(),
        forall|i: int| 0 <= i < v@.len() ==> decreases_to!(*parent => #[trigger] v@[i]),
    ensures
        forall|c: LowerM| agrees(c, *data_decls, *type_dict) ==> tys_of(r@) == hint_tys(hints_of(v@), c),
    decreases parent, 0nat,
{
    let mut r: Vec<SIRType> = Vec::new();
    let mut i: usize = 0;
    while i < v.len()
        invariant
            0 <= i <= v@.len(),
            type_dict.wf(),
            data_decls.wf(),
            forall|c: LowerM| agrees(c, *data_decls, *type_dict) ==> tys_of(r@) == hint_tys(
                hints_of(v@.take(i as int)),
                c,
            ),
            forall|i: int| 0 <= i < v@.len() ==> decreases_to!(*parent => #[trigger] v@[i]),
        decreases v@.len() - i,
    {
        let x = resolve_type_hint(&v[i], type_dict, data_decls);
        proof {
            lemma_tys_push(r@, x);
            assert(v@.take(i + 1) == v@.take(i as int).push(v@[i as int]));
            let h = hints_of(v@.take(i + 1));
            assert(v@.take(i + 1).subrange(0, i as int) == v@.take(i as int));
            assert(h.subrange(0, h.len() - 1) == hints_of(v@.take(i as int)));
        }
        r.push(x);
        i += 1;
    }
    assert(v@.take(v@.len() as int) == v@);
    r
}

} // verus!

verus! {

use crate::model::{ann_of, lemma_sirs_of, lemma_cases_of, opt_str_of, sirs_of, cases_of, binds_of, pat_of};
use crate::pre_sir::{PreMatchArm, PrePattern, PreSIR, arms_of, pre_of, pres_of, prepat_of};
use crate::registry::{ResolutionContext, fns_of, fn_of};
use crate::sir::{Binding, BindingOf, Case, CaseOf, Pattern};
use crate::sir_type::TypeEnv;
use crate::duplicate::{dup_opt_string, dup_strings, lemma_sirs_push, lemma_cases_push, lemma_binds_push};
use crate::typing::{find_constr_exec, bind_fields_exec, sir_type};

/// The type of a constant.
fn const_type(c: &UplcConstant) -> (r: SIRType)
    ensures
        ty_of(r) == const_ty(const_of(*c)),
{
    match c {
        UplcConstant::Integer { .. } => SIRType::Integer,
        UplcConstant::ByteString { .. } => SIRType::ByteString,
        UplcConstant::String { .. } => SIRType::String,
        UplcConstant::Bool { .. } => SIRType::Boolean,
        UplcConstant::Unit => SIRType::Unit,
    }
}

/// The result type of a function type, or `Unresolved`.
fn peel_fun_result(tp: &SIRType) -> (r: SIRType)
    ensures
        ty_of(r) == peel(ty_of(*tp)),
{
    match tp {
        SIRType::Fun { to, .. } => to.duplicate(),
        _ => SIRType::Unresolved,
    }
}

/// The type `a -> b`.
fn fun_type(a: SIRType, b: SIRType) -> (r: SIRType)
    ensures
        ty_of(r) == fun_ty(ty_of(a), ty_of(b)),
{
    SIRType::Fun { from: Box::new(a), to: Box::new(b) }
}

/// `fun left right` for a binary builtin, with its types.
fn make_builtin_apply2(
    fun: DefaultFun,
    operand_tp: SIRType,
    result_tp: SIRType,
    left: SIR,
    right: SIR,
    anns: &AnnotationsDecl,
) -> (r: SIR)
    ensures
        sir_of(r) == apply2(fun, ty_of(operand_tp), ty_of(result_tp), sir_of(left), sir_of(right), ann_of(*anns)),
{
    let builtin_tp = fun_type(operand_tp.duplicate(), fun_type(operand_tp.duplicate(), result_tp.duplicate()));
    let partial_tp = fun_type(operand_tp, result_tp.duplicate());
    let b = SIR::Builtin { builtin_fun: fun, tp: builtin_tp, anns: AnnotationsDecl::empty() };
    let inner = SIR::Apply { f: Box::new(b), arg: Box::new(left), tp: partial_tp, anns: anns.duplicate() };
    assert(sir_of(inner) == SirM::Apply(Box::new(sir_of(b)), Box::new(sir_of(left)), ty_of(partial_tp), ann_of(*anns)));
    let r = SIR::Apply { f: Box::new(inner), arg: Box::new(right), tp: result_tp, anns: anns.duplicate() };
    assert(sir_of(r) == SirM::Apply(Box::new(sir_of(inner)), Box::new(sir_of(right)), ty_of(result_tp), ann_of(*anns)));
    r
}

/// The equality builtin for a type, and the type it compares at.
fn equality_fun(tp: &SIRType) -> (r: (DefaultFun, SIRType))
    ensures
        (r.0, ty_of(r.1)) == eq_fun(ty_of(*tp)),
{
    match tp {
        SIRType::Integer => (DefaultFun::EqualsInteger, SIRType::Integer),
        SIRType::ByteString => (DefaultFun::EqualsByteString, SIRType::ByteString),
        SIRType::String => (DefaultFun::EqualsString, SIRType::String),
        _ => (DefaultFun::EqualsData, SIRType::Data),
    }
}

/// The equality builtin for values of a type.
fn make_equality_builtin(tp: &SIRType) -> (r: SIR)
    ensures
        sir_of(r) == eq_builtin(ty_of(*tp)),
{
    let (fun, operand_tp) = equality_fun(tp);
    SIR::Builtin {
        builtin_fun: fun,
        tp: fun_type(operand_tp.duplicate(), fun_type(operand_tp, SIRType::Boolean)),
        anns: AnnotationsDecl::empty(),
    }
}

/// A string constant.
fn string_const(s: &String) -> (r: SIR)
    ensures
        sir_of(r) == str_const(s@),
{
    SIR::Const {
        uplc_const: UplcConstant::String { value: dup_string(s) },
        tp: SIRType::String,
        anns: AnnotationsDecl::empty(),
    }
}

/// The unit constant.
fn unit_constant() -> (r: SIR)
    ensures
        sir_of(r) == unit_const(),
{
    SIR::Const { uplc_const: UplcConstant::Unit, tp: SIRType::Unit, anns: AnnotationsDecl::empty() }
}

/// The conversion of Data to `t` (or of `t` to Data, with `to_data`), as a
/// function.
fn conversion_fn(to_data: bool, t: SIRType) -> (r: SIR)
    ensures
        to_data ==> sir_of(r) == to_data_fn(ty_of(t)),
        !to_data ==> sir_of(r) == from_data_fn(ty_of(t)),
{
    proof {
        reveal_strlit("scalus.uplc.builtin.internal.UniversalDataConversion$");
        reveal_strlit("scalus.uplc.builtin.internal.UniversalDataConversion$.toData");
        reveal_strlit("scalus.uplc.builtin.internal.UniversalDataConversion$.fromData");
        reveal_strlit(".toData");
        reveal_strlit(".fromData");
    }
    let module_name = crate::text::owned("scalus.uplc.builtin.internal.UniversalDataConversion$");
    if to_data {
        assert("scalus.uplc.builtin.internal.UniversalDataConversion$.toData"@ =~= crate::typing::conversion_module()
            + ".toData"@);
        SIR::ExternalVar {
            module_name,
            name: crate::text::owned("scalus.uplc.builtin.internal.UniversalDataConversion$.toData"),
            tp: fun_type(t, SIRType::Data),
            anns: AnnotationsDecl::empty(),
        }
    } else {
        assert("scalus.uplc.builtin.internal.UniversalDataConversion$.fromData"@ =~= crate::typing::conversion_module()
            + ".fromData"@);
        SIR::ExternalVar {
            module_name,
            name: crate::text::owned("scalus.uplc.builtin.internal.UniversalDataConversion$.fromData"),
            tp: fun_type(SIRType::Data, t),
            anns: AnnotationsDecl::empty(),
        }
    }
}

/// The environment holding the variables of a type dictionary.
fn type_env_from_type_dict(td: &TypeDict) -> (r: TypeEnv)
    ensures
        r.wf(),
        r.binds() == tymap_of(td.vars),
        r.marks().len() == 0,
{
    let mut env = TypeEnv::new();
    let mut i: usize = 0;
    let ghost m = tymap_of(td.vars);
    while i < td.vars.entries.len()
        invariant
            0 <= i <= td.vars.entries@.len(),
            m == tymap_of(td.vars),
            env.wf(),
            env.marks().len() == 0,
            env.binds() == m.take(i as int),
        decreases td.vars.entries@.len() - i,
    {
        let e = &td.vars.entries[i];
        env.insert(dup_string(&e.0), e.1.duplicate());
        assert(m.take(i + 1) =~= m.take(i as int).push(m[i as int]));
        i += 1;
    }
    assert(m.take(td.vars.entries@.len() as int) =~= m);
    env
}

/// The state of lowering one function body: the resolution context, the type
/// dictionary, the scoped environment of variable types, the typeclass
/// equality variable of a generic function, and the names of the function
/// being lowered (to recognise recursive calls).
pub struct LowerCtx<'a> {
    ctx: &'a ResolutionContext,
    type_dict: &'a TypeDict,
    env: TypeEnv,
    typeclass_eq_var: Option<String>,
    current_fn_name: Option<String>,
    current_sir_name: Option<String>,
}

impl<'a> LowerCtx<'a> {
    /// The model of the context.
    pub closed spec fn model(&self) -> LowerM {
        ctx_model(
            self.ctx.data_decls,
            self.ctx.functions,
            *self.type_dict,
            opt_str_of(self.typeclass_eq_var),
            opt_str_of(self.current_fn_name),
            opt_str_of(self.current_sir_name),
        )
    }

    /// The variable types in scope, oldest first.
    pub closed spec fn env_binds(&self) -> Seq<(Seq<char>, Ty)> {
        self.env.binds()
    }

    /// The scopes open in the environment.
    pub closed spec fn env_marks(&self) -> Seq<nat> {
        self.env.marks()
    }

    /// The tables are well formed and so is the environment.
    pub closed spec fn wf(&self) -> bool {
        &&& self.env.wf()
        &&& self.ctx.wf()
        &&& self.type_dict.wf()
    }

    /// A context for lowering with the variables of the type dictionary in
    /// scope.
    fn new(ctx: &'a ResolutionContext, type_dict: &'a TypeDict) -> (r: LowerCtx<'a>)
        requires
            ctx.wf(),
            type_dict.wf(),
        ensures
            r.wf(),
            r.model() == ctx_model(ctx.data_decls, ctx.functions, *type_dict, None, None, None),
            r.env_binds() == tymap_of(type_dict.vars),
    {
        LowerCtx {
            ctx,
            type_dict,
            env: type_env_from_type_dict(type_dict),
            typeclass_eq_var: None,
            current_fn_name: None,
            current_sir_name: None,
        }
    }

    /// The type hint resolved in this context.
    fn resolve_hint(&self, hint: &TypeHint) -> (r: SIRType)
        requires
            self.wf(),
        ensures
            ty_of(r) == hint_ty(hint_of(*hint), self.model()),
    {
        resolve_type_hint(hint, self.type_dict, &self.ctx.data_decls)
    }

    /// The type of a variable in scope, or `Unresolved`.
    fn var_type(&self, name: &str) -> (r: SIRType)
        ensures
            ty_of(r) == match env_lookup(self.env_binds(), name@) {
                Some(t) => t,
                None => Ty::Unresolved,
            },
    {
        match self.env.lookup(name) {
            Some(t) => t.duplicate(),
            None => SIRType::Unresolved,
        }
    }
}

} // verus!

verus! {

impl<'a> LowerCtx<'a> {
    /// Lower an expression to SIR in the current environment.
    pub fn lower_expr(&mut self, pre: &PreSIR) -> (r: SIR)
        requires
            old(self).wf(),
        ensures
            final(self).wf(),
            final(self).model() == old(self).model(),
            final(self).env_binds() == old(self).env_binds(),
            final(self).env_marks() == old(self).env_marks(),
            sir_of(r) == lowered(pre_of(*pre), old(self).env_binds(), old(self).model()),
        decreases pre, 2nat,
    {
        match pre {
            PreSIR::Var { name, anns } => {
                let tp = self.var_type(name.as_str());
                SIR::Var { name: dup_string(name), tp, anns: anns.duplicate() }
            },
            PreSIR::Const { value, anns } => {
                let tp = const_type(value);
                SIR::Const { uplc_const: value.duplicate(), tp, anns: anns.duplicate() }
            },
            PreSIR::Call { .. } => self.lower_call(pre),
            PreSIR::BinOp { .. } => self.lower_binop(pre),
            PreSIR::Let { .. } => self.lower_let(pre),
            PreSIR::Match { .. } => self.lower_match(pre),
            PreSIR::IfThenElse { .. } => self.lower_if(pre),
            PreSIR::Construct { .. } => self.lower_construct(pre),
            PreSIR::FieldAccess { .. } => self.lower_field(pre),
            PreSIR::FromData { .. } => self.lower_conversion(pre),
            PreSIR::ToData { .. } => self.lower_conversion(pre),
            PreSIR::Error { message, anns } => SIR::Error { msg: Box::new(string_const(message)), anns: anns.duplicate() },
            PreSIR::Require { .. } => self.lower_require(pre),
            PreSIR::Negate { .. } => self.lower_negate(pre),
        }
    }

    /// Lower each of the expressions `v` of `parent`, in the same environment.
    fn lower_all(&mut self, v: &Vec<PreSIR>, parent: &PreSIR) -> (r: Vec<SIR>)
        requires
            old(self).wf(),
            forall|i: int| 0 <= i < v@.len() ==> decreases_to!(*parent => #[trigger] v@[i]),
        ensures
            final(self).wf(),
            final(self).model() == old(self).model(),
            final(self).env_binds() == old(self).env_binds(),
            final(self).env_marks() == old(self).env_marks(),
            sirs_of(r@) == lowered_all(pres_of(v@), old(self).env_binds(), old(self).model()),
        decreases parent, 0nat,
    {
        let ghost env0 = self.env_binds();
        let ghost c = self.model();
        let mut r: Vec<SIR> = Vec::new();
        let mut i: usize = 0;
        while i < v.len()
            invariant
                0 <= i <= v@.len(),
                self.wf(),
                self.model() == c,
                self.env_binds() == env0,
                self.env_marks() == old(self).env_marks(),
                sirs_of(r@) == lowered_all(pres_of(v@.take(i as int)), env0, c),
                forall|i: int| 0 <= i < v@.len() ==> decreases_to!(*parent => #[trigger] v@[i]),
            decreases v@.len() - i,
        {
            let x = self.lower_expr(&v[i]);
            proof {
                lemma_sirs_push(r@, x);
                assert(v@.take(i + 1).subrange(0, i as int) == v@.take(i as int));
                assert(v@.take(i + 1)[i as int] == v@[i as int]);
                let ps = pres_of(v@.take(i + 1));
                assert(ps == pres_of(v@.take(i as int)).push(pre_of(v@[i as int])));
                assert(ps.subrange(0, ps.len() - 1) =~= pres_of(v@.take(i as int)));
            }
            r.push(x);
            i += 1;
        }
        assert(v@.take(v@.len() as int) == v@);
        r
    }
}

} // verus!

verus! {

impl<'a> LowerCtx<'a> {
    /// The variable holding the typeclass equality, as a term.
    fn eq_var_sir(&self, v: &String) -> (r: SIR)
        ensures
            sir_of(r) == eq_var_term(v@, self.env_binds()),
    {
        SIR::Var { name: dup_string(v), tp: self.var_type(v.as_str()), anns: AnnotationsDecl::empty() }
    }

    /// Whether a call by this path is a call of the function being lowered.
    fn is_recursive_call(&self, func_path: &str) -> (r: bool)
        ensures
            r == is_recursive(func_path@, self.model()),
    {
        let by_fn = match &self.current_fn_name {
            Some(n) => str_eq(func_path, n.as_str()),
            None => false,
        };
        let by_sir = match &self.current_sir_name {
            Some(n) => str_eq(func_path, n.as_str()),
            None => false,
        };
        by_fn || by_sir
    }

    /// Lower a call: resolve the function, apply it to the lowered arguments,
    /// then pass the typeclass arguments (the equality variable in scope for a
    /// recursive call, else the equality builtins that the callee's bounds
    /// select by the types of its arguments).
    fn lower_call(&mut self, pre: &PreSIR) -> (r: SIR)
        requires
            old(self).wf(),
            pre is Call,
        ensures
            final(self).wf(),
            final(self).model() == old(self).model(),
            final(self).env_binds() == old(self).env_binds(),
            final(self).env_marks() == old(self).env_marks(),
            sir_of(r) == lowered(pre_of(*pre), old(self).env_binds(), old(self).model()),
        decreases pre, 1nat,
    {
        match pre {
            PreSIR::Call { func_path, args, anns } => {
                let ghost c = self.model();
                let ghost env0 = self.env_binds();
                let lowered_args = self.lower_all(args, pre);
                let is_rec = self.is_recursive_call(func_path.as_str());
                let func_sir = self.ctx.resolve_call(func_path.as_str(), SIRType::Unresolved);
                let func_tp = sir_type(&func_sir);
                let (result, remaining_tp) = apply_args(func_sir, func_tp, &lowered_args, anns);
                if is_rec && self.typeclass_eq_var.is_some() {
                    let eq_var = match &self.typeclass_eq_var {
                        Some(v) => v,
                        None => unreached(),
                    };
                    let eq_sir = self.eq_var_sir(eq_var);
                    let apply_tp = peel_fun_result(&remaining_tp);
                    SIR::Apply { f: Box::new(result), arg: Box::new(eq_sir), tp: apply_tp, anns: anns.duplicate() }
                } else {
                    match self.ctx.lookup_function(func_path.as_str()) {
                        Some(fdef) => apply_bounds(result, remaining_tp, fdef, &lowered_args, anns),
                        None => result,
                    }
                }
            },
            _ => unreached(),
        }
    }

    /// Lower a binary operation. Equality goes through the typeclass variable
    /// in a generic function, else through the builtin that the left
    /// operand's type selects; arithmetic and order are the integer builtins.
    fn lower_binop(&mut self, pre: &PreSIR) -> (r: SIR)
        requires
            old(self).wf(),
            pre is BinOp,
        ensures
            final(self).wf(),
            final(self).model() == old(self).model(),
            final(self).env_binds() == old(self).env_binds(),
            final(self).env_marks() == old(self).env_marks(),
            sir_of(r) == lowered(pre_of(*pre), old(self).env_binds(), old(self).model()),
        decreases pre, 1nat,
    {
        match pre {
            PreSIR::BinOp { op, left, right, anns } => {
                let left_sir = self.lower_expr(left);
                let right_sir = self.lower_expr(right);
                self.binop_sir(*op, left_sir, right_sir, anns)
            },
            _ => unreached(),
        }
    }

    /// Lower a let: the value, then the body with the name bound to the
    /// written type (or to the value's type where none is written).
    fn lower_let(&mut self, pre: &PreSIR) -> (r: SIR)
        requires
            old(self).wf(),
            pre is Let,
        ensures
            final(self).wf(),
            final(self).model() == old(self).model(),
            final(self).env_binds() == old(self).env_binds(),
            final(self).env_marks() == old(self).env_marks(),
            sir_of(r) == lowered(pre_of(*pre), old(self).env_binds(), old(self).model()),
        decreases pre, 1nat,
    {
        match pre {
            PreSIR::Let { name, type_hint, value, body, is_rec, anns } => {
                let ghost env0 = self.env_binds();
                let value_sir = self.lower_expr(value);
                let binding_tp = match type_hint {
                    TypeHint::Infer => sir_type(&value_sir),
                    _ => self.resolve_hint(type_hint),
                };
                self.env.push_scope();
                self.env.insert(dup_string(name), binding_tp.duplicate());
                let body_sir = self.lower_expr(body);
                self.env.pop_scope();
                assert(self.env.binds() =~= env0);
                let b = BindingOf { name: dup_string(name), tp: binding_tp, value: value_sir };
                let ghost bm = (b.name@, ty_of(b.tp), sir_of(b.value));
                let mut bindings: Vec<Binding> = Vec::new();
                proof {
                    lemma_binds_push(bindings@, b);
                    assert(binds_of(bindings@) =~= Seq::<crate::model::BindM>::empty());
                }
                bindings.push(b);
                assert(binds_of(bindings@) =~= seq![bm]);
                SIR::Let {
                    bindings,
                    body: Box::new(body_sir),
                    flags: LetFlags { is_rec: *is_rec, is_lazy: false },
                    anns: anns.duplicate(),
                }
            },
            _ => unreached(),
        }
    }

    /// Lower a conditional; a missing else branch is unit, and the type is
    /// the type of the then branch.
    fn lower_if(&mut self, pre: &PreSIR) -> (r: SIR)
        requires
            old(self).wf(),
            pre is IfThenElse,
        ensures
            final(self).wf(),
            final(self).model() == old(self).model(),
            final(self).env_binds() == old(self).env_binds(),
            final(self).env_marks() == old(self).env_marks(),
            sir_of(r) == lowered(pre_of(*pre), old(self).env_binds(), old(self).model()),
        decreases pre, 1nat,
    {
        match pre {
            PreSIR::IfThenElse { cond, then_branch, else_branch, anns } => {
                let cond_sir = self.lower_expr(cond);
                let then_sir = self.lower_expr(then_branch);
                let else_sir = match else_branch {
                    Some(e) => self.lower_expr(e),
                    None => unit_constant(),
                };
                let tp = sir_type(&then_sir);
                SIR::IfThenElse {
                    cond: Box::new(cond_sir),
                    t: Box::new(then_sir),
                    f: Box::new(else_sir),
                    tp,
                    anns: anns.duplicate(),
                }
            },
            _ => unreached(),
        }
    }

    /// Lower a constructor application: the declaration is found by the type's
    /// short name, or else stands as a declaration of that name with no
    /// constructors.
    fn lower_construct(&mut self, pre: &PreSIR) -> (r: SIR)
        requires
            old(self).wf(),
            pre is Construct,
        ensures
            final(self).wf(),
            final(self).model() == old(self).model(),
            final(self).env_binds() == old(self).env_binds(),
            final(self).env_marks() == old(self).env_marks(),
            sir_of(r) == lowered(pre_of(*pre), old(self).env_binds(), old(self).model()),
        decreases pre, 1nat,
    {
        match pre {
            PreSIR::Construct { type_path, constr_name, args, anns } => {
                let lowered_args = self.lower_all(args, pre);
                let ctx = self.ctx;
                let td = self.type_dict;
                let (data, tp) = match find_decl_by_name_exec(type_path.as_str(), &ctx.data_decls, td) {
                    Some(decl) => {
                        let e: Vec<SIRType> = Vec::new();
                        assert(tys_of(e@) =~= Seq::<Ty>::empty());
                        (decl.duplicate(), decl_type(decl, e))
                    },
                    None => {
                        let d = DataDecl {
                            name: dup_string(type_path),
                            constructors: Vec::new(),
                            type_params: Vec::new(),
                            annotations: AnnotationsDecl::empty(),
                        };
                        assert(decl_of(d).constructors =~= Seq::<crate::model::ConstrM>::empty());
                        assert(decl_of(d).type_params =~= Seq::<crate::model::TvM>::empty());
                        let e: Vec<SIRType> = Vec::new();
                        assert(tys_of(e@) =~= Seq::<Ty>::empty());
                        (d, SIRType::SumCaseClass { decl_name: dup_string(type_path), type_args: e })
                    },
                };
                SIR::Constr { name: dup_string(constr_name), data, args: lowered_args, tp, anns: anns.duplicate() }
            },
            _ => unreached(),
        }
    }
}

} // verus!

verus! {

impl<'a> LowerCtx<'a> {
    /// Lower a match: the scrutinee, then each arm against its type; the
    /// match has the type of the first arm's body.
    fn lower_match(&mut self, pre: &PreSIR) -> (r: SIR)
        requires
            old(self).wf(),
            pre is Match,
        ensures
            final(self).wf(),
            final(self).model() == old(self).model(),
            final(self).env_binds() == old(self).env_binds(),
            final(self).env_marks() == old(self).env_marks(),
            sir_of(r) == lowered(pre_of(*pre), old(self).env_binds(), old(self).model()),
        decreases pre, 1nat,
    {
        match pre {
            PreSIR::Match { scrutinee, arms, anns } => {
                let scrutinee_sir = self.lower_expr(scrutinee);
                let scrutinee_tp = sir_type(&scrutinee_sir);
                let subst = build_substitution(&scrutinee_tp, &self.ctx.data_decls, self.type_dict);
                let cases = self.lower_arms(arms, &scrutinee_tp, &subst, pre);
                proof {
                    lemma_cases_of(cases@);
                }
                let tp = if cases.len() > 0 {
                    sir_type(&cases[0].body)
                } else {
                    SIRType::Unresolved
                };
                SIR::Match { scrutinee: Box::new(scrutinee_sir), cases, tp, anns: anns.duplicate() }
            },
            _ => unreached(),
        }
    }

    /// Lower each of the arms `v` of `parent`.
    fn lower_arms(&mut self, v: &Vec<PreMatchArm>, stp: &SIRType, subst: &HashMap<i64, SIRType>, parent: &PreSIR) -> (r:
        Vec<Case>)
        requires
            old(self).wf(),
            forall|i: int| 0 <= i < v@.len() ==> decreases_to!(*parent => #[trigger] v@[i].body),
            forall|c: LowerM| c.st == old(self).model().st && c.dmap == old(self).model().dmap ==>
                crate::sir_type::subst_map_of(subst@) == subst_of_type(ty_of(*stp), c),
        ensures
            final(self).wf(),
            final(self).model() == old(self).model(),
            final(self).env_binds() == old(self).env_binds(),
            final(self).env_marks() == old(self).env_marks(),
            cases_of(r@) == lowered_arms(
                arms_of(v@),
                ty_of(*stp),
                subst_of_type(ty_of(*stp), old(self).model()),
                old(self).env_binds(),
                old(self).model(),
            ),
        decreases parent, 0nat,
    {
        let ghost env0 = self.env_binds();
        let ghost c = self.model();
        let ghost m = subst_of_type(ty_of(*stp), c);
        let mut r: Vec<Case> = Vec::new();
        let mut i: usize = 0;
        while i < v.len()
            invariant
                0 <= i <= v@.len(),
                self.wf(),
                self.model() == c,
                self.env_binds() == env0,
                self.env_marks() == old(self).env_marks(),
                m == crate::sir_type::subst_map_of(subst@),
                m == subst_of_type(ty_of(*stp), c),
                cases_of(r@) == lowered_arms(arms_of(v@.take(i as int)), ty_of(*stp), m, env0, c),
                forall|i: int| 0 <= i < v@.len() ==> decreases_to!(*parent => #[trigger] v@[i].body),
            decreases v@.len() - i,
        {
            let x = self.lower_match_arm(&v[i], stp, subst);
            proof {
                lemma_cases_push(r@, x);
                assert(v@.take(i + 1).subrange(0, i as int) == v@.take(i as int));
                assert(v@.take(i + 1)[i as int] == v@[i as int]);
                let am = arms_of(v@.take(i + 1));
                let ai = (prepat_of(v@[i as int].pattern), pre_of(v@[i as int].body), ann_of(v@[i as int].anns));
                assert(am == arms_of(v@.take(i as int)).push(ai));
                assert(am.subrange(0, am.len() - 1) =~= arms_of(v@.take(i as int)));
            }
            r.push(x);
            i += 1;
        }
        assert(v@.take(v@.len() as int) == v@);
        r
    }

    /// Lower one match arm: bind the pattern's variables to the field types
    /// of its constructor (instantiated by `subst`), then lower the body.
    fn lower_match_arm(&mut self, arm: &PreMatchArm, stp: &SIRType, subst: &HashMap<i64, SIRType>) -> (r: Case)
        requires
            old(self).wf(),
        ensures
            final(self).wf(),
            final(self).model() == old(self).model(),
            final(self).env_binds() == old(self).env_binds(),
            final(self).env_marks() == old(self).env_marks(),
            (pat_of(r.pattern), sir_of(r.body), ann_of(r.anns)) == lowered_arm(
                (prepat_of(arm.pattern), pre_of(arm.body), ann_of(arm.anns)),
                ty_of(*stp),
                crate::sir_type::subst_map_of(subst@),
                old(self).env_binds(),
                old(self).model(),
            ),
        decreases arm.body, 3nat,
    {
        let ghost env0 = self.env_binds();
        let ghost c = self.model();
        let ghost m = crate::sir_type::subst_map_of(subst@);
        let ctx = self.ctx;
        let td = self.type_dict;
        self.env.push_scope();
        let pattern = match &arm.pattern {
            PrePattern::Constr { type_path, constr_name, bindings } => {
                let decl = find_decl_exec(type_path.as_str(), stp, &ctx.data_decls, td);
                match decl {
                    Some(d) => match find_constr_exec(&d.constructors, constr_name.as_str()) {
                        Some(k) => {
                            bind_fields_exec(bindings, &k.params, subst, &mut self.env);
                            proof {
                                crate::typing::lemma_bind_fields_extends(
                                    env0,
                                    bindings@.map_values(|b: String| b@),
                                    crate::model::params_of(k.params@),
                                    m,
                                );
                            }
                        },
                        None => {},
                    },
                    None => {},
                }
                let decl_name = match decl {
                    Some(d) => dup_string(&d.name),
                    None => dup_string(type_path),
                };
                let e: Vec<SIRType> = Vec::new();
                assert(tys_of(e@) =~= Seq::<Ty>::empty());
                Pattern::Constr {
                    constr_name: dup_string(constr_name),
                    decl_name,
                    bindings: dup_strings(bindings),
                    type_params_bindings: e,
                }
            },
            PrePattern::Wildcard => Pattern::Wildcard,
        };
        assert(self.env.binds() == arm_env(prepat_of(arm.pattern), ty_of(*stp), m, env0, c));
        assert(self.env.binds().take(env0.len() as int) =~= env0);
        let body = self.lower_expr(&arm.body);
        self.env.pop_scope();
        assert(self.env.binds() =~= env0);
        CaseOf { pattern, body, anns: arm.anns.duplicate() }
    }
}

} // verus!

verus! {

impl<'a> LowerCtx<'a> {
    /// A binary operation on lowered operands.
    fn binop_sir(&self, op: BinOp, left_sir: SIR, right_sir: SIR, anns: &AnnotationsDecl) -> (r: SIR)
        ensures
            sir_of(r) == binop_of(op, sir_of(left_sir), sir_of(right_sir), ann_of(*anns), self.env_binds(), self.model()),
    {
        match op {
            BinOp::Eq => {
                match &self.typeclass_eq_var {
                    Some(eq_var) => {
                        let eq_sir = self.eq_var_sir(eq_var);
                        let inner = SIR::Apply {
                            f: Box::new(eq_sir),
                            arg: Box::new(left_sir),
                            tp: SIRType::Unresolved,
                            anns: anns.duplicate(),
                        };
                        assert(sir_of(inner) == SirM::Apply(Box::new(sir_of(eq_sir)), Box::new(sir_of(left_sir)), Ty::Unresolved, ann_of(*anns)));
                        let r = SIR::Apply { f: Box::new(inner), arg: Box::new(right_sir), tp: SIRType::Boolean, anns: anns.duplicate() };
                        assert(sir_of(r) == SirM::Apply(Box::new(sir_of(inner)), Box::new(sir_of(right_sir)), Ty::Boolean, ann_of(*anns)));
                        r
                    },
                    None => {
                        let left_tp = sir_type(&left_sir);
                        let (builtin, operand_tp) = equality_fun(&left_tp);
                        make_builtin_apply2(builtin, operand_tp, SIRType::Boolean, left_sir, right_sir, anns)
                    },
                }
            },
            BinOp::Add => make_builtin_apply2(DefaultFun::AddInteger, SIRType::Integer, SIRType::Integer, left_sir, right_sir, anns),
            BinOp::Sub => make_builtin_apply2(
                DefaultFun::SubtractInteger,
                SIRType::Integer,
                SIRType::Integer,
                left_sir,
                right_sir,
                anns,
            ),
            BinOp::Mul => make_builtin_apply2(
                DefaultFun::MultiplyInteger,
                SIRType::Integer,
                SIRType::Integer,
                left_sir,
                right_sir,
                anns,
            ),
            BinOp::Lt => make_builtin_apply2(
                DefaultFun::LessThanInteger,
                SIRType::Integer,
                SIRType::Boolean,
                left_sir,
                right_sir,
                anns,
            ),
            BinOp::Le => make_builtin_apply2(
                DefaultFun::LessThanEqualsInteger,
                SIRType::Integer,
                SIRType::Boolean,
                left_sir,
                right_sir,
                anns,
            ),
        }
    }

    /// Lower a field access; its type is the field's type in the base's
    /// declaration, or `Unresolved`.
    fn lower_field(&mut self, pre: &PreSIR) -> (r: SIR)
        requires
            old(self).wf(),
            pre is FieldAccess,
        ensures
            final(self).wf(),
            final(self).model() == old(self).model(),
            final(self).env_binds() == old(self).env_binds(),
            final(self).env_marks() == old(self).env_marks(),
            sir_of(r) == lowered(pre_of(*pre), old(self).env_binds(), old(self).model()),
        decreases pre, 1nat,
    {
        match pre {
            PreSIR::FieldAccess { base, field, anns } => {
                let base_sir = self.lower_expr(base);
                let base_tp = sir_type(&base_sir);
                let field_tp = match resolve_field_type(&base_tp, field.as_str(), &self.ctx.data_decls, self.type_dict) {
                    Some(t) => t,
                    None => SIRType::Unresolved,
                };
                SIR::Select { scrutinee: Box::new(base_sir), field: dup_string(field), tp: field_tp, anns: anns.duplicate() }
            },
            _ => unreached(),
        }
    }

    /// Lower a conversion from or to Data into an application of the
    /// conversion function, annotated as such.
    fn lower_conversion(&mut self, pre: &PreSIR) -> (r: SIR)
        requires
            old(self).wf(),
            pre is FromData || pre is ToData,
        ensures
            final(self).wf(),
            final(self).model() == old(self).model(),
            final(self).env_binds() == old(self).env_binds(),
            final(self).env_marks() == old(self).env_marks(),
            sir_of(r) == lowered(pre_of(*pre), old(self).env_binds(), old(self).model()),
        decreases pre, 1nat,
    {
        match pre {
            PreSIR::FromData { arg, target_type, .. } => {
                let arg_sir = self.lower_expr(arg);
                let target_tp = self.resolve_hint(target_type);
                let f = conversion_fn(false, target_tp.duplicate());
                SIR::Apply { f: Box::new(f), arg: Box::new(arg_sir), tp: target_tp, anns: AnnotationsDecl::with_from_data() }
            },
            PreSIR::ToData { arg, source_type, .. } => {
                let arg_sir = self.lower_expr(arg);
                let source_tp = match source_type {
                    TypeHint::Infer => sir_type(&arg_sir),
                    _ => self.resolve_hint(source_type),
                };
                let f = conversion_fn(true, source_tp);
                SIR::Apply { f: Box::new(f), arg: Box::new(arg_sir), tp: SIRType::Data, anns: AnnotationsDecl::with_to_data() }
            },
            _ => unreached(),
        }
    }

    /// Lower a requirement: unit where the condition holds, else an error.
    fn lower_require(&mut self, pre: &PreSIR) -> (r: SIR)
        requires
            old(self).wf(),
            pre is Require,
        ensures
            final(self).wf(),
            final(self).model() == old(self).model(),
            final(self).env_binds() == old(self).env_binds(),
            final(self).env_marks() == old(self).env_marks(),
            sir_of(r) == lowered(pre_of(*pre), old(self).env_binds(), old(self).model()),
        decreases pre, 1nat,
    {
        match pre {
            PreSIR::Require { cond, message, anns } => {
                let cond_sir = self.lower_expr(cond);
                let msg = string_const(message);
                let err = SIR::Error { msg: Box::new(msg), anns: AnnotationsDecl::empty() };
                assert(sir_of(err) == SirM::Error(Box::new(str_const(message@)), empty_anns()));
                let u = unit_constant();
                let r = SIR::IfThenElse {
                    cond: Box::new(cond_sir),
                    t: Box::new(u),
                    f: Box::new(err),
                    tp: SIRType::Unit,
                    anns: anns.duplicate(),
                };
                assert(sir_of(r) == SirM::IfThenElse(
                    Box::new(sir_of(cond_sir)),
                    Box::new(unit_const()),
                    Box::new(sir_of(err)),
                    Ty::Unit,
                    ann_of(*anns),
                ));
                r
            },
            _ => unreached(),
        }
    }

    /// Lower a negation into `0 - x`.
    fn lower_negate(&mut self, pre: &PreSIR) -> (r: SIR)
        requires
            old(self).wf(),
            pre is Negate,
        ensures
            final(self).wf(),
            final(self).model() == old(self).model(),
            final(self).env_binds() == old(self).env_binds(),
            final(self).env_marks() == old(self).env_marks(),
            sir_of(r) == lowered(pre_of(*pre), old(self).env_binds(), old(self).model()),
        decreases pre, 1nat,
    {
        match pre {
            PreSIR::Negate { expr, anns } => {
                let inner = self.lower_expr(expr);
                let zero = SIR::Const {
                    uplc_const: UplcConstant::Integer { value: Integer::zero() },
                    tp: SIRType::Integer,
                    anns: AnnotationsDecl::empty(),
                };
                make_builtin_apply2(DefaultFun::SubtractInteger, SIRType::Integer, SIRType::Integer, zero, inner, anns)
            },
            _ => unreached(),
        }
    }
}

} // verus!

verus! {

/// `f` applied to each argument in turn, each application typed by peeling
/// the function type; the term and the type that remains.
fn apply_args(f: SIR, ftp: SIRType, args: &Vec<SIR>, anns: &AnnotationsDecl) -> (r: (SIR, SIRType))
    ensures
        (sir_of(r.0), ty_of(r.1)) == apply_chain(sir_of(f), ty_of(ftp), sirs_of(args@), ann_of(*anns)),
{
    let ghost lm = sirs_of(args@);
    let ghost f0 = sir_of(f);
    let ghost t0 = ty_of(ftp);
    let ghost a = ann_of(*anns);
    proof {
        lemma_sirs_of(args@);
    }
    let mut result = f;
    let mut remaining_tp = ftp;
    let mut i: usize = 0;
    while i < args.len()
        invariant
            0 <= i <= args@.len(),
            lm == sirs_of(args@),
            lm.len() == args@.len(),
            forall|j: int| 0 <= j < args@.len() ==> #[trigger] lm[j] == sir_of(args@[j]),
            (sir_of(result), ty_of(remaining_tp)) == apply_chain(f0, t0, lm.take(i as int), a),
            a == ann_of(*anns),
        decreases args@.len() - i,
    {
        let apply_tp = peel_fun_result(&remaining_tp);
        proof {
            assert(lm.take(i + 1).subrange(0, i as int) == lm.take(i as int));
            assert(lm.take(i + 1)[i as int] == lm[i as int]);
        }
        result = SIR::Apply {
            f: Box::new(result),
            arg: Box::new(args[i].duplicate()),
            tp: apply_tp.duplicate(),
            anns: anns.duplicate(),
        };
        remaining_tp = apply_tp;
        i += 1;
    }
    assert(lm.take(args@.len() as int) == lm);
    (result, remaining_tp)
}

/// The equality arguments that a call passes for the typeclass bounds of its
/// callee.
fn apply_bounds(r0: SIR, t0: SIRType, fdef: &crate::registry::FunctionDef, args: &Vec<SIR>, anns: &AnnotationsDecl) -> (r:
    SIR)
    ensures
        sir_of(r) == bound_chain(sir_of(r0), ty_of(t0), fn_of(*fdef).bounds, sirs_of(args@), ann_of(*anns)).0,
{
    let ghost bm = fn_of(*fdef).bounds;
    let ghost lm = sirs_of(args@);
    let ghost a = ann_of(*anns);
    let ghost rm0 = sir_of(r0);
    let ghost tm0 = ty_of(t0);
    proof {
        lemma_sirs_of(args@);
        reveal_strlit("PartialEq");
    }
    let mut result = r0;
    let mut remaining_tp = t0;
    let mut j: usize = 0;
    while j < fdef.typeclass_bounds.len()
        invariant
            0 <= j <= fdef.typeclass_bounds@.len(),
            bm == fn_of(*fdef).bounds,
            bm.len() == fdef.typeclass_bounds@.len(),
            lm == sirs_of(args@),
            lm.len() == args@.len(),
            forall|k: int| 0 <= k < args@.len() ==> #[trigger] lm[k] == sir_of(args@[k]),
            (sir_of(result), ty_of(remaining_tp)) == bound_chain(rm0, tm0, bm.take(j as int), lm, a),
            a == ann_of(*anns),
        decreases fdef.typeclass_bounds@.len() - j,
    {
        let bound = &fdef.typeclass_bounds[j];
        proof {
            assert(bm.take(j + 1).subrange(0, j as int) == bm.take(j as int));
            assert(bm.take(j + 1)[j as int] == (bound.typeclass@, bound.elem_arg_index));
        }
        if str_eq(bound.typeclass.as_str(), "PartialEq") {
            let elem_tp = if bound.elem_arg_index < args.len() {
                sir_type(&args[bound.elem_arg_index])
            } else {
                SIRType::Data
            };
            let eq_sir = make_equality_builtin(&elem_tp);
            let apply_tp = peel_fun_result(&remaining_tp);
            result = SIR::Apply { f: Box::new(result), arg: Box::new(eq_sir), tp: apply_tp.duplicate(), anns: anns.duplicate() };
            remaining_tp = apply_tp;
        }
        j += 1;
    }
    assert(bm.take(fdef.typeclass_bounds@.len() as int) == bm);
    result
}

} // verus!

verus! {

use crate::model::TvM;
use crate::pre_sir::{PreFnDef, PreParam};

// ---------------------------------------------------------------------------
// Function definitions, on models
// ---------------------------------------------------------------------------

/// The SIR types of the parameters.
pub open spec fn param_tys(ps: Seq<PreParam>, c: LowerM) -> Seq<Ty> {
    ps.map_values(|p: PreParam| hint_ty(hint_of(p.type_hint), c))
}

/// The name of the type variable with 1-based index `idx`: the generic
/// parameter at that place, or `T`.
pub open spec fn tv_name(gps: Seq<Seq<char>>, idx: i64) -> Seq<char> {
    if 1 <= idx && idx - 1 < gps.len() {
        gps[idx - 1]
    } else {
        "T"@
    }
}

/// The type of the equality on type variable `idx`.
pub open spec fn eq_ty(gps: Seq<Seq<char>>, idx: i64) -> Ty {
    let tv = Ty::TypeVar(tv_name(gps, idx), Some(idx), false);
    fun_ty(tv, fun_ty(tv, Ty::Boolean))
}

/// `ret` behind one equality parameter for each `PartialEq` bound, the first
/// bound outermost.
pub open spec fn with_eqs(bs: Seq<(Seq<char>, i64)>, gps: Seq<Seq<char>>, ret: Ty) -> Ty
    decreases bs.len(),
{
    if bs.len() == 0 {
        ret
    } else if bs[0].0 == "PartialEq"@ {
        fun_ty(eq_ty(gps, bs[0].1), with_eqs(bs.drop_first(), gps, ret))
    } else {
        with_eqs(bs.drop_first(), gps, ret)
    }
}

/// The equality type of the first `PartialEq` bound, if any.
pub open spec fn first_eq(bs: Seq<(Seq<char>, i64)>, gps: Seq<Seq<char>>) -> Option<Ty>
    decreases bs.len(),
{
    if bs.len() == 0 {
        None
    } else if bs[0].0 == "PartialEq"@ {
        Some(eq_ty(gps, bs[0].1))
    } else {
        first_eq(bs.drop_first(), gps)
    }
}

/// `inner` behind one parameter of each type, the first outermost.
pub open spec fn with_params(ts: Seq<Ty>, inner: Ty) -> Ty
    decreases ts.len(),
{
    if ts.len() == 0 {
        inner
    } else {
        fun_ty(ts[0], with_params(ts.drop_first(), inner))
    }
}

/// The bounds of a definition, as trait name and type parameter index.
pub open spec fn bounds_of(def: PreFnDef) -> Seq<(Seq<char>, i64)> {
    def.typeclass_bounds@.map_values(|b: crate::pre_sir::TypeclassBound| (b.trait_name@, b.type_param_index))
}

/// The generic parameter names of a definition.
pub open spec fn gps_of(def: PreFnDef) -> Seq<Seq<char>> {
    def.generic_params@.map_values(|g: String| g@)
}

/// The SIR type of a function definition.
pub open spec fn def_type(def: PreFnDef, c: LowerM) -> Ty {
    with_params(param_tys(def.params@, c), with_eqs(bounds_of(def), gps_of(def), hint_ty(hint_of(def.ret_type), c)))
}

/// The position of the first parameter written as type parameter `idx`.
pub open spec fn first_tp(ps: Seq<PreParam>, idx: i64) -> Option<int>
    decreases ps.len(),
{
    if ps.len() == 0 {
        None
    } else {
        match first_tp(ps.subrange(0, ps.len() - 1), idx) {
            Some(j) => Some(j),
            None => if is_tp(ps[ps.len() - 1].type_hint, idx) {
                Some(ps.len() - 1)
            } else {
                None
            },
        }
    }
}

/// The position of the first parameter written as type parameter `idx`, or 0.
pub open spec fn elem_index(ps: Seq<PreParam>, idx: i64) -> int {
    match first_tp(ps, idx) {
        Some(j) => j,
        None => 0,
    }
}

/// A hint is type parameter `idx`.
pub open spec fn is_tp(h: TypeHint, idx: i64) -> bool {
    h matches TypeHint::TypeParam { index, .. } && index == idx
}

/// The typeclass arguments that callers of a definition pass.
pub open spec fn caller_bounds(def: PreFnDef) -> Seq<(Seq<char>, usize)> {
    def.typeclass_bounds@.map_values(
        |b: crate::pre_sir::TypeclassBound| (b.trait_name@, elem_index(def.params@, b.type_param_index) as usize),
    )
}

/// The signature that a definition registers.
pub open spec fn def_fn(def: PreFnDef, c: LowerM) -> FnM {
    FnM {
        module_name: match def.module {
            Some(m) => m@,
            None => Seq::empty(),
        },
        fn_name: def.sir_name@,
        tp: def_type(def, c),
        bounds: caller_bounds(def),
    }
}

/// The function table once the definition is registered.
pub open spec fn with_def(fns: spec_fn(Seq<char>) -> Option<FnM>, def: PreFnDef, c: LowerM) -> spec_fn(Seq<char>) -> Option<FnM> {
    |k: Seq<char>| if k == def.rust_name@ || k == def.sir_name@ {
        Some(def_fn(def, c))
    } else {
        fns(k)
    }
}

/// The parameters as bindings of the environment.
pub open spec fn param_binds(ps: Seq<PreParam>, ts: Seq<Ty>) -> Seq<(Seq<char>, Ty)> {
    Seq::new(ps.len(), |i: int| (ps[i].name@, ts[i]))
}

/// The environment that the body of a definition is lowered in: the
/// dictionary's variables, the equality variable, then the parameters.
pub open spec fn body_env(def: PreFnDef, c: LowerM) -> Seq<(Seq<char>, Ty)> {
    let eqs = match first_eq(bounds_of(def), gps_of(def)) {
        Some(t) => seq![("__eq"@, t)],
        None => Seq::empty(),
    };
    crate::pre_sir::tymap_of(def.type_dict.vars) + eqs + param_binds(def.params@, param_tys(def.params@, c))
}

/// The context that the body of a definition is lowered in.
pub open spec fn body_ctx(def: PreFnDef, c: LowerM) -> LowerM {
    LowerM {
        st: c.st,
        fns: with_def(c.fns, def, c),
        tmap: c.tmap,
        dmap: c.dmap,
        eq_var: match first_eq(bounds_of(def), gps_of(def)) {
            Some(_) => Some("__eq"@),
            None => None,
        },
        cur_fn: Some(def.rust_name@),
        cur_sir: Some(def.sir_name@),
    }
}

/// Lambdas for the parameters around `inner`, the first outermost and
/// carrying `tvs`.
pub open spec fn with_lams(ps: Seq<(Seq<char>, Ty)>, inner: SirM, tvs: Seq<TvM>) -> SirM
    decreases ps.len(),
{
    if ps.len() == 0 {
        inner
    } else {
        SirM::LamAbs(
            Box::new(SirM::Var(ps[0].0, ps[0].1, empty_anns())),
            Box::new(with_lams(ps.drop_first(), inner, Seq::empty())),
            tvs,
            empty_anns(),
        )
    }
}

/// The type variables of the generic parameters, numbered from 1.
pub open spec fn generic_tvs(gps: Seq<Seq<char>>) -> Seq<TvM> {
    Seq::new(gps.len(), |k: int| TvM { name: gps[k], opt_id: Some((k + 1) as i64), is_builtin: false })
}

/// The declarations that params of a definition name, where found.
pub open spec fn param_decls(ps: Seq<PreParam>, c: LowerM) -> Seq<DeclM>
    decreases ps.len(),
{
    if ps.len() == 0 {
        Seq::empty()
    } else {
        let pre = param_decls(ps.subrange(0, ps.len() - 1), c);
        match find_decl_by_name(ps[ps.len() - 1].rust_type_path@, c) {
            Some(d) => pre.push(d),
            None => pre,
        }
    }
}

/// `inner` wrapped in a declaration node for each declaration whose name has
/// not come before, the first innermost; and the names seen.
pub open spec fn wrap_decls(ds: Seq<DeclM>, inner: SirM) -> (SirM, Set<Seq<char>>)
    decreases ds.len(),
{
    if ds.len() == 0 {
        (inner, Set::empty())
    } else {
        let (t, seen) = wrap_decls(ds.subrange(0, ds.len() - 1), inner);
        let d = ds[ds.len() - 1];
        if seen.contains(d.name) {
            (t, seen)
        } else {
            (SirM::Decl(d, Box::new(t)), seen.insert(d.name))
        }
    }
}

/// The SIR value of a definition.
pub open spec fn def_value(def: PreFnDef, c: LowerM) -> SirM {
    let body = lowered(pre_of(def.body), body_env(def, c), body_ctx(def, c));
    let inner = match first_eq(bounds_of(def), gps_of(def)) {
        Some(t) => SirM::LamAbs(
            Box::new(SirM::Var("__eq"@, t, empty_anns())),
            Box::new(body),
            Seq::empty(),
            empty_anns(),
        ),
        None => body,
    };
    let tvs = if def.generic_params@.len() > 0 {
        generic_tvs(gps_of(def))
    } else {
        Seq::empty()
    };
    let lams = with_lams(param_binds(def.params@, param_tys(def.params@, c)), inner, tvs);
    let decls = c.dmap.map_values(|e: (Seq<char>, DeclM)| e.1) + param_decls(def.params@, c);
    wrap_decls(decls, lams).0
}

} // verus!

verus! {

use crate::pre_sir::TypeclassBound as PreBound;
use crate::registry::TypeclassBound;

/// The SIR types of the parameters.
fn param_types_exec(params: &Vec<PreParam>, td: &TypeDict, st: &NameMap<DataDecl>) -> (r: Vec<SIRType>)
    requires
        td.wf(),
        st.wf(),
    ensures
        r@.len() == params@.len(),
        forall|c: LowerM| agrees(c, *st, *td) ==> tys_of(r@) == param_tys(params@, c),
        forall|c: LowerM, i: int| #![trigger agrees(c, *st, *td), r@[i]] agrees(c, *st, *td) && 0 <= i < params@.len() ==> ty_of(r@[i]) == hint_ty(
            hint_of(params@[i].type_hint),
            c,
        ),
{
    let mut r: Vec<SIRType> = Vec::new();
    let mut i: usize = 0;
    while i < params.len()
        invariant
            0 <= i <= params@.len(),
            td.wf(),
            st.wf(),
            r@.len() == i,
            forall|c: LowerM, j: int| #![trigger agrees(c, *st, *td), r@[j]] agrees(c, *st, *td) && 0 <= j < i ==> ty_of(r@[j]) == hint_ty(
                hint_of(params@[j].type_hint),
                c,
            ),
        decreases params@.len() - i,
    {
        r.push(resolve_type_hint(&params[i].type_hint, td, st));
        i += 1;
    }
    proof {
        lemma_tys_of(r@);
        assert forall|c: LowerM| agrees(c, *st, *td) implies tys_of(r@) == param_tys(params@, c) by {
            assert(tys_of(r@) =~= param_tys(params@, c));
        }
    }
    r
}

/// The name of type variable `idx`: the generic parameter at that place, or `T`.
fn tv_name_exec(gps: &Vec<String>, idx: i64) -> (r: String)
    ensures
        r@ == tv_name(gps@.map_values(|g: String| g@), idx),
{
    if idx >= 1 && ((idx - 1) as u64) < (gps.len() as u64) {
        dup_string(&gps[(idx - 1) as usize])
    } else {
        proof {
            reveal_strlit("T");
        }
        crate::text::owned("T")
    }
}

/// The type of the equality on type variable `idx`.
fn eq_type_exec(gps: &Vec<String>, idx: i64) -> (r: SIRType)
    ensures
        ty_of(r) == eq_ty(gps@.map_values(|g: String| g@), idx),
{
    let name = tv_name_exec(gps, idx);
    let tv = SIRType::TypeVar { name, opt_id: Some(idx), is_builtin: false };
    fun_type(tv.duplicate(), fun_type(tv, SIRType::Boolean))
}

/// `ret` behind an equality parameter for each `PartialEq` bound, and the
/// equality type of the first such bound.
fn eq_params(bounds: &Vec<PreBound>, gps: &Vec<String>, ret: SIRType) -> (r: (SIRType, Option<SIRType>))
    ensures
        ({
            let bm = bounds@.map_values(|b: PreBound| (b.trait_name@, b.type_param_index));
            let gm = gps@.map_values(|g: String| g@);
            &&& ty_of(r.0) == with_eqs(bm, gm, ty_of(ret))
            &&& (r.1 matches Some(t) ==> first_eq(bm, gm) == Some(ty_of(t)))
            &&& (r.1 is None ==> first_eq(bm, gm) is None)
        }),
{
    let ghost bm = bounds@.map_values(|b: PreBound| (b.trait_name@, b.type_param_index));
    let ghost gm = gps@.map_values(|g: String| g@);
    let ghost rt = ty_of(ret);
    let mut fn_type = ret;
    let mut eq: Option<SIRType> = None;
    let mut i: usize = bounds.len();
    proof {
        reveal_strlit("PartialEq");
        assert(bm.skip(i as int) =~= Seq::<(Seq<char>, i64)>::empty());
    }
    while i > 0
        invariant
            0 <= i <= bounds@.len(),
            bm == bounds@.map_values(|b: PreBound| (b.trait_name@, b.type_param_index)),
            gm == gps@.map_values(|g: String| g@),
            ty_of(fn_type) == with_eqs(bm.skip(i as int), gm, rt),
            eq matches Some(t) ==> first_eq(bm.skip(i as int), gm) == Some(ty_of(t)),
            eq is None ==> first_eq(bm.skip(i as int), gm) is None,
        decreases i,
    {
        i -= 1;
        let b = &bounds[i];
        assert(bm.skip(i as int).drop_first() =~= bm.skip(i + 1));
        assert(bm.skip(i as int)[0] == (b.trait_name@, b.type_param_index));
        if str_eq(b.trait_name.as_str(), "PartialEq") {
            let eq_type = eq_type_exec(gps, b.type_param_index);
            fn_type = fun_type(eq_type.duplicate(), fn_type);
            eq = Some(eq_type);
        }
    }
    assert(bm.skip(0) =~= bm);
    (fn_type, eq)
}

/// `inner` behind one parameter of each type, the first outermost.
fn wrap_param_types(ts: &Vec<SIRType>, inner: SIRType) -> (r: SIRType)
    ensures
        ty_of(r) == with_params(tys_of(ts@), ty_of(inner)),
{
    let ghost tm = tys_of(ts@);
    let ghost it = ty_of(inner);
    proof {
        lemma_tys_of(ts@);
    }
    let mut fn_type = inner;
    let mut i: usize = ts.len();
    assert(tm.skip(i as int) =~= Seq::<Ty>::empty());
    while i > 0
        invariant
            0 <= i <= ts@.len(),
            tm == tys_of(ts@),
            tm.len() == ts@.len(),
            forall|j: int| 0 <= j < ts@.len() ==> #[trigger] tm[j] == ty_of(ts@[j]),
            ty_of(fn_type) == with_params(tm.skip(i as int), it),
        decreases i,
    {
        i -= 1;
        assert(tm.skip(i as int).drop_first() =~= tm.skip(i + 1));
        assert(tm.skip(i as int)[0] == ty_of(ts@[i as int]));
        fn_type = fun_type(ts[i].duplicate(), fn_type);
    }
    assert(tm.skip(0) =~= tm);
    fn_type
}

/// The position of the first parameter written as type parameter `idx`, or 0.
fn elem_index_exec(params: &Vec<PreParam>, idx: i64) -> (r: usize)
    ensures
        r == elem_index(params@, idx),
{
    let mut i: usize = 0;
    let mut found: Option<usize> = None;
    while i < params.len()
        invariant
            0 <= i <= params@.len(),
            found matches Some(j) ==> first_tp(params@.take(i as int), idx) == Some(j as int),
            found is None ==> first_tp(params@.take(i as int), idx) is None,
        decreases params@.len() - i,
    {
        assert(params@.take(i + 1).subrange(0, i as int) == params@.take(i as int));
        assert(params@.take(i + 1)[i as int] == params@[i as int]);
        if found.is_none() {
            let hit = match &params[i].type_hint {
                TypeHint::TypeParam { index, .. } => *index == idx,
                _ => false,
            };
            if hit {
                found = Some(i);
            }
        }
        i += 1;
    }
    assert(params@.take(params@.len() as int) == params@);
    match found {
        Some(j) => j,
        None => 0,
    }
}

/// The typeclass arguments that callers of a definition pass.
fn caller_bounds_exec(def: &PreFnDef) -> (r: Vec<TypeclassBound>)
    ensures
        r@.map_values(|b: TypeclassBound| (b.typeclass@, b.elem_arg_index)) == caller_bounds(*def),
{
    let mut r: Vec<TypeclassBound> = Vec::new();
    let mut i: usize = 0;
    while i < def.typeclass_bounds.len()
        invariant
            0 <= i <= def.typeclass_bounds@.len(),
            r@.len() == i,
            forall|j: int| 0 <= j < i ==> (#[trigger] r@[j]).typeclass@ == def.typeclass_bounds@[j].trait_name@
                && r@[j].elem_arg_index as int == elem_index(def.params@, def.typeclass_bounds@[j].type_param_index),
        decreases def.typeclass_bounds@.len() - i,
    {
        let b = &def.typeclass_bounds[i];
        let idx = elem_index_exec(&def.params, b.type_param_index);
        r.push(TypeclassBound { typeclass: dup_string(&b.trait_name), elem_arg_index: idx });
        i += 1;
    }
    assert(r@.map_values(|b: TypeclassBound| (b.typeclass@, b.elem_arg_index)) =~= caller_bounds(*def));
    r
}

} // verus!

verus! {

/// The names in a sequence of strings, as a set.
pub open spec fn names_set(v: Seq<String>) -> Set<Seq<char>> {
    Set::new(|n: Seq<char>| exists|i: int| 0 <= i < v.len() && #[trigger] v[i]@ == n)
}

/// Whether a name occurs among `v`.
fn contains_name(v: &Vec<String>, name: &str) -> (r: bool)
    ensures
        r == names_set(v@).contains(name@),
{
    let mut i: usize = 0;
    while i < v.len()
        invariant
            0 <= i <= v@.len(),
            forall|j: int| 0 <= j < i ==> #[trigger] v@[j]@ != name@,
        decreases v@.len() - i,
    {
        if str_eq(v[i].as_str(), name) {
            assert(v@[i as int]@ == name@);
            return true;
        }
        i += 1;
    }
    false
}

/// Lambdas for the parameters around `inner`, the first outermost and
/// carrying the generic parameters as type variables numbered from 1.
fn wrap_lams_exec(params: &Vec<PreParam>, tys: &Vec<SIRType>, inner: SIR, gps: &Vec<String>) -> (r: SIR)
    requires
        params@.len() == tys@.len(),
    ensures
        sir_of(r) == with_lams(
            param_binds(params@, tys_of(tys@)),
            sir_of(inner),
            if gps@.len() > 0 {
                generic_tvs(gps@.map_values(|g: String| g@))
            } else {
                Seq::empty()
            },
        ),
{
    let ghost gm = gps@.map_values(|g: String| g@);
    let ghost tvs = if gps@.len() > 0 {
        generic_tvs(gm)
    } else {
        Seq::<TvM>::empty()
    };
    let ghost pb = param_binds(params@, tys_of(tys@));
    let ghost im = sir_of(inner);
    proof {
        lemma_tys_of(tys@);
    }
    let mut generic: Vec<crate::sir_type::TypeVar> = Vec::new();
    let mut k: usize = 0;
    while k < gps.len()
        invariant
            0 <= k <= gps@.len(),
            gm == gps@.map_values(|g: String| g@),
            generic@.len() == k,
            forall|j: int| 0 <= j < k ==> #[trigger] crate::model::tv_of(generic@[j]) == (TvM {
                name: gm[j],
                opt_id: Some((j + 1) as i64),
                is_builtin: false,
            }),
        decreases gps@.len() - k,
    {
        generic.push(crate::sir_type::TypeVar { name: dup_string(&gps[k]), opt_id: Some((k + 1) as i64), is_builtin: false });
        k += 1;
    }
    assert(crate::model::tvs_of(generic@) =~= tvs);
    let mut value = inner;
    let mut i: usize = params.len();
    assert(pb.skip(i as int) =~= Seq::<(Seq<char>, Ty)>::empty());
    while i > 0
        invariant
            0 <= i <= params@.len(),
            params@.len() == tys@.len(),
            pb == param_binds(params@, tys_of(tys@)),
            tys_of(tys@).len() == tys@.len(),
            forall|j: int| 0 <= j < tys@.len() ==> #[trigger] tys_of(tys@)[j] == ty_of(tys@[j]),
            crate::model::tvs_of(generic@) == tvs,
            im == sir_of(inner),
            i > 0 ==> sir_of(value) == with_lams(pb.skip(i as int), im, Seq::empty()),
            i == 0 ==> sir_of(value) == with_lams(pb, im, tvs),
        decreases i,
    {
        i -= 1;
        assert(pb.skip(i as int).drop_first() =~= pb.skip(i + 1));
        assert(pb.skip(i as int)[0] == (params@[i as int].name@, ty_of(tys@[i as int])));
        let type_params = if i == 0 {
            crate::duplicate::dup_type_vars(&generic)
        } else {
            let e: Vec<crate::sir_type::TypeVar> = Vec::new();
            assert(crate::model::tvs_of(e@) =~= Seq::<TvM>::empty());
            e
        };
        let p = SIR::Var { name: dup_string(&params[i].name), tp: tys[i].duplicate(), anns: AnnotationsDecl::empty() };
        assert(sir_of(p) == SirM::Var(params@[i as int].name@, ty_of(tys@[i as int]), empty_anns()));
        assert(crate::model::tvs_of(type_params@) == if i == 0 { tvs } else { Seq::<TvM>::empty() });
        let ghost prev = sir_of(value);
        assert(prev == with_lams(pb.skip(i + 1), im, Seq::empty()));
        value = SIR::LamAbs { param: Box::new(p), term: Box::new(value), type_params, anns: AnnotationsDecl::empty() };
        proof {
            let tp_m = if i == 0 { tvs } else { Seq::<TvM>::empty() };
            assert(sir_of(value) == SirM::LamAbs(
                Box::new(SirM::Var(params@[i as int].name@, ty_of(tys@[i as int]), empty_anns())),
                Box::new(prev),
                tp_m,
                empty_anns(),
            ));
            assert(with_lams(pb.skip(i as int), im, tp_m) == SirM::LamAbs(
                Box::new(SirM::Var(params@[i as int].name@, ty_of(tys@[i as int]), empty_anns())),
                Box::new(with_lams(pb.skip(i + 1), im, Seq::empty())),
                tp_m,
                empty_anns(),
            ));
            if i == 0 {
                assert(pb.skip(0) =~= pb);
            }
        }
    }
    value
}

/// `inner` wrapped in a declaration node for each declaration of the type
/// dictionary, then for each one that a parameter's type names, skipping
/// names already wrapped.
fn wrap_decls_exec(inner: SIR, td: &TypeDict, st: &NameMap<DataDecl>, params: &Vec<PreParam>) -> (r: SIR)
    requires
        td.wf(),
        st.wf(),
    ensures
        forall|c: LowerM| agrees(c, *st, *td) ==> sir_of(r) == wrap_decls(
            c.dmap.map_values(|e: (Seq<char>, DeclM)| e.1) + param_decls(params@, c),
            sir_of(inner),
        ).0,
{
    let ghost im = sir_of(inner);
    let ghost dvals = st_of(td.decl_map).map_values(|e: (Seq<char>, DeclM)| e.1);
    let mut seen: Vec<String> = Vec::new();
    let mut value = inner;
    let mut i: usize = 0;
    assert(names_set(seen@) =~= Set::<Seq<char>>::empty());
    while i < td.decl_map.entries.len()
        invariant
            0 <= i <= td.decl_map.entries@.len(),
            dvals == st_of(td.decl_map).map_values(|e: (Seq<char>, DeclM)| e.1),
            dvals.len() == td.decl_map.entries@.len(),
            im == sir_of(inner),
            (sir_of(value), names_set(seen@)) == wrap_decls(dvals.take(i as int), im),
        decreases td.decl_map.entries@.len() - i,
    {
        let decl = &td.decl_map.entries[i].1;
        assert(dvals.take(i + 1).subrange(0, i as int) == dvals.take(i as int));
        assert(dvals.take(i + 1)[i as int] == decl_of(*decl));
        if !contains_name(&seen, decl.name.as_str()) {
            let ghost before = seen@;
            seen.push(dup_string(&decl.name));
            assert(names_set(seen@) =~= names_set(before).insert(decl.name@)) by {
                assert forall|n: Seq<char>| names_set(seen@).contains(n) implies names_set(before).insert(decl.name@).contains(n) by {
                    let j = choose|j: int| 0 <= j < seen@.len() && #[trigger] seen@[j]@ == n;
                    if j < before.len() {
                        assert(before[j] == seen@[j]);
                    }
                }
                assert forall|n: Seq<char>| names_set(before).insert(decl.name@).contains(n) implies names_set(seen@).contains(n) by {
                    if n == decl.name@ {
                        assert(seen@[before.len() as int]@ == n);
                    } else {
                        let j = choose|j: int| 0 <= j < before.len() && #[trigger] before[j]@ == n;
                        assert(seen@[j] == before[j]);
                    }
                }
            }
            value = SIR::Decl { data: decl.duplicate(), term: Box::new(value) };
        }
        i += 1;
    }
    assert(dvals.take(dvals.len() as int) == dvals);
    let mut j: usize = 0;
    assert(forall|c: LowerM| agrees(c, *st, *td) ==> (#[trigger] param_decls(params@.take(0), c)) =~= Seq::<DeclM>::empty());
    while j < params.len()
        invariant
            0 <= j <= params@.len(),
            td.wf(),
            st.wf(),
            dvals == st_of(td.decl_map).map_values(|e: (Seq<char>, DeclM)| e.1),
            im == sir_of(inner),
            forall|c: LowerM| #[trigger] agrees(c, *st, *td) ==> (sir_of(value), names_set(seen@)) == wrap_decls(
                dvals + param_decls(params@.take(j as int), c),
                im,
            ),
        decreases params@.len() - j,
    {
        assert(params@.take(j + 1).subrange(0, j as int) == params@.take(j as int));
        assert(params@.take(j + 1)[j as int] == params@[j as int]);
        match find_decl_by_name_exec(params[j].rust_type_path.as_str(), st, td) {
            Some(decl) => {
                let ghost before = seen@;
                let ghost v0 = sir_of(value);
                if !contains_name(&seen, decl.name.as_str()) {
                    seen.push(dup_string(&decl.name));
                    assert(names_set(seen@) =~= names_set(before).insert(decl.name@)) by {
                        assert forall|n: Seq<char>| names_set(seen@).contains(n) implies names_set(before).insert(decl.name@).contains(n) by {
                            let k = choose|k: int| 0 <= k < seen@.len() && #[trigger] seen@[k]@ == n;
                            if k < before.len() {
                                assert(before[k] == seen@[k]);
                            }
                        }
                        assert forall|n: Seq<char>| names_set(before).insert(decl.name@).contains(n) implies names_set(seen@).contains(n) by {
                            if n == decl.name@ {
                                assert(seen@[before.len() as int]@ == n);
                            } else {
                                let k = choose|k: int| 0 <= k < before.len() && #[trigger] before[k]@ == n;
                                assert(seen@[k] == before[k]);
                            }
                        }
                    }
                    value = SIR::Decl { data: decl.duplicate(), term: Box::new(value) };
                }
                proof {
                    assert forall|c: LowerM| #[trigger] agrees(c, *st, *td) implies (sir_of(value), names_set(seen@)) == wrap_decls(
                        dvals + param_decls(params@.take(j + 1), c),
                        im,
                    ) by {
                        let l = dvals + param_decls(params@.take(j + 1), c);
                        assert(param_decls(params@.take(j + 1), c) == param_decls(params@.take(j as int), c).push(decl_of(*decl)));
                        assert(l.subrange(0, l.len() - 1) =~= dvals + param_decls(params@.take(j as int), c));
                        assert(l[l.len() - 1] == decl_of(*decl));
                    }
                }
            },
            None => {
                proof {
                    assert forall|c: LowerM| #[trigger] agrees(c, *st, *td) implies (sir_of(value), names_set(seen@)) == wrap_decls(
                        dvals + param_decls(params@.take(j + 1), c),
                        im,
                    ) by {
                        assert(param_decls(params@.take(j + 1), c) == param_decls(params@.take(j as int), c));
                    }
                }
            },
        }
        j += 1;
    }
    assert(params@.take(params@.len() as int) == params@);
    proof {
        assert forall|c: LowerM| agrees(c, *st, *td) implies c.dmap.map_values(|e: (Seq<char>, DeclM)| e.1) == dvals by {}
    }
    value
}

} // verus!

verus! {

/// The lowering model for a definition against the tables of a context.
pub open spec fn def_ctx(ctx: ResolutionContext, def: PreFnDef) -> LowerM {
    ctx_model(ctx.data_decls, ctx.functions, def.type_dict, None, None, None)
}

impl ResolutionContext {
    /// Lower a function definition to SIR and register it: its signature
    /// (with the typeclass arguments its callers pass) under its Rust path
    /// and its SIR name, and its binding, in its module where it has one.
    pub fn lower_fn_def(&mut self, def: PreFnDef)
        requires
            old(self).wf(),
            def.type_dict.wf(),
        ensures
            final(self).wf(),
            final(self).data_decls == old(self).data_decls,
            crate::registry::fn_table(final(self).functions) == with_def(
                crate::registry::fn_table(old(self).functions),
                def,
                def_ctx(*old(self), def),
            ),
            final(self).bindings@.len() == old(self).bindings@.len() + 1,
            forall|i: int| 0 <= i < old(self).bindings@.len() ==> #[trigger] final(self).bindings@[i] == old(self).bindings@[i],
            ({
                let b = final(self).bindings@.last();
                let c = def_ctx(*old(self), def);
                &&& sir_of(b.value) == def_value(def, c)
                &&& ty_of(b.tp) == def_type(def, c)
                &&& !b.redirect_to_scalus
                &&& match def.module {
                    Some(m) => {
                        &&& b.name@ == m@ + "."@ + def.sir_name@
                        &&& b.module_name matches Some(bm) && bm@ == m@
                    },
                    None => {
                        &&& b.name@ == def.sir_name@
                        &&& b.module_name is None
                    },
                }
            }),
    {
        let ghost c0 = def_ctx(*self, def);
        let ghost fns0 = crate::registry::fn_table(self.functions);
        let td = &def.type_dict;
        let param_types = param_types_exec(&def.params, td, &self.data_decls);
        let ret_type = resolve_type_hint(&def.ret_type, td, &self.data_decls);
        let (eq_fn_type, eq_type_for_env) = eq_params(&def.typeclass_bounds, &def.generic_params, ret_type);
        assert(bounds_of(def) =~= def.typeclass_bounds@.map_values(|b: PreBound| (b.trait_name@, b.type_param_index)));
        assert(gps_of(def) =~= def.generic_params@.map_values(|g: String| g@));
        let fn_type = wrap_param_types(&param_types, eq_fn_type);
        assert(ty_of(fn_type) == def_type(def, c0));
        assert(match eq_type_for_env {
            Some(t) => first_eq(bounds_of(def), gps_of(def)) == Some(ty_of(t)),
            None => first_eq(bounds_of(def), gps_of(def)) is None,
        });
        let tc_bounds = caller_bounds_exec(&def);
        let module_ref: Option<&str> = match &def.module {
            Some(m) => Some(m.as_str()),
            None => None,
        };
        self.pre_register_function_with_bounds(
            def.rust_name.as_str(),
            def.sir_name.as_str(),
            module_ref,
            fn_type.duplicate(),
            tc_bounds,
        );
        let ghost fns1 = crate::registry::fn_table(self.functions);
        assert(fns1 =~= with_def(fns0, def, c0));
        let ghost cb = body_ctx(def, c0);
        let ghost envb = body_env(def, c0);
        let sir_body = {
            let mut lower = LowerCtx::new(self, td);
            lower.current_fn_name = Some(dup_string(&def.rust_name));
            lower.current_sir_name = Some(dup_string(&def.sir_name));
            proof {
                reveal_strlit("__eq");
            }
            let ghost base = lower.env.binds();
            let ghost m_after = LowerM { eq_var: match eq_type_for_env { Some(_) => Some("__eq"@), None => None }, ..lower.model() };
            match &eq_type_for_env {
                Some(eq) => {
                    lower.typeclass_eq_var = Some(crate::text::owned("__eq"));
                    lower.env.insert(crate::text::owned("__eq"), eq.duplicate());
                },
                None => {},
            }
            let ghost with_eq = lower.env.binds();
            let mut i: usize = 0;
            proof {
                lemma_tys_of(param_types@);
            }
            while i < def.params.len()
                invariant
                    0 <= i <= def.params@.len(),
                    param_types@.len() == def.params@.len(),
                    tys_of(param_types@) == param_tys(def.params@, c0),
                    forall|j: int| 0 <= j < param_types@.len() ==> #[trigger] tys_of(param_types@)[j] == ty_of(param_types@[j]),
                    lower.env.wf(),
                    lower.env.binds() == with_eq + param_binds(def.params@.take(i as int), tys_of(param_types@)),
                    lower.model() == m_after,
                    lower.wf(),
                decreases def.params@.len() - i,
            {
                lower.env.insert(dup_string(&def.params[i].name), param_types[i].duplicate());
                assert(param_binds(def.params@.take(i + 1), tys_of(param_types@)) =~= param_binds(
                    def.params@.take(i as int),
                    tys_of(param_types@),
                ).push((def.params@[i as int].name@, ty_of(param_types@[i as int]))));
                i += 1;
            }
            assert(def.params@.take(def.params@.len() as int) == def.params@);
            assert(param_binds(def.params@, tys_of(param_types@)) =~= param_binds(def.params@, param_tys(def.params@, c0)));
            assert(lower.env.binds() =~= envb);
            assert(lower.model() =~= cb);
            lower.lower_expr(&def.body)
        };
        let inner = match eq_type_for_env {
            Some(eq) => {
                let no_tvs: Vec<crate::sir_type::TypeVar> = Vec::new();
                assert(crate::model::tvs_of(no_tvs@) =~= Seq::<TvM>::empty());
                let ghost tm = ty_of(eq);
                let v = SIR::Var { name: crate::text::owned("__eq"), tp: eq, anns: AnnotationsDecl::empty() };
                assert(sir_of(v) == SirM::Var("__eq"@, tm, empty_anns()));
                let l = SIR::LamAbs {
                    param: Box::new(v),
                    term: Box::new(sir_body),
                    type_params: no_tvs,
                    anns: AnnotationsDecl::empty(),
                };
                assert(sir_of(l) == SirM::LamAbs(Box::new(sir_of(v)), Box::new(sir_of(sir_body)), Seq::empty(), empty_anns()));
                l
            },
            None => sir_body,
        };
        let ghost body_m = lowered(pre_of(def.body), envb, cb);
        let ghost inner_m = match first_eq(bounds_of(def), gps_of(def)) {
            Some(t) => SirM::LamAbs(
                Box::new(SirM::Var("__eq"@, t, empty_anns())),
                Box::new(body_m),
                Seq::empty(),
                empty_anns(),
            ),
            None => body_m,
        };
        proof {
            reveal_strlit("__eq");
        }
        assert(sir_of(sir_body) == body_m);
        assert(sir_of(inner) == inner_m);
        let lams = wrap_lams_exec(&def.params, &param_types, inner, &def.generic_params);
        assert(param_binds(def.params@, tys_of(param_types@)) == param_binds(def.params@, param_tys(def.params@, c0)));
        let ghost tvs = if def.generic_params@.len() > 0 {
            generic_tvs(gps_of(def))
        } else {
            Seq::empty()
        };
        let ghost lams_m = with_lams(param_binds(def.params@, param_tys(def.params@, c0)), inner_m, tvs);
        assert(sir_of(lams) == lams_m);
        let value = wrap_decls_exec(lams, td, &self.data_decls, &def.params);
        assert(agrees(c0, self.data_decls, *td));
        assert(sir_of(value) == def_value(def, c0));
        match &def.module {
            Some(m) => self.register_binding_in_module(
                m.as_str(),
                def.sir_name.as_str(),
                def.rust_name.as_str(),
                fn_type,
                value,
            ),
            None => self.register_binding(def.sir_name.as_str(), fn_type, value),
        }
    }
}

} // verus!
