//! The translation of a function body to pre-SIR, on the syntax tree as the
//! front end reads it. Each function here computes exactly what its model in
//! `compile` gives, the renaming context included.
use crate::compile::{
    ExprM, LitM, Member, Pos, PatM, RustArm, RustBinOp, RustExpr, RustLit, RustMacro, RustPat, RustStmt, StmtM, anns_at,
    bare_from_data, bigint_from_arg, binop_m, compile_all_m, compile_arms_m, compile_call_m, compile_let_m, compile_m,
    compile_method_m, compile_pat_m, compile_seq_m, compile_stmts_m, expr_of, exprs_of, fresh_named_m, fresh_opts_m,
    ident_hint_m, ident_name, let_binder, lit_m, lit_of, macro_of, member_name, pat_of, rust_arms_of, stmt_of,
    stmts_of, strip_back_quotes, strip_front_quotes, trim_quotes, try_from_data_m, unit_pre, unsupported,
};
use crate::constant::UplcConstant;
use crate::front::{
    CompileCtx, RustType, ctx_of, extract_enum_path, join_path, rust_type_to_type_hint, scope_of, texts,
    type_hint_spec, type_hints_spec,
};
use crate::integer::Integer;
use crate::model::ann_of;
use crate::module::{AnnotationsDecl, SourcePos};
use crate::name_map::{NameMap, assoc_last};
use crate::pre_sir::{
    ArmM, BinOp, HintM, PreM, PreMatchArm, PreMatchArmOf, PrePattern, PreSIR, TypeHint, arms_of, hint_of, pre_of,
    pres_of, prepat_of,
};
use crate::text::{chars_of, owned, push_str, str_eq, string_of};
use vstd::prelude::*;

verus! {


broadcast use {vstd::std_specs::vec::group_vec_axioms, crate::model::group_model_seqs};

/// The model of a translation's result.
pub open spec fn res_of(r: Result<PreSIR, String>) -> Result<crate::pre_sir::PreM, Seq<char>> {
    match r {
        Ok(p) => Ok(pre_of(p)),
        Err(m) => Err(m@),
    }
}

/// The value of the last pair with key `k`.
fn lookup_last(v: &Vec<(String, String)>, k: &str) -> (r: Option<String>)
    ensures
        match assoc_last(scope_of(v@), k@) {
            Some(x) => r matches Some(y) && y@ == x,
            None => r is None,
        },
{
    let mut j = v.len();
    assert(scope_of(v@).take(j as int) =~= scope_of(v@));
    while j > 0
        invariant
            j <= v@.len(),
            assoc_last(scope_of(v@), k@) == assoc_last(scope_of(v@).take(j as int), k@),
        decreases j,
    {
        let ghost t = scope_of(v@).take(j as int);
        assert(t.subrange(0, t.len() - 1) =~= scope_of(v@).take(j - 1));
        assert(t[t.len() - 1] == (v@[j - 1].0@, v@[j - 1].1@));
        if str_eq(v[j - 1].0.as_str(), k) {
            return Some(crate::duplicate::dup_string(&v[j - 1].1));
        }
        j -= 1;
    }
    None
}

/// The error for what the front end does not translate.
fn unsupported_err(what: &str) -> (r: String)
    ensures
        r@ == unsupported(what@),
{
    let mut s = owned("#[compile] unsupported ");
    push_str(&mut s, what);
    s
}

/// The unit constant.
fn unit_const() -> (r: PreSIR)
    ensures
        pre_of(r) == unit_pre(),
{
    PreSIR::Const { value: UplcConstant::Unit, anns: AnnotationsDecl::empty() }
}

/// Text with the double quotes at both ends taken off.
fn trim_quotes_text(s: &str) -> (r: String)
    ensures
        r@ == trim_quotes(s@),
{
    let cs = chars_of(s);
    let n = cs.len();
    let mut i: usize = 0;
    assert(cs@.subrange(0, n as int) =~= cs@);
    while i < n && cs[i] == '"'
        invariant
            i <= n,
            n == cs@.len(),
            cs@ == s@,
            strip_front_quotes(s@) == strip_front_quotes(cs@.subrange(i as int, n as int)),
        decreases n - i,
    {
        assert(cs@.subrange(i as int, n as int).drop_first() =~= cs@.subrange(i + 1, n as int));
        i += 1;
    }
    let mut j: usize = n;
    assert(cs@.subrange(i as int, j as int) == strip_front_quotes(s@));
    while j > i && cs[j - 1] == '"'
        invariant
            i <= j <= n,
            n == cs@.len(),
            trim_quotes(s@) == strip_back_quotes(cs@.subrange(i as int, j as int)),
        decreases j - i,
    {
        assert(cs@.subrange(i as int, j as int).drop_last() =~= cs@.subrange(i as int, j - 1));
        j -= 1;
    }
    let mut out: Vec<char> = Vec::new();
    let mut k: usize = i;
    while k < j
        invariant
            i <= k <= j <= n,
            n == cs@.len(),
            out@ == cs@.subrange(i as int, k as int),
        decreases j - k,
    {
        out.push(cs[k]);
        assert(cs@.subrange(i as int, k + 1) =~= cs@.subrange(i as int, k as int).push(cs@[k as int]));
        k += 1;
    }
    string_of(out.as_slice())
}

/// The translation of a literal.
fn compile_lit(l: &RustLit) -> (r: Result<PreSIR, String>)
    ensures
        res_of(r) == lit_m(lit_of(*l)),
{
    match l {
        RustLit::Bool(b) => Ok(PreSIR::Const { value: UplcConstant::Bool { value: *b }, anns: AnnotationsDecl::empty() }),
        RustLit::Int(v) => Ok(
            PreSIR::Const { value: UplcConstant::Integer { value: Integer::from_i64(*v) }, anns: AnnotationsDecl::empty() },
        ),
        RustLit::Str(s) => Ok(
            PreSIR::Const {
                value: UplcConstant::String { value: crate::duplicate::dup_string(s) },
                anns: AnnotationsDecl::empty(),
            },
        ),
        RustLit::Other => Err(unsupported_err("literal")),
    }
}

/// The pre-SIR operator of a Rust binary operator.
fn binop_of(op: RustBinOp) -> (r: Option<BinOp>)
    ensures
        r == binop_m(op),
{
    match op {
        RustBinOp::Add | RustBinOp::AddAssign => Some(BinOp::Add),
        RustBinOp::Sub | RustBinOp::SubAssign => Some(BinOp::Sub),
        RustBinOp::Mul | RustBinOp::MulAssign => Some(BinOp::Mul),
        RustBinOp::Eq => Some(BinOp::Eq),
        RustBinOp::Lt => Some(BinOp::Lt),
        RustBinOp::Le => Some(BinOp::Le),
        RustBinOp::Other => None,
    }
}

/// The type hint of a type named by a single identifier.
fn ident_hint(id: &str, gps: &Vec<String>) -> (r: TypeHint)
    requires
        gps@.len() < i64::MAX,
    ensures
        hint_of(r) == ident_hint_m(id@, texts(gps@)),
{
    let mut path: Vec<String> = Vec::new();
    path.push(owned(id));
    let ty = RustType { text: owned(id), path, args: Vec::new() };
    assert(texts(ty.path@) =~= seq![id@]);
    assert(join_path(seq![id@]) == id@);
    assert(type_hints_spec(ty.args@, texts(gps@)) =~= Seq::empty());
    assert(type_hint_spec(ty, texts(gps@)) == ident_hint_m(id@, texts(gps@)));
    rust_type_to_type_hint(&ty, gps)
}

/// The model of a translation of several expressions.
pub open spec fn res_all_of(r: Result<Vec<PreSIR>, String>) -> Result<Seq<PreM>, Seq<char>> {
    match r {
        Ok(v) => Ok(pres_of(v@)),
        Err(m) => Err(m@),
    }
}

/// The model of a translation of match arms.
pub open spec fn res_arms_of(r: Result<Vec<PreMatchArm>, String>) -> Result<Seq<ArmM>, Seq<char>> {
    match r {
        Ok(v) => Ok(arms_of(v@)),
        Err(m) => Err(m@),
    }
}

/// The kind of an expression's model is the kind of the expression.
proof fn lemma_expr_kind(e: RustExpr)
    ensures
        (expr_of(e) is Lit) <==> (e is Lit),
        (expr_of(e) is Path) <==> (e is Path),
        (expr_of(e) is Neg) <==> (e is Neg),
        (expr_of(e) is Call) <==> (e is Call),
        (expr_of(e) is MethodCall) <==> (e is MethodCall),
        (expr_of(e) is Reference) <==> (e is Reference),
{
    match e {
        RustExpr::Macro(m) => {
            assert(expr_of(e) == macro_of(m));
            match m {
                RustMacro::Require { .. } => {},
                RustMacro::Other { .. } => {},
            }
        },
        _ => {},
    }
}

/// The models of expressions, element by element.
proof fn lemma_exprs_of(s: Seq<RustExpr>)
    ensures
        exprs_of(s).len() == s.len(),
        forall|i: int| 0 <= i < s.len() ==> #[trigger] exprs_of(s)[i] == expr_of(s[i]),
    decreases s.len(),
{
    if s.len() > 0 {
        lemma_exprs_of(s.subrange(0, s.len() - 1));
    }
}

/// The models of statements, element by element.
proof fn lemma_stmts_of(s: Seq<RustStmt>)
    ensures
        stmts_of(s).len() == s.len(),
        forall|i: int| 0 <= i < s.len() ==> #[trigger] stmts_of(s)[i] == stmt_of(s[i]),
    decreases s.len(),
{
    if s.len() > 0 {
        lemma_stmts_of(s.subrange(0, s.len() - 1));
    }
}

/// The models of match arms, element by element.
proof fn lemma_rust_arms_of(s: Seq<RustArm>)
    ensures
        rust_arms_of(s).len() == s.len(),
        forall|i: int|
            0 <= i < s.len() ==> #[trigger] rust_arms_of(s)[i] == (pat_of(s[i].pat), expr_of(s[i].body), s[i].pos),
    decreases s.len(),
{
    if s.len() > 0 {
        lemma_rust_arms_of(s.subrange(0, s.len() - 1));
    }
}

/// The models of expressions with one more at the end.
proof fn lemma_pres_push(s: Seq<PreSIR>, x: PreSIR)
    ensures
        pres_of(s.push(x)) == pres_of(s).push(pre_of(x)),
{
    assert(s.push(x).subrange(0, s.len() as int) =~= s);
}

/// The models of two sequences of expressions, one after the other.
proof fn lemma_pres_concat(a: Seq<PreSIR>, b: Seq<PreSIR>)
    ensures
        pres_of(a + b) == pres_of(a) + pres_of(b),
    decreases b.len(),
{
    if b.len() == 0 {
        assert(a + b =~= a);
        assert(pres_of(a) + pres_of(b) =~= pres_of(a));
    } else {
        let b0 = b.subrange(0, b.len() - 1);
        lemma_pres_concat(a, b0);
        assert((a + b).subrange(0, (a + b).len() - 1) =~= a + b0);
        assert(pres_of(a) + pres_of(b) =~= (pres_of(a) + pres_of(b0)).push(pre_of(b[b.len() - 1])));
    }
}

/// The models of arms with one more at the end.
proof fn lemma_arms_push(s: Seq<PreMatchArm>, x: PreMatchArm)
    ensures
        arms_of(s.push(x)) == arms_of(s).push((prepat_of(x.pattern), pre_of(x.body), ann_of(x.anns))),
{
    assert(s.push(x).subrange(0, s.len() as int) =~= s);
}

/// Once the translation of a prefix fails, longer prefixes fail the same way.
proof fn lemma_all_err(s: Seq<ExprM>, c: crate::front::CtxM, j: int, k: int)
    requires
        0 <= j <= k <= s.len(),
        compile_all_m(s.take(j), c).0 is Err,
    ensures
        compile_all_m(s.take(k), c) == compile_all_m(s.take(j), c),
    decreases k - j,
{
    if k > j {
        lemma_all_err(s, c, j, k - 1);
        assert(s.take(k).subrange(0, k - 1) =~= s.take(k - 1));
    }
}

/// Once the translation of a prefix of arms fails, longer prefixes fail the
/// same way.
proof fn lemma_arms_err(s: Seq<(PatM, ExprM, Pos)>, c: crate::front::CtxM, j: int, k: int)
    requires
        0 <= j <= k <= s.len(),
        compile_arms_m(s.take(j), c).0 is Err,
    ensures
        compile_arms_m(s.take(k), c) == compile_arms_m(s.take(j), c),
    decreases k - j,
{
    if k > j {
        lemma_arms_err(s, c, j, k - 1);
        assert(s.take(k).subrange(0, k - 1) =~= s.take(k - 1));
    }
}

impl CompileCtx {
    /// Annotations at a position in the function's file.
    fn anns_at(&self, p: Pos) -> (r: AnnotationsDecl)
        ensures
            ann_of(r) == anns_at(self.file@, p),
    {
        let data: Vec<(String, crate::sir::SIR)> = Vec::new();
        let r = AnnotationsDecl {
            pos: SourcePos {
                file: crate::duplicate::dup_string(&self.file),
                start_line: p.line,
                start_column: p.column,
                end_line: p.line,
                end_column: p.column,
            },
            comment: None,
            data,
        };
        assert(ann_of(r).data =~= Seq::empty());
        r
    }

    /// Fresh names for the elements that are identifiers, `_` for the
    /// others, in order.
    fn fresh_opts(&mut self, elems: &Vec<RustPat>) -> (r: Vec<String>)
        ensures
            (texts(r@), ctx_of(*final(self))) == fresh_opts_m(
                elems@.map_values(|e: RustPat| ident_name(e)),
                ctx_of(*old(self)),
            ),
            final(self).generic_type_params == old(self).generic_type_params,
    {
        let ghost s = elems@.map_values(|e: RustPat| ident_name(e));
        let ghost c0 = ctx_of(*self);
        let mut out: Vec<String> = Vec::new();
        let mut i: usize = 0;
        assert(s.take(0) =~= Seq::<Option<Seq<char>>>::empty());
        assert(texts(out@) =~= Seq::<Seq<char>>::empty());
        while i < elems.len()
            invariant
                i <= elems@.len(),
                s == elems@.map_values(|e: RustPat| ident_name(e)),
                (texts(out@), ctx_of(*self)) == fresh_opts_m(s.take(i as int), c0),
                self.generic_type_params == old(self).generic_type_params,
            decreases elems@.len() - i,
        {
            let ghost o0 = out@;
            assert(s.take(i + 1).subrange(0, i as int) =~= s.take(i as int));
            assert(s.take(i + 1).last() == ident_name(elems@[i as int]));
            match &elems[i] {
                RustPat::Ident(n) => {
                    let x = self.fresh_var(n.as_str());
                    out.push(x);
                },
                _ => {
                    out.push(owned("_"));
                },
            }
            assert(texts(out@) =~= texts(o0).push(out@.last()@));
            i += 1;
        }
        assert(s.take(i as int) =~= s);
        out
    }

    /// Fresh names for the named fields, in order.
    fn fresh_named(&mut self, members: &Vec<Member>) -> (r: Vec<String>)
        ensures
            (texts(r@), ctx_of(*final(self))) == fresh_named_m(
                members@.map_values(|m: Member| member_name(m)),
                ctx_of(*old(self)),
            ),
            final(self).generic_type_params == old(self).generic_type_params,
    {
        let ghost s = members@.map_values(|m: Member| member_name(m));
        let ghost c0 = ctx_of(*self);
        let mut out: Vec<String> = Vec::new();
        let mut i: usize = 0;
        assert(s.take(0) =~= Seq::<Option<Seq<char>>>::empty());
        assert(texts(out@) =~= Seq::<Seq<char>>::empty());
        while i < members.len()
            invariant
                i <= members@.len(),
                s == members@.map_values(|m: Member| member_name(m)),
                (texts(out@), ctx_of(*self)) == fresh_named_m(s.take(i as int), c0),
                self.generic_type_params == old(self).generic_type_params,
            decreases members@.len() - i,
        {
            let ghost o0 = out@;
            assert(s.take(i + 1).subrange(0, i as int) =~= s.take(i as int));
            assert(s.take(i + 1).last() == member_name(members@[i as int]));
            match &members[i] {
                Member::Named(n) => {
                    let x = self.fresh_var(n.as_str());
                    out.push(x);
                    assert(texts(out@) =~= texts(o0).push(x@));
                },
                Member::Unnamed(_) => {
                    assert(texts(out@) =~= texts(o0));
                },
            }
            i += 1;
        }
        assert(s.take(i as int) =~= s);
        out
    }

    /// The translation of the pattern of a match arm.
    fn compile_pattern(&mut self, p: &RustPat) -> (r: PrePattern)
        ensures
            (prepat_of(r), ctx_of(*final(self))) == compile_pat_m(pat_of(*p), ctx_of(*old(self))),
            final(self).generic_type_params == old(self).generic_type_params,
    {
        match p {
            RustPat::Path(segs) => {
                let (d, k) = extract_enum_path(segs);
                let bs: Vec<String> = Vec::new();
                assert(bs@.map_values(|b: String| b@) =~= Seq::<Seq<char>>::empty());
                PrePattern::Constr { type_path: d, constr_name: k, bindings: bs }
            },
            RustPat::TupleStruct(segs, elems) => {
                let (d, k) = extract_enum_path(segs);
                let bs = self.fresh_opts(elems);
                let r = PrePattern::Constr { type_path: d, constr_name: k, bindings: bs };
                assert(bs@.map_values(|b: String| b@) =~= texts(bs@));
                r
            },
            RustPat::Struct(segs, members) => {
                let (d, k) = extract_enum_path(segs);
                let bs = self.fresh_named(members);
                let r = PrePattern::Constr { type_path: d, constr_name: k, bindings: bs };
                assert(bs@.map_values(|b: String| b@) =~= texts(bs@));
                r
            },
            RustPat::Ident(n) => {
                let x = self.fresh_var(n.as_str());
                let mut bs: Vec<String> = Vec::new();
                bs.push(crate::duplicate::dup_string(&x));
                let r = PrePattern::Constr { type_path: String::new(), constr_name: x, bindings: bs };
                assert(bs@.map_values(|b: String| b@) =~= seq![x@]);
                r
            },
            _ => PrePattern::Wildcard,
        }
    }
}


impl CompileCtx {
    /// The translation of an expression: its pre-SIR, or the error for the
    /// first part that the front end does not translate.
    pub fn compile_expr(&mut self, e: &RustExpr) -> (r: Result<PreSIR, String>)
        requires
            old(self).generic_type_params@.len() < i64::MAX,
        ensures
            (res_of(r), ctx_of(*final(self))) == compile_m(expr_of(*e), ctx_of(*old(self))),
            final(self).generic_type_params == old(self).generic_type_params,
        decreases e, 2int, 0int,
    {
        match e {
            RustExpr::Lit(l) => compile_lit(l),
            RustExpr::Path(segs, p) => self.compile_path(segs, *p),
            RustExpr::Binary(op, l, r, p) => {
                let lv = self.compile_expr(l);
                match lv {
                    Err(m) => Err(m),
                    Ok(lp) => {
                        let rv = self.compile_expr(r);
                        match rv {
                            Err(m) => Err(m),
                            Ok(rp) => match binop_of(*op) {
                                Some(o) => Ok(
                                    PreSIR::BinOp {
                                        op: o,
                                        left: Box::new(lp),
                                        right: Box::new(rp),
                                        anns: self.anns_at(*p),
                                    },
                                ),
                                None => Err(unsupported_err("binary operator")),
                            },
                        }
                    },
                }
            },
            RustExpr::Call(..) => self.compile_call(e),
            RustExpr::MethodCall(..) => self.compile_method_call(e),
            RustExpr::If(cond, t, el) => {
                let cv = self.compile_expr(cond);
                match cv {
                    Err(m) => Err(m),
                    Ok(cp) => {
                        proof {
                            lemma_stmts_of(t@);
                            assert(stmts_of(t@).subrange(0, t@.len() as int) =~= stmts_of(t@));
                        }
                        let tv = self.compile_stmts(t, 0);
                        match tv {
                            Err(m) => Err(m),
                            Ok(tp) => match el {
                                Some(x) => {
                                    let ev = self.compile_expr(x);
                                    match ev {
                                        Err(m) => Err(m),
                                        Ok(ep) => Ok(
                                            PreSIR::IfThenElse {
                                                cond: Box::new(cp),
                                                then_branch: Box::new(tp),
                                                else_branch: Some(Box::new(ep)),
                                                anns: AnnotationsDecl::empty(),
                                            },
                                        ),
                                    }
                                },
                                None => Ok(
                                    PreSIR::IfThenElse {
                                        cond: Box::new(cp),
                                        then_branch: Box::new(tp),
                                        else_branch: None,
                                        anns: AnnotationsDecl::empty(),
                                    },
                                ),
                            },
                        }
                    },
                }
            },
            RustExpr::Match(scrut, arms, p) => {
                let sv = self.compile_expr(scrut);
                match sv {
                    Err(m) => Err(m),
                    Ok(sp) => {
                        let av = self.compile_arms(arms, e);
                        match av {
                            Err(m) => Err(m),
                            Ok(ap) => Ok(PreSIR::Match { scrutinee: Box::new(sp), arms: ap, anns: self.anns_at(*p) }),
                        }
                    },
                }
            },
            RustExpr::Field(b, mem, p) => {
                let bv = self.compile_expr(b);
                match bv {
                    Err(m) => Err(m),
                    Ok(bp) => {
                        let f = match mem {
                            Member::Named(n) => crate::duplicate::dup_string(n),
                            Member::Unnamed(i) => {
                                let mut f = owned("_");
                                let d = crate::text::nat_text(*i as u64);
                                push_str(&mut f, d.as_str());
                                f
                            },
                        };
                        Ok(PreSIR::FieldAccess { base: Box::new(bp), field: f, anns: self.anns_at(*p) })
                    },
                }
            },
            RustExpr::Unit => Ok(unit_const()),
            RustExpr::Deref(x) => self.compile_expr(x),
            RustExpr::Neg(x, p) => {
                let xv = self.compile_expr(x);
                match xv {
                    Err(m) => Err(m),
                    Ok(xp) => Ok(PreSIR::Negate { expr: Box::new(xp), anns: self.anns_at(*p) }),
                }
            },
            RustExpr::UnaryOther => Err(unsupported_err("unary operator")),
            RustExpr::Paren(x) => self.compile_expr(x),
            RustExpr::Reference(x) => self.compile_expr(x),
            RustExpr::Macro(m) => self.compile_macro(m),
            RustExpr::Block(st) => {
                proof {
                    lemma_stmts_of(st@);
                    assert(stmts_of(st@).subrange(0, st@.len() as int) =~= stmts_of(st@));
                }
                self.compile_stmts(st, 0)
            },
            RustExpr::Other => Err(unsupported_err("expression")),
        }
    }

    /// The translation of a path expression: a variable by the name it
    /// refers to, or a constructor without arguments.
    fn compile_path(&self, segs: &Vec<String>, p: Pos) -> (r: Result<PreSIR, String>)
        ensures
            (res_of(r), ctx_of(*self)) == compile_m(ExprM::Path(texts(segs@), p), ctx_of(*self)),
    {
        if segs.len() == 1 {
            let n = segs[0].as_str();
            let name = match lookup_last(&self.name_remaps, n) {
                Some(x) => x,
                None => self.resolve_var(n),
            };
            Ok(PreSIR::Var { name, anns: self.anns_at(p) })
        } else if segs.len() == 2 {
            let mut k = crate::duplicate::dup_string(&segs[0]);
            push_str(&mut k, "::");
            push_str(&mut k, segs[1].as_str());
            let args: Vec<PreSIR> = Vec::new();
            assert(pres_of(args@) =~= Seq::<PreM>::empty());
            Ok(
                PreSIR::Construct {
                    type_path: crate::duplicate::dup_string(&segs[0]),
                    constr_name: k,
                    args,
                    anns: self.anns_at(p),
                },
            )
        } else {
            Err(unsupported_err("multi-segment path"))
        }
    }

    /// The translation of a macro call.
    fn compile_macro(&mut self, m: &RustMacro) -> (r: Result<PreSIR, String>)
        requires
            old(self).generic_type_params@.len() < i64::MAX,
        ensures
            (res_of(r), ctx_of(*final(self))) == compile_m(macro_of(*m), ctx_of(*old(self))),
            final(self).generic_type_params == old(self).generic_type_params,
        decreases m, 2int, 0int,
    {
        match m {
            RustMacro::Require { cond, message } => {
                let cv = self.compile_expr(cond);
                match cv {
                    Err(x) => Err(x),
                    Ok(cp) => {
                        let msg = match message {
                            Some(t) => trim_quotes_text(t.as_str()),
                            None => owned("require failed"),
                        };
                        Ok(PreSIR::Require { cond: Box::new(cp), message: msg, anns: AnnotationsDecl::empty() })
                    },
                }
            },
            RustMacro::Other { name, tokens } => {
                if str_eq(name.as_str(), "panic") || str_eq(name.as_str(), "todo") || str_eq(
                    name.as_str(),
                    "unimplemented",
                ) {
                    let t = trim_quotes_text(tokens.as_str());
                    let msg = if chars_of(t.as_str()).len() == 0 {
                        crate::duplicate::dup_string(name)
                    } else {
                        t
                    };
                    Ok(PreSIR::Error { message: msg, anns: AnnotationsDecl::empty() })
                } else {
                    let mut w = owned("macro ");
                    push_str(&mut w, name.as_str());
                    Err(unsupported_err(w.as_str()))
                }
            },
        }
    }

    /// The translations of the expressions of `parent`, in order.
    fn compile_all(&mut self, args: &Vec<RustExpr>, parent: &RustExpr) -> (r: Result<Vec<PreSIR>, String>)
        requires
            old(self).generic_type_params@.len() < i64::MAX,
            forall|i: int| 0 <= i < args@.len() ==> decreases_to!(*parent => #[trigger] args@[i]),
        ensures
            (res_all_of(r), ctx_of(*final(self))) == compile_all_m(exprs_of(args@), ctx_of(*old(self))),
            final(self).generic_type_params == old(self).generic_type_params,
        decreases parent, 0int, 0int,
    {
        let ghost s = exprs_of(args@);
        let ghost c0 = ctx_of(*self);
        proof {
            lemma_exprs_of(args@);
        }
        let mut out: Vec<PreSIR> = Vec::new();
        let mut i: usize = 0;
        assert(s.take(0) =~= Seq::<ExprM>::empty());
        assert(pres_of(out@) =~= Seq::<PreM>::empty());
        while i < args.len()
            invariant
                i <= args@.len(),
                s == exprs_of(args@),
                c0 == ctx_of(*old(self)),
                s.len() == args@.len(),
                forall|j: int| 0 <= j < args@.len() ==> #[trigger] s[j] == expr_of(args@[j]),
                forall|j: int| 0 <= j < args@.len() ==> decreases_to!(*parent => #[trigger] args@[j]),
                (Ok::<Seq<PreM>, Seq<char>>(pres_of(out@)), ctx_of(*self)) == compile_all_m(s.take(i as int), c0),
                self.generic_type_params == old(self).generic_type_params,
                self.generic_type_params@.len() < i64::MAX,
            decreases args@.len() - i,
        {
            assert(s.take(i + 1).subrange(0, i as int) =~= s.take(i as int));
            assert(s.take(i + 1)[i as int] == expr_of(args@[i as int]));
            let x = self.compile_expr(&args[i]);
            match x {
                Err(m) => {
                    assert(compile_all_m(s.take(i + 1), c0) == (Err::<Seq<PreM>, Seq<char>>(m@), ctx_of(*self)));
                    proof {
                        lemma_all_err(s, c0, i + 1, s.len() as int);
                        assert(s.take(s.len() as int) =~= s);
                    }

                    return Err(m);
                },
                Ok(p) => {
                    proof {
                        lemma_pres_push(out@, p);
                    }
                    out.push(p);
                },
            }
            i += 1;
        }
        assert(s.take(i as int) =~= s);
        Ok(out)
    }

    /// The translations of the match arms of `parent`, in order, each
    /// pattern and body in a scope of their own.
    fn compile_arms(&mut self, arms: &Vec<RustArm>, parent: &RustExpr) -> (r: Result<Vec<PreMatchArm>, String>)
        requires
            old(self).generic_type_params@.len() < i64::MAX,
            forall|i: int| 0 <= i < arms@.len() ==> decreases_to!(*parent => #[trigger] arms@[i].body),
        ensures
            (res_arms_of(r), ctx_of(*final(self))) == compile_arms_m(rust_arms_of(arms@), ctx_of(*old(self))),
            final(self).generic_type_params == old(self).generic_type_params,
        decreases parent, 0int, 0int,
    {
        let ghost s = rust_arms_of(arms@);
        let ghost c0 = ctx_of(*self);
        proof {
            lemma_rust_arms_of(arms@);
        }
        let mut out: Vec<PreMatchArm> = Vec::new();
        let mut i: usize = 0;
        assert(s.take(0) =~= Seq::<(PatM, ExprM, Pos)>::empty());
        assert(arms_of(out@) =~= Seq::<ArmM>::empty());
        while i < arms.len()
            invariant
                i <= arms@.len(),
                s == rust_arms_of(arms@),
                c0 == ctx_of(*old(self)),
                s.len() == arms@.len(),
                forall|j: int|
                    0 <= j < arms@.len() ==> #[trigger] s[j] == (
                        pat_of(arms@[j].pat),
                        expr_of(arms@[j].body),
                        arms@[j].pos,
                    ),
                forall|j: int| 0 <= j < arms@.len() ==> decreases_to!(*parent => #[trigger] arms@[j].body),
                (Ok::<Seq<ArmM>, Seq<char>>(arms_of(out@)), ctx_of(*self)) == compile_arms_m(s.take(i as int), c0),
                self.generic_type_params == old(self).generic_type_params,
                self.generic_type_params@.len() < i64::MAX,
            decreases arms@.len() - i,
        {
            assert(s.take(i + 1).subrange(0, i as int) =~= s.take(i as int));
            assert(s.take(i + 1)[i as int] == s[i as int]);
            let a = &arms[i];
            self.push_scope();
            let pat = self.compile_pattern(&a.pat);
            let b = self.compile_expr(&a.body);
            match b {
                Err(m) => {
                    self.pop_scope();
                    assert(compile_arms_m(s.take(i + 1), c0) == (Err::<Seq<ArmM>, Seq<char>>(m@), ctx_of(*self)));
                    proof {
                        lemma_arms_err(s, c0, i + 1, s.len() as int);
                        assert(s.take(s.len() as int) =~= s);
                    }
                    return Err(m);
                },
                Ok(bp) => {
                    let anns = self.anns_at(a.pos);
                    self.pop_scope();
                    let arm = PreMatchArmOf { pattern: pat, body: bp, anns };
                    proof {
                        lemma_arms_push(out@, arm);
                    }
                    out.push(arm);
                },
            }
            i += 1;
        }
        assert(s.take(i as int) =~= s);
        Ok(out)
    }

    /// The translation of `T::from_data(&x)` where `r` is such a call, to
    /// the type hint given or the one that `T` names; none where `r` is not
    /// such a call.
    fn try_compile_from_data(&mut self, r: &RustExpr, hint: Option<TypeHint>) -> (res: Option<Result<PreSIR, String>>)
        requires
            old(self).generic_type_params@.len() < i64::MAX,
        ensures
            match try_from_data_m(
                expr_of(*r),
                match hint {
                    Some(h) => Some(hint_of(h)),
                    None => None,
                },
                ctx_of(*old(self)),
            ) {
                Some((v, c1)) => res matches Some(x) && res_of(x) == v && ctx_of(*final(self)) == c1,
                None => res is None && ctx_of(*final(self)) == ctx_of(*old(self)),
            },
            final(self).generic_type_params == old(self).generic_type_params,
        decreases r, 0int, 0int,
    {
        proof {
            reveal_with_fuel(expr_of, 3);
        }
        match r {
            RustExpr::Call(f, args, _, _) => match &**f {
                RustExpr::Path(segs, _) => {
                    proof {
                        lemma_exprs_of(args@);
                    }
                    if segs.len() == 2 && str_eq(segs[1].as_str(), "from_data") && args.len() == 1 {
                        let ghost gps = ctx_of(*self).gps;
                        let iv = match &args[0] {
                            RustExpr::Reference(x) => self.compile_expr(x),
                            _ => self.compile_expr(&args[0]),
                        };
                        let target = match hint {
                            Some(h) => h,
                            None => if str_eq(segs[0].as_str(), "FromData") {
                                TypeHint::Infer
                            } else {
                                ident_hint(segs[0].as_str(), &self.generic_type_params)
                            },
                        };
                        Some(
                            match iv {
                                Err(m) => Err(m),
                                Ok(ip) => Ok(
                                    PreSIR::FromData {
                                        arg: Box::new(ip),
                                        target_type: target,
                                        anns: AnnotationsDecl::empty(),
                                    },
                                ),
                            },
                        )
                    } else {
                        None
                    }
                },
                _ => None,
            },
            _ => None,
        }
    }

    /// The constant that `BigInt::from` makes of an integer literal, or of
    /// one negated.
    fn bigint_constant(x: &RustExpr) -> (r: Option<Integer>)
        ensures
            match bigint_from_arg(expr_of(*x)) {
                Some(v) => r matches Some(i) && i@ == v,
                None => r is None,
            },
    {
        proof {
            lemma_expr_kind(*x);
        }
        match x {
            RustExpr::Lit(l) => match l {
                RustLit::Int(v) => Some(Integer::from_i64(*v)),
                _ => None,
            },
            RustExpr::Neg(y, _) => {
                proof {
                    lemma_expr_kind(**y);
                }
                match &**y {
                    RustExpr::Lit(l) => match l {
                        RustLit::Int(v) => {
                            let z = Integer::zero();
                            Some(z.sub(&Integer::from_i64(*v)))
                        },
                        _ => None,
                    },
                    _ => None,
                }
            },
            _ => None,
        }
    }

    /// The translation of a call expression `e`.
    fn compile_call(&mut self, e: &RustExpr) -> (r: Result<PreSIR, String>)
        requires
            old(self).generic_type_params@.len() < i64::MAX,
        ensures
            (res_of(r), ctx_of(*final(self))) == compile_call_m(expr_of(*e), ctx_of(*old(self))),
            final(self).generic_type_params == old(self).generic_type_params,
        decreases e, 1int, 0int,
    {
        proof {
            lemma_expr_kind(*e);
        }
        match e {
            RustExpr::Call(f, args, text, p) => {
                proof {
                    lemma_exprs_of(args@);
                    lemma_expr_kind(**f);
                }
                let special = match &**f {
                    RustExpr::Path(segs, _) => segs.len() == 1 || segs.len() == 2,
                    _ => false,
                };
                if !special {
                    let av = self.compile_all(args, e);
                    return match av {
                        Err(m) => Err(m),
                        Ok(ap) => Ok(
                            PreSIR::Call { func_path: crate::duplicate::dup_string(text), args: ap, anns: self.anns_at(*p) },
                        ),
                    };
                }
                match &**f {
                    RustExpr::Path(segs, _) => {
                        let is_from = segs.len() == 2 && (str_eq(segs[0].as_str(), "BigInt") || str_eq(
                            segs[0].as_str(),
                            "num_bigint",
                        )) && str_eq(segs[1].as_str(), "from") && args.len() == 1;
                        let k = if is_from {
                            Self::bigint_constant(&args[0])
                        } else {
                            None
                        };
                        if let Some(v) = k {
                            return Ok(
                                PreSIR::Const { value: UplcConstant::Integer { value: v }, anns: AnnotationsDecl::empty() },
                            );
                        }
                        if segs.len() == 2 && str_eq(segs[1].as_str(), "from_data") {
                            return Err(owned("T::from_data() must be followed by .unwrap() in #[compile] functions"));
                        }
                        let path = if segs.len() == 2 {
                            let mut q = crate::duplicate::dup_string(&segs[0]);
                            push_str(&mut q, "::");
                            push_str(&mut q, segs[1].as_str());
                            q
                        } else {
                            match lookup_last(&self.name_remaps, segs[0].as_str()) {
                                Some(x) => x,
                                None => crate::duplicate::dup_string(&segs[0]),
                            }
                        };
                        let av = self.compile_all(args, e);
                        match av {
                            Err(m) => Err(m),
                            Ok(ap) => Ok(PreSIR::Call { func_path: path, args: ap, anns: self.anns_at(*p) }),
                        }
                    },
                    _ => Err(unsupported_err("expression")),
                }
            },
            _ => Err(unsupported_err("expression")),
        }
    }

    /// The translation of a method call expression `e`.
    fn compile_method_call(&mut self, e: &RustExpr) -> (r: Result<PreSIR, String>)
        requires
            old(self).generic_type_params@.len() < i64::MAX,
        ensures
            (res_of(r), ctx_of(*final(self))) == compile_method_m(expr_of(*e), ctx_of(*old(self))),
            final(self).generic_type_params == old(self).generic_type_params,
        decreases e, 1int, 0int,
    {
        proof {
            lemma_expr_kind(*e);
        }
        match e {
            RustExpr::MethodCall(recv, method, args, p) => {
                proof {
                    lemma_exprs_of(args@);
                }
                if str_eq(method.as_str(), "unwrap") {
                    match self.try_compile_from_data(recv, None) {
                        Some(res) => res,
                        None => self.compile_expr(recv),
                    }
                } else if str_eq(method.as_str(), "to_data") {
                    let rv = self.compile_expr(recv);
                    match rv {
                        Err(m) => Err(m),
                        Ok(rp) => Ok(PreSIR::ToData { arg: Box::new(rp), source_type: TypeHint::Infer, anns: self.anns_at(*p) }),
                    }
                } else {
                    let rv = self.compile_expr(recv);
                    match rv {
                        Err(m) => Err(m),
                        Ok(rp) => {
                            let av = self.compile_all(args, e);
                            match av {
                                Err(m) => Err(m),
                                Ok(ap) => {
                                    let mut all: Vec<PreSIR> = Vec::new();
                                    all.push(rp);
                                    let mut rest = ap;
                                    let ghost a0 = rest@;
                                    all.append(&mut rest);
                                    proof {
                                        assert(all@ =~= seq![all@[0]] + a0);
                                        lemma_pres_concat(seq![all@[0]], a0);
                                        lemma_pres_push(Seq::<PreSIR>::empty(), all@[0]);
                                        assert(Seq::<PreSIR>::empty().push(all@[0]) =~= seq![all@[0]]);
                                        assert(pres_of(Seq::<PreSIR>::empty()) =~= Seq::<PreM>::empty());
                                    }
                                    Ok(
                                        PreSIR::Call {
                                            func_path: crate::duplicate::dup_string(method),
                                            args: all,
                                            anns: self.anns_at(*p),
                                        },
                                    )
                                },
                            }
                        },
                    }
                }
            },
            _ => Err(unsupported_err("expression")),
        }
    }

    /// The translation of the statements of `v` from `start` on: each `let`
    /// and each statement before the last binds what follows it; the last
    /// gives the value.
    fn compile_stmts(&mut self, v: &Vec<RustStmt>, start: usize) -> (r: Result<PreSIR, String>)
        requires
            old(self).generic_type_params@.len() < i64::MAX,
            start <= v@.len(),
        ensures
            (res_of(r), ctx_of(*final(self))) == compile_stmts_m(
                stmts_of(v@).subrange(start as int, v@.len() as int),
                ctx_of(*old(self)),
            ),
            final(self).generic_type_params == old(self).generic_type_params,
        decreases v, v@.len() - start, 1int,
    {
        proof {
            lemma_stmts_of(v@);
        }
        if start == v.len() {
            return Ok(unit_const());
        }
        let last = start + 1 == v.len();
        match &v[start] {
            RustStmt::Local(..) => self.compile_let_stmt(v, start),
            RustStmt::Expr(x) => if last {
                self.compile_expr(x)
            } else {
                self.compile_seq(v, start)
            },
            RustStmt::Macro(m) => if last {
                self.compile_macro(m)
            } else {
                self.compile_seq(v, start)
            },
            RustStmt::Other => Err(unsupported_err("statement")),
        }
    }

    /// The statement `v[start]`, whose value is discarded, then the rest.
    fn compile_seq(&mut self, v: &Vec<RustStmt>, start: usize) -> (r: Result<PreSIR, String>)
        requires
            old(self).generic_type_params@.len() < i64::MAX,
            start < v@.len(),
        ensures
            (res_of(r), ctx_of(*final(self))) == compile_seq_m(
                stmts_of(v@).subrange(start as int, v@.len() as int),
                ctx_of(*old(self)),
            ),
            final(self).generic_type_params == old(self).generic_type_params,
        decreases v, v@.len() - start, 0int,
    {
        proof {
            lemma_stmts_of(v@);
            assert(stmts_of(v@).subrange(start as int, v@.len() as int).subrange(1, v@.len() - start) =~= stmts_of(
                v@,
            ).subrange(start + 1, v@.len() as int));
        }
        let n = v.len();
        let val = match &v[start] {
            RustStmt::Expr(x) => self.compile_expr(x),
            RustStmt::Macro(m) => self.compile_macro(m),
            _ => {
                return Err(unsupported_err("statement"));
            },
        };
        match val {
            Err(m) => Err(m),
            Ok(vp) => {
                let b = self.compile_stmts(v, start + 1);
                match b {
                    Err(m) => Err(m),
                    Ok(bp) => Ok(
                        PreSIR::Let {
                            name: owned("_"),
                            type_hint: TypeHint::Infer,
                            value: Box::new(vp),
                            body: Box::new(bp),
                            is_rec: false,
                            anns: AnnotationsDecl::empty(),
                        },
                    ),
                }
            },
        }
    }

    /// The translation of the `let` statement `v[start]` and the statements
    /// after it.
    fn compile_let_stmt(&mut self, v: &Vec<RustStmt>, start: usize) -> (r: Result<PreSIR, String>)
        requires
            old(self).generic_type_params@.len() < i64::MAX,
            start < v@.len(),
        ensures
            (res_of(r), ctx_of(*final(self))) == compile_let_m(
                stmts_of(v@).subrange(start as int, v@.len() as int),
                ctx_of(*old(self)),
            ),
            final(self).generic_type_params == old(self).generic_type_params,
        decreases v, v@.len() - start, 0int,
    {
        proof {
            lemma_stmts_of(v@);
            assert(stmts_of(v@).subrange(start as int, v@.len() as int).subrange(1, v@.len() - start) =~= stmts_of(
                v@,
            ).subrange(start + 1, v@.len() as int));
        }
        let n = v.len();
        match &v[start] {
            RustStmt::Local(pat, init) => {
                let name = match pat {
                    RustPat::Ident(n) => crate::duplicate::dup_string(n),
                    RustPat::Typed(inner, _) => match &**inner {
                        RustPat::Ident(n) => crate::duplicate::dup_string(n),
                        _ => owned("_"),
                    },
                    _ => owned("_"),
                };
                let renamed = self.fresh_var(name.as_str());
                match pat {
                    RustPat::Typed(_, ty) => {
                        self.register_var_type(renamed.as_str(), ty.text.as_str());
                        let _ = self.register_rust_type(ty.text.as_str());
                    },
                    _ => {},
                }
                let val = match init {
                    Some(x) => {
                        let tried = match x {
                            RustExpr::MethodCall(recv, method, _, _) => if str_eq(method.as_str(), "unwrap") {
                                let h = self.let_hint(pat);
                                self.try_compile_from_data(recv, Some(h))
                            } else {
                                None
                            },
                            _ => None,
                        };
                        match tried {
                            Some(res) => res,
                            None => self.compile_expr(x),
                        }
                    },
                    None => Err(unsupported_err("let without initializer")),
                };
                match val {
                    Err(m) => Err(m),
                    Ok(vp) => {
                        let b = self.compile_stmts(v, start + 1);
                        match b {
                            Err(m) => Err(m),
                            Ok(bp) => Ok(
                                PreSIR::Let {
                                    name: renamed,
                                    type_hint: self.let_hint(pat),
                                    value: Box::new(vp),
                                    body: Box::new(bp),
                                    is_rec: false,
                                    anns: AnnotationsDecl::empty(),
                                },
                            ),
                        }
                    },
                }
            },
            _ => Err(unsupported_err("statement")),
        }
    }

    /// The type hint that a `let` pattern gives its binding.
    fn let_hint(&self, p: &RustPat) -> (r: TypeHint)
        requires
            self.generic_type_params@.len() < i64::MAX,
        ensures
            hint_of(r) == let_binder(pat_of(*p), ctx_of(*self).gps).1,
    {
        match p {
            RustPat::Typed(_, ty) => rust_type_to_type_hint(ty, &self.generic_type_params),
            _ => TypeHint::Infer,
        }
    }
}


// ---------------------------------------------------------------------------
// A whole function
// ---------------------------------------------------------------------------

/// A generic type parameter, with the last path segment of each of its
/// trait bounds.
#[derive(Debug, PartialEq)]
pub struct RustGeneric {
    pub name: String,
    pub bounds: Vec<String>,
}

/// A parameter bound to an identifier, with its type.
#[derive(Debug, PartialEq)]
pub struct RustParam {
    pub name: String,
    pub ty: RustType,
}

/// A function under `#[compile]` as the front end reads it.
#[derive(Debug, PartialEq)]
pub struct RustFn {
    pub name: String,
    /// The source file, for the positions of its terms.
    pub file: String,
    pub generics: Vec<RustGeneric>,
    pub params: Vec<RustParam>,
    /// The return type, where one is written.
    pub ret: Option<RustType>,
    pub body: Vec<RustStmt>,
}

/// What the front end emits for a function: its definition, but for the
/// type dictionary, and the registrations that fill that dictionary when
/// the definition is built.
#[derive(Debug, PartialEq)]
pub struct CompiledFn {
    pub rust_name: String,
    pub sir_name: String,
    pub module: Option<String>,
    pub params: Vec<crate::pre_sir::PreParam>,
    pub ret_type: TypeHint,
    pub generic_params: Vec<String>,
    pub typeclass_bounds: Vec<crate::pre_sir::TypeclassBound>,
    pub body: PreSIR,
    pub registrations: Vec<crate::front::Registration>,
}

/// The names of the generic parameters.
pub open spec fn generic_names(g: Seq<RustGeneric>) -> Seq<Seq<char>> {
    g.map_values(|x: RustGeneric| x.name@)
}

/// The typeclass bounds among the bounds of the parameter with the 1-based
/// index `idx`: those on `PartialEq` and `PartialOrd`, in order.
pub open spec fn trait_bounds_m(bs: Seq<Seq<char>>, idx: i64) -> Seq<(Seq<char>, i64)>
    decreases bs.len(),
{
    if bs.len() == 0 {
        Seq::empty()
    } else {
        let rest = trait_bounds_m(bs.drop_last(), idx);
        if bs.last() == "PartialEq"@ || bs.last() == "PartialOrd"@ {
            rest.push((bs.last(), idx))
        } else {
            rest
        }
    }
}

/// The typeclass bounds of the generic parameters, in order.
pub open spec fn bounds_m(g: Seq<RustGeneric>) -> Seq<(Seq<char>, i64)>
    decreases g.len(),
{
    if g.len() == 0 {
        Seq::empty()
    } else {
        bounds_m(g.drop_last()) + trait_bounds_m(texts(g.last().bounds@), g.len() as i64)
    }
}

/// The SIR name of a function: the `name` argument of the attribute, or
/// the function's own name.
pub open spec fn sir_name_m(f: RustFn, attrs: Seq<(String, String)>) -> Seq<char> {
    match crate::front::attr_value(attrs, "name"@) {
        Some(n) => n,
        None => f.name@,
    }
}

/// The context in which a function's parameters are registered: its file,
/// its generic parameters, and its own name mapped to its SIR name where
/// the two differ.
pub open spec fn fn_ctx_m(f: RustFn, sir: Seq<char>) -> crate::front::CtxM {
    crate::front::CtxM {
        file: f.file@,
        gps: generic_names(f.generics@),
        remaps: if sir != f.name@ {
            seq![(f.name@, sir)]
        } else {
            Seq::empty()
        },
        counts: Seq::empty(),
        scopes: seq![Seq::empty()],
        registered: Seq::empty(),
        regs: Seq::empty(),
    }
}

/// The context after the type of each parameter is registered, under the
/// parameter's own name.
pub open spec fn reg_params_m(ps: Seq<RustParam>, c: crate::front::CtxM) -> crate::front::CtxM
    decreases ps.len(),
{
    if ps.len() == 0 {
        c
    } else {
        let c1 = reg_params_m(ps.drop_last(), c);
        let t = ps.last().ty.text@;
        crate::front::reg_type_m(crate::front::reg_var_m(c1, ps.last().name@, t), t)
    }
}

/// The context in which a function's body is translated.
pub open spec fn body_ctx_m(f: RustFn, attrs: Seq<(String, String)>) -> crate::front::CtxM {
    reg_params_m(f.params@, fn_ctx_m(f, sir_name_m(f, attrs)))
}

/// The model of a parameter as the front end emits it.
pub open spec fn pre_param_of(p: crate::pre_sir::PreParam) -> (Seq<char>, HintM, Seq<char>) {
    (p.name@, hint_of(p.type_hint), p.rust_type_path@)
}

/// The parameter that the front end emits for a parameter of the function.
pub open spec fn param_m(p: RustParam, gps: Seq<Seq<char>>) -> (Seq<char>, HintM, Seq<char>) {
    (p.name@, type_hint_spec(p.ty, gps), crate::front::base_name(p.ty))
}

/// The name of the type of a Rust type: its path joined with `::`, or
/// `unknown` where it is not a path.
fn base_type_name(t: &RustType) -> (r: String)
    ensures
        r@ == crate::front::base_name(*t),
{
    if t.path.len() == 0 {
        owned("unknown")
    } else {
        crate::front::join_segments(&t.path)
    }
}

/// The typeclass bounds of the generic parameters.
fn typeclass_bounds_of(g: &Vec<RustGeneric>) -> (r: Vec<crate::pre_sir::TypeclassBound>)
    requires
        g@.len() < i64::MAX,
    ensures
        r@.map_values(|b: crate::pre_sir::TypeclassBound| (b.trait_name@, b.type_param_index)) == bounds_m(g@),
{
    let ghost bm = |b: crate::pre_sir::TypeclassBound| (b.trait_name@, b.type_param_index);
    let mut out: Vec<crate::pre_sir::TypeclassBound> = Vec::new();
    let mut i: usize = 0;
    assert(out@.map_values(bm) =~= bounds_m(g@.take(0)));
    while i < g.len()
        invariant
            i <= g@.len(),
            g@.len() < i64::MAX,
            bm == (|b: crate::pre_sir::TypeclassBound| (b.trait_name@, b.type_param_index)),
            out@.map_values(bm) == bounds_m(g@.take(i as int)),
        decreases g@.len() - i,
    {
        let idx: i64 = (i + 1) as i64;
        let bs = &g[i].bounds;
        let ghost before = out@.map_values(bm);
        let mut j: usize = 0;
        assert(texts(bs@).take(0) =~= Seq::<Seq<char>>::empty());
        assert(out@.map_values(bm) =~= before + trait_bounds_m(texts(bs@).take(0), idx));
        while j < bs.len()
            invariant
                j <= bs@.len(),
                bm == (|b: crate::pre_sir::TypeclassBound| (b.trait_name@, b.type_param_index)),
                out@.map_values(bm) == before + trait_bounds_m(texts(bs@).take(j as int), idx),
            decreases bs@.len() - j,
        {
            let ghost o0 = out@;
            let ghost tj = texts(bs@).take(j + 1);
            assert(tj.drop_last() =~= texts(bs@).take(j as int));
            assert(tj.last() == bs@[j as int]@);
            proof {
                reveal_strlit("PartialEq");
                reveal_strlit("PartialOrd");
            }
            if str_eq(bs[j].as_str(), "PartialEq") || str_eq(bs[j].as_str(), "PartialOrd") {
                out.push(
                    crate::pre_sir::TypeclassBound {
                        trait_name: crate::duplicate::dup_string(&bs[j]),
                        type_param_index: idx,
                    },
                );
                assert(out@.map_values(bm) =~= o0.map_values(bm).push((bs@[j as int]@, idx)));
            }
            j += 1;
        }
        assert(texts(bs@).take(j as int) =~= texts(bs@));
        let ghost gi = g@.take(i + 1);
        assert(gi.drop_last() =~= g@.take(i as int));
        assert(gi.len() as i64 == idx);
        i += 1;
    }
    assert(g@.take(i as int) =~= g@);
    out
}

/// The pre-SIR definition of a function under `#[compile(..)]`, whose
/// `key = "value"` arguments are `attrs`: its parameters (registered under
/// their own names), its return type (unit where none is written), its
/// generic parameters with their `PartialEq` and `PartialOrd` bounds, and
/// its body translated; or the error for the first part of the body that
/// the front end does not translate.
pub fn compile_impl(f: &RustFn, attrs: &Vec<(String, String)>) -> (r: Result<CompiledFn, String>)
    requires
        f.generics@.len() < i64::MAX,
    ensures
        match compile_stmts_m(stmts_of(f.body@), body_ctx_m(*f, attrs@)) {
            (Err(m), _) => r matches Err(x) && x@ == m,
            (Ok(b), c) => r matches Ok(cf) && {
                &&& pre_of(cf.body) == b
                &&& cf.registrations@.map_values(|x: crate::front::Registration| crate::front::reg_of(x)) == c.regs
                &&& cf.rust_name@ == f.name@
                &&& cf.sir_name@ == sir_name_m(*f, attrs@)
                &&& crate::model::opt_str_of(cf.module) == crate::front::attr_value(attrs@, "module"@)
                &&& cf.params@.map_values(|p: crate::pre_sir::PreParam| pre_param_of(p)) == f.params@.map_values(
                    |p: RustParam| param_m(p, generic_names(f.generics@)),
                )
                &&& hint_of(cf.ret_type) == match f.ret {
                    Some(t) => type_hint_spec(t, generic_names(f.generics@)),
                    None => HintM::Unit,
                }
                &&& texts(cf.generic_params@) == generic_names(f.generics@)
                &&& cf.typeclass_bounds@.map_values(
                    |b: crate::pre_sir::TypeclassBound| (b.trait_name@, b.type_param_index),
                ) == bounds_m(f.generics@)
            },
        },
{
    let (module, name_attr) = crate::front::compile_attrs(attrs);
    let sir_name = match name_attr {
        Some(n) => n,
        None => crate::duplicate::dup_string(&f.name),
    };
    let mut gps: Vec<String> = Vec::new();
    let mut i: usize = 0;
    while i < f.generics.len()
        invariant
            i <= f.generics@.len(),
            texts(gps@) == generic_names(f.generics@).take(i as int),
        decreases f.generics@.len() - i,
    {
        let ghost g0 = gps@;
        gps.push(crate::duplicate::dup_string(&f.generics[i].name));
        assert(texts(gps@) =~= texts(g0).push(f.generics@[i as int].name@));
        assert(generic_names(f.generics@).take(i + 1) =~= generic_names(f.generics@).take(i as int).push(
            f.generics@[i as int].name@,
        ));
        i += 1;
    }
    assert(generic_names(f.generics@).take(i as int) =~= generic_names(f.generics@));
    let mut remaps: Vec<(String, String)> = Vec::new();
    if !str_eq(sir_name.as_str(), f.name.as_str()) {
        remaps.push((crate::duplicate::dup_string(&f.name), crate::duplicate::dup_string(&sir_name)));
    }
    let mut scopes: Vec<Vec<(String, String)>> = Vec::new();
    scopes.push(Vec::new());
    let mut ctx = CompileCtx {
        file: crate::duplicate::dup_string(&f.file),
        generic_type_params: crate::duplicate::dup_strings(&gps),
        current_fn_name: Some(crate::duplicate::dup_string(&f.name)),
        name_remaps: remaps,
        name_counts: Vec::new(),
        name_scopes: scopes,
        registered_types: Vec::new(),
        type_registrations: Vec::new(),
    };
    proof {
        let c = ctx_of(ctx);
        let m = fn_ctx_m(*f, sir_name@);
        assert(c.gps =~= m.gps);
        assert(c.remaps =~= m.remaps);
        assert(c.counts =~= m.counts);
        assert(scope_of(Seq::<(String, String)>::empty()) =~= Seq::<(Seq<char>, Seq<char>)>::empty());
        assert(c.scopes =~= m.scopes);
        assert(c.registered =~= m.registered);
        assert(c.regs =~= m.regs);
    }
    let ghost c0 = ctx_of(ctx);
    let mut params: Vec<crate::pre_sir::PreParam> = Vec::new();
    let mut k: usize = 0;
    while k < f.params.len()
        invariant
            k <= f.params@.len(),
            ctx_of(ctx) == reg_params_m(f.params@.take(k as int), c0),
            ctx.generic_type_params@.len() == f.generics@.len(),
            texts(ctx.generic_type_params@) == generic_names(f.generics@),
            f.generics@.len() < i64::MAX,
            params@.map_values(|p: crate::pre_sir::PreParam| pre_param_of(p)) == f.params@.take(k as int).map_values(
                |p: RustParam| param_m(p, generic_names(f.generics@)),
            ),
        decreases f.params@.len() - k,
    {
        let p = &f.params[k];
        let ghost pk = f.params@.take(k + 1);
        assert(pk.drop_last() =~= f.params@.take(k as int));
        ctx.register_var_type(p.name.as_str(), p.ty.text.as_str());
        let _ = ctx.register_rust_type(p.ty.text.as_str());
        let ghost q0 = params@;
        params.push(
            crate::pre_sir::PreParam {
                name: crate::duplicate::dup_string(&p.name),
                type_hint: rust_type_to_type_hint(&p.ty, &ctx.generic_type_params),
                rust_type_path: base_type_name(&p.ty),
            },
        );
        assert(params@.map_values(|p: crate::pre_sir::PreParam| pre_param_of(p)) =~= q0.map_values(
            |p: crate::pre_sir::PreParam| pre_param_of(p),
        ).push(param_m(f.params@[k as int], generic_names(f.generics@))));
        assert(f.params@.take(k + 1).map_values(|p: RustParam| param_m(p, generic_names(f.generics@))) =~= f.params@.take(
            k as int,
        ).map_values(|p: RustParam| param_m(p, generic_names(f.generics@))).push(
            param_m(f.params@[k as int], generic_names(f.generics@)),
        ));
        k += 1;
    }
    assert(f.params@.take(k as int) =~= f.params@);
    proof {
        lemma_stmts_of(f.body@);
        assert(stmts_of(f.body@).subrange(0, f.body@.len() as int) =~= stmts_of(f.body@));
    }
    let ret_type = match &f.ret {
        Some(t) => rust_type_to_type_hint(t, &ctx.generic_type_params),
        None => TypeHint::Unit,
    };
    let typeclass_bounds = typeclass_bounds_of(&f.generics);
    let body = ctx.compile_stmts(&f.body, 0);
    match body {
        Err(m) => Err(m),
        Ok(b) => Ok(
            CompiledFn {
                rust_name: crate::duplicate::dup_string(&f.name),
                sir_name,
                module,
                params,
                ret_type,
                generic_params: gps,
                typeclass_bounds,
                body: b,
                registrations: ctx.type_registrations,
            },
        ),
    }
}

} // verus!
