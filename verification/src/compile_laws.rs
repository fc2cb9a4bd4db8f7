//! What every step of the translation of a function body keeps: the file,
//! the generic parameters and the renamed function names stay; the scopes
//! outside the innermost one stay as they are, and the innermost one only
//! gains bindings; registrations and the names given out only grow. A match
//! arm's bindings are gone once the arm is translated.
use crate::compile::{
    ExprM, PatM, StmtM, compile_all_m, compile_arms_m, compile_call_m, compile_let_m, compile_m,
    compile_method_m, compile_pat_m, compile_seq_m, compile_stmts_m, fresh_named_m, fresh_opts_m, let_binder,
    try_from_data_m,
};
use crate::front::{CtxM, fresh_m, pop_m, push_m, reg_type_m, reg_var_m};
use crate::pre_sir::HintM;
use vstd::prelude::*;

verus! {

/// `a` is a prefix of `b`.
pub open spec fn prefix<A>(a: Seq<A>, b: Seq<A>) -> bool {
    a.len() <= b.len() && forall|i: int| 0 <= i < a.len() ==> a[i] == b[i]
}

/// `c2` keeps what `c` holds: the same file, generic parameters and
/// renamed functions; the same scopes but for the innermost one, which only
/// gains bindings; and registrations, registered types and names given out
/// that only grow.
pub open spec fn keeps(c: CtxM, c2: CtxM) -> bool {
    &&& c2.file == c.file
    &&& c2.gps == c.gps
    &&& c2.remaps == c.remaps
    &&& c2.scopes.len() == c.scopes.len()
    &&& c.scopes.len() > 0 ==> c2.scopes.drop_last() == c.scopes.drop_last() && prefix(
        c.scopes.last(),
        c2.scopes.last(),
    )
    &&& prefix(c.regs, c2.regs)
    &&& prefix(c.registered, c2.registered)
    &&& prefix(c.counts, c2.counts)
}

proof fn lemma_keeps_trans(a: CtxM, b: CtxM, c: CtxM)
    requires
        keeps(a, b),
        keeps(b, c),
    ensures
        keeps(a, c),
{
}

proof fn lemma_fresh_keeps(c: CtxM, k: Seq<char>)
    ensures
        keeps(c, fresh_m(c, k).1),
{
    let c2 = fresh_m(c, k).1;
    if c.scopes.len() > 0 {
        assert(c2.scopes.drop_last() =~= c.scopes.drop_last());
    }
}

proof fn lemma_regs_keep(c: CtxM, name: Seq<char>, t: Seq<char>)
    ensures
        keeps(c, reg_var_m(c, name, t)),
        keeps(c, reg_type_m(c, t)),
{
}

/// Translating an arm inside a scope of its own and closing that scope
/// keeps the context, scopes and all.
proof fn lemma_arm_scope(c1: CtxM, c3: CtxM)
    requires
        keeps(push_m(c1), c3),
    ensures
        keeps(c1, pop_m(c3)),
        pop_m(c3).scopes == c1.scopes,
{
    let p = push_m(c1);
    assert(p.scopes.drop_last() =~= c1.scopes);
    assert(pop_m(c3).scopes =~= c1.scopes);
}

proof fn lemma_fresh_opts_keeps(s: Seq<Option<Seq<char>>>, c: CtxM)
    ensures
        keeps(c, fresh_opts_m(s, c).1),
    decreases s.len(),
{
    if s.len() > 0 {
        let p = s.subrange(0, s.len() - 1);
        lemma_fresh_opts_keeps(p, c);
        let c1 = fresh_opts_m(p, c).1;
        if let Some(n) = s.last() {
            lemma_fresh_keeps(c1, n);
        }
    }
}

proof fn lemma_fresh_named_keeps(s: Seq<Option<Seq<char>>>, c: CtxM)
    ensures
        keeps(c, fresh_named_m(s, c).1),
    decreases s.len(),
{
    if s.len() > 0 {
        let p = s.subrange(0, s.len() - 1);
        lemma_fresh_named_keeps(p, c);
        let c1 = fresh_named_m(p, c).1;
        if let Some(n) = s.last() {
            lemma_fresh_keeps(c1, n);
        }
    }
}

proof fn lemma_pat_keeps(p: PatM, c: CtxM)
    ensures
        keeps(c, compile_pat_m(p, c).1),
{
    match p {
        PatM::TupleStruct(_, elems) => lemma_fresh_opts_keeps(elems, c),
        PatM::Struct(_, members) => lemma_fresh_named_keeps(members, c),
        PatM::Ident(n) => lemma_fresh_keeps(c, n),
        _ => {},
    }
}

/// Translating an expression keeps the context.
pub proof fn law_expr_keeps(e: ExprM, c: CtxM)
    ensures
        keeps(c, compile_m(e, c).1),
    decreases e, 1nat,
{
    match e {
        ExprM::Binary(op, l, r, p) => {
            law_expr_keeps(*l, c);
            let (lv, c1) = compile_m(*l, c);
            if lv is Ok {
                law_expr_keeps(*r, c1);
            }
        },
        ExprM::Call(..) => lemma_call_keeps(e, c),
        ExprM::MethodCall(..) => lemma_method_keeps(e, c),
        ExprM::If(cond, t, el) => {
            law_expr_keeps(*cond, c);
            let (cv, c1) = compile_m(*cond, c);
            if cv is Ok {
                law_stmts_keeps(t, c1);
                let (tv, c2) = compile_stmts_m(t, c1);
                if tv is Ok {
                    if let Some(x) = el {
                        law_expr_keeps(*x, c2);
                    }
                }
            }
        },
        ExprM::Match(scrut, arms, p) => {
            law_expr_keeps(*scrut, c);
            let (sv, c1) = compile_m(*scrut, c);
            if sv is Ok {
                law_arms_keep_scopes(arms, c1);
            }
        },
        ExprM::Field(b, _, _) => law_expr_keeps(*b, c),
        ExprM::Deref(x) => law_expr_keeps(*x, c),
        ExprM::Neg(x, _) => law_expr_keeps(*x, c),
        ExprM::Paren(x) => law_expr_keeps(*x, c),
        ExprM::Reference(x) => law_expr_keeps(*x, c),
        ExprM::Require(cond, _) => law_expr_keeps(*cond, c),
        ExprM::Block(s) => law_stmts_keeps(s, c),
        _ => {},
    }
}

/// Translating expressions one after the other keeps the context.
pub proof fn law_exprs_keep(s: Seq<ExprM>, c: CtxM)
    ensures
        keeps(c, compile_all_m(s, c).1),
    decreases s, 1nat,
{
    if s.len() > 0 {
        let p = s.subrange(0, s.len() - 1);
        law_exprs_keep(p, c);
        let (xs, c1) = compile_all_m(p, c);
        if xs is Ok {
            law_expr_keeps(s[s.len() - 1], c1);
        }
    }
}

/// Translating match arms keeps the context, and leaves the scopes as
/// they were: each arm's bindings are gone after it.
pub proof fn law_arms_keep_scopes(s: Seq<(PatM, ExprM, crate::compile::Pos)>, c: CtxM)
    ensures
        keeps(c, compile_arms_m(s, c).1),
        compile_arms_m(s, c).1.scopes == c.scopes,
    decreases s, 1nat,
{
    if s.len() > 0 {
        let p = s.subrange(0, s.len() - 1);
        law_arms_keep_scopes(p, c);
        let (xs, c1) = compile_arms_m(p, c);
        if xs is Ok {
            let a = s[s.len() - 1];
            lemma_pat_keeps(a.0, push_m(c1));
            let c2 = compile_pat_m(a.0, push_m(c1)).1;
            law_expr_keeps(a.1, c2);
            let c3 = compile_m(a.1, c2).1;
            lemma_keeps_trans(push_m(c1), c2, c3);
            lemma_arm_scope(c1, c3);
        }
    }
}

proof fn lemma_try_keeps(r: ExprM, hint: Option<HintM>, c: CtxM)
    ensures
        match try_from_data_m(r, hint, c) {
            Some((_, c1)) => keeps(c, c1),
            None => true,
        },
    decreases r, 0nat,
{
    match r {
        ExprM::Call(f, args, _, _) => match *f {
            ExprM::Path(segs, _) => if segs.len() == 2 && segs[1] == "from_data"@ && args.len() == 1 {
                let inner = match args[0] {
                    ExprM::Reference(x) => *x,
                    _ => args[0],
                };
                law_expr_keeps(inner, c);
            },
            _ => {},
        },
        _ => {},
    }
}

proof fn lemma_call_keeps(e: ExprM, c: CtxM)
    ensures
        keeps(c, compile_call_m(e, c).1),
    decreases e, 0nat,
{
    if let ExprM::Call(_, args, _, _) = e {
        law_exprs_keep(args, c);
    }
}

proof fn lemma_method_keeps(e: ExprM, c: CtxM)
    ensures
        keeps(c, compile_method_m(e, c).1),
    decreases e, 0nat,
{
    if let ExprM::MethodCall(recv, method, args, _) = e {
        law_expr_keeps(*recv, c);
        lemma_try_keeps(*recv, None, c);
        let (rv, c1) = compile_m(*recv, c);
        if rv is Ok {
            law_exprs_keep(args, c1);
        }
    }
}

/// Translating statements keeps the context.
pub proof fn law_stmts_keeps(s: Seq<StmtM>, c: CtxM)
    ensures
        keeps(c, compile_stmts_m(s, c).1),
    decreases s, 1nat,
{
    if s.len() > 0 {
        match s[0] {
            StmtM::Local(..) => lemma_let_keeps(s, c),
            StmtM::Expr(e) => if s.len() == 1 {
                law_expr_keeps(e, c);
            } else {
                lemma_seq_keeps(s, c);
            },
            StmtM::Macro(e) => if s.len() == 1 {
                law_expr_keeps(e, c);
            } else {
                lemma_seq_keeps(s, c);
            },
            StmtM::Other => {},
        }
    }
}

proof fn lemma_seq_keeps(s: Seq<StmtM>, c: CtxM)
    ensures
        keeps(c, compile_seq_m(s, c).1),
    decreases s, 0nat,
{
    if s.len() > 0 {
        match s[0] {
            StmtM::Expr(e) | StmtM::Macro(e) => {
                assert(decreases_to!(s => s[0]));
                law_expr_keeps(e, c);
                let (v, c1) = compile_m(e, c);
                if v is Ok {
                    law_stmts_keeps(s.subrange(1, s.len() as int), c1);
                }
            },
            _ => {},
        }
    }
}

proof fn lemma_let_keeps(s: Seq<StmtM>, c: CtxM)
    ensures
        keeps(c, compile_let_m(s, c).1),
    decreases s, 0nat,
{
    if s.len() > 0 {
        match s[0] {
            StmtM::Local(p, init) => {
                assert(decreases_to!(s => s[0]));
                let (name, hint, ty) = let_binder(p, c.gps);
                let (renamed, c1) = fresh_m(c, name);
                lemma_fresh_keeps(c, name);
                let c2 = match ty {
                    Some(t) => reg_type_m(reg_var_m(c1, renamed, t.text@), t.text@),
                    None => c1,
                };
                if let Some(t) = ty {
                    lemma_regs_keep(c1, renamed, t.text@);
                    lemma_regs_keep(reg_var_m(c1, renamed, t.text@), renamed, t.text@);
                }
                let c3 = match init {
                    Some(x) => {
                        let tried = match x {
                            ExprM::MethodCall(recv, method, _, _) => if method == "unwrap"@ {
                                try_from_data_m(*recv, Some(hint), c2)
                            } else {
                                None
                            },
                            _ => None,
                        };
                        match x {
                            ExprM::MethodCall(recv, method, _, _) => if method == "unwrap"@ {
                                lemma_try_keeps(*recv, Some(hint), c2);
                            },
                            _ => {},
                        }
                        law_expr_keeps(x, c2);
                        match tried {
                            Some(res) => res.1,
                            None => compile_m(x, c2).1,
                        }
                    },
                    None => c2,
                };
                law_stmts_keeps(s.subrange(1, s.len() as int), c3);
            },
            _ => {},
        }
    }
}

} // verus!
