//! Renumbering of type variables: every type parameter of the symbol table
//! gets an id of its own, counting from 1 in key order, and the types inside
//! each declaration's constructors follow the new ids.
use crate::model::{ConstrM, DeclM, Ty, TvM, constr_of, constrs_of, decl_of, params_of, tv_of, tvs_of, ty_of, tys_of, lemma_tys_of};
use crate::name_map::NameMap;
use crate::sir_type::{ConstrDecl, DataDecl, SIRType, TypeBinding, TypeVar};
use crate::typing::st_of;
use std::collections::HashMap;
use vstd::prelude::*;

verus! {


broadcast use {vstd::std_specs::vec::group_vec_axioms, vstd::std_specs::hash::group_hash_axioms, crate::model::group_model_seqs};

// ---------------------------------------------------------------------------
// The renumbering, on models
// ---------------------------------------------------------------------------

/// A type with the ids of its type variables renamed by `r` (ids outside the
/// domain of `r` stay).
pub open spec fn remap_ty(t: Ty, r: Map<i64, i64>) -> Ty
    decreases t,
{
    match t {
        Ty::TypeVar(n, Some(id), b) => if r.contains_key(id) {
            Ty::TypeVar(n, Some(r[id]), b)
        } else {
            t
        },
        Ty::Fun(a, b) => Ty::Fun(Box::new(remap_ty(*a, r)), Box::new(remap_ty(*b, r))),
        Ty::SumCaseClass(d, args) => Ty::SumCaseClass(d, remap_tys(args, r)),
        Ty::CaseClass(c, d, args) => Ty::CaseClass(c, d, remap_tys(args, r)),
        _ => t,
    }
}

/// Each of a sequence of types renamed by `r`.
pub open spec fn remap_tys(s: Seq<Ty>, r: Map<i64, i64>) -> Seq<Ty>
    decreases s,
{
    if s.len() == 0 {
        Seq::empty()
    } else {
        remap_tys(s.subrange(0, s.len() - 1), r).push(remap_ty(s[s.len() - 1], r))
    }
}

/// A type variable renamed by `r`.
pub open spec fn remap_tv(v: TvM, r: Map<i64, i64>) -> TvM {
    match v.opt_id {
        Some(id) => if r.contains_key(id) {
            TvM { opt_id: Some(r[id]), ..v }
        } else {
            v
        },
        None => v,
    }
}

/// A constructor whose type parameters, parent type arguments and field types
/// are renamed by `r`.
pub open spec fn remap_constr(c: ConstrM, r: Map<i64, i64>) -> ConstrM {
    ConstrM {
        params: c.params.map_values(|p: (Seq<char>, Ty)| (p.0, remap_ty(p.1, r))),
        type_params: c.type_params.map_values(|v: TvM| remap_tv(v, r)),
        parent_type_args: remap_tys(c.parent_type_args, r),
        ..c
    }
}

/// Numbering type parameters from `start`: the new parameters, the map from
/// old ids to new ones, and the next number. Parameters without an id keep
/// none.
pub open spec fn number_tvs(tps: Seq<TvM>, start: int) -> (Seq<TvM>, Map<i64, i64>, int)
    decreases tps.len(),
{
    if tps.len() == 0 {
        (Seq::empty(), Map::empty(), start)
    } else {
        let (pre, r, c) = number_tvs(tps.subrange(0, tps.len() - 1), start);
        let v = tps[tps.len() - 1];
        match v.opt_id {
            Some(old) => (pre.push(TvM { opt_id: Some(c as i64), ..v }), r.insert(old, c as i64), c + 1),
            None => (pre.push(v), r, c),
        }
    }
}

/// A declaration renumbered from `start`, and the next number.
pub open spec fn renumber_decl(d: DeclM, start: int) -> (DeclM, int) {
    if d.type_params.len() == 0 {
        (d, start)
    } else {
        let (tps, r, next) = number_tvs(d.type_params, start);
        if r.is_empty() {
            (DeclM { type_params: tps, ..d }, next)
        } else {
            (
                DeclM {
                    type_params: tps,
                    constructors: d.constructors.map_values(|c: ConstrM| remap_constr(c, r)),
                    ..d
                },
                next,
            )
        }
    }
}

/// A symbol table renumbered in key order from `start`, and the next number.
pub open spec fn renumber_decls(ds: Seq<(Seq<char>, DeclM)>, start: int) -> (Seq<(Seq<char>, DeclM)>, int)
    decreases ds.len(),
{
    if ds.len() == 0 {
        (Seq::empty(), start)
    } else {
        let (pre, c) = renumber_decls(ds.subrange(0, ds.len() - 1), start);
        let (k, d) = ds[ds.len() - 1];
        let (d2, c2) = renumber_decl(d, c);
        (pre.push((k, d2)), c2)
    }
}

/// The ids of type parameters, in order.
pub open spec fn tv_ids(tps: Seq<TvM>) -> Seq<i64>
    decreases tps.len(),
{
    if tps.len() == 0 {
        Seq::empty()
    } else {
        let pre = tv_ids(tps.subrange(0, tps.len() - 1));
        match tps[tps.len() - 1].opt_id {
            Some(id) => pre.push(id),
            None => pre,
        }
    }
}

/// The ids of the type parameters of all declarations, in key order.
pub open spec fn decl_ids(ds: Seq<(Seq<char>, DeclM)>) -> Seq<i64>
    decreases ds.len(),
{
    if ds.len() == 0 {
        Seq::empty()
    } else {
        decl_ids(ds.subrange(0, ds.len() - 1)) + tv_ids(ds[ds.len() - 1].1.type_params)
    }
}

// ---------------------------------------------------------------------------
// Laws
// ---------------------------------------------------------------------------

/// Numbering gives the parameters with an id the numbers `start`,
/// `start + 1`, ... in order, and counts them.
pub proof fn lemma_number_tvs(tps: Seq<TvM>, start: int)
    requires
        start + tv_ids(tps).len() <= i64::MAX + 1,
        start >= 1,
    ensures
        number_tvs(tps, start).2 == start + tv_ids(tps).len(),
        number_tvs(tps, start).0.len() == tps.len(),
        tv_ids(number_tvs(tps, start).0).len() == tv_ids(tps).len(),
        forall|i: int| 0 <= i < tv_ids(tps).len() ==> #[trigger] tv_ids(number_tvs(tps, start).0)[i] == start + i,
        number_tvs(tps, start).1.is_empty() <==> tv_ids(tps).len() == 0,
    decreases tps.len(),
{
    if tps.len() > 0 {
        let p = tps.subrange(0, tps.len() - 1);
        let (pre, r, c) = number_tvs(p, start);
        let v = tps[tps.len() - 1];
        assert(tv_ids(p).len() <= tv_ids(tps).len());
        lemma_number_tvs(p, start);
        let res = number_tvs(tps, start).0;
        assert(res.subrange(0, res.len() - 1) =~= pre);
        match v.opt_id {
            Some(old) => {
                assert(r.insert(old, c as i64).dom().contains(old));
            },
            None => {},
        }
    } else {
        assert(Map::<i64, i64>::empty().dom() =~= Set::<i64>::empty());
    }
}

/// Renumbering the declarations from `start` gives their type parameters
/// with an id the numbers `start`, `start + 1`, ... in key order.
pub proof fn lemma_renumber_decls_ids(ds: Seq<(Seq<char>, DeclM)>, start: int)
    requires
        start + decl_ids(ds).len() <= i64::MAX + 1,
        start >= 1,
    ensures
        renumber_decls(ds, start).1 == start + decl_ids(ds).len(),
        renumber_decls(ds, start).0.len() == ds.len(),
        decl_ids(renumber_decls(ds, start).0).len() == decl_ids(ds).len(),
        forall|i: int| 0 <= i < decl_ids(ds).len() ==> #[trigger] decl_ids(renumber_decls(ds, start).0)[i] == start + i,
    decreases ds.len(),
{
    if ds.len() > 0 {
        let p = ds.subrange(0, ds.len() - 1);
        let (pre, c) = renumber_decls(p, start);
        let (k, d) = ds[ds.len() - 1];
        assert(decl_ids(p).len() <= decl_ids(ds).len());
        lemma_renumber_decls_ids(p, start);
        let res = renumber_decls(ds, start).0;
        assert(res.subrange(0, res.len() - 1) =~= pre);
        let (d2, c2) = renumber_decl(d, c);
        if d.type_params.len() > 0 {
            lemma_number_tvs(d.type_params, c);
        } else {
            assert(tv_ids(d.type_params) =~= Seq::<i64>::empty());
        }
        assert(res[res.len() - 1].1 == d2);
        let ids = decl_ids(res);
        assert(ids == decl_ids(pre) + tv_ids(d2.type_params));
        assert forall|i: int| 0 <= i < decl_ids(ds).len() implies #[trigger] ids[i] == start + i by {
            if i < decl_ids(pre).len() {
            } else {
                assert(ids[i] == tv_ids(d2.type_params)[i - decl_ids(pre).len()]);
            }
        }
    }
}

/// After renumbering a symbol table, the ids of its type parameters are
/// `1, 2, ..., n` in key order, so no two are the same; the keys stay.
pub proof fn law_renumber_numbers_from_one(ds: Seq<(Seq<char>, DeclM)>)
    requires
        decl_ids(ds).len() < i64::MAX,
    ensures
        ({
            let ids = decl_ids(renumber_decls(ds, 1).0);
            &&& ids.len() == decl_ids(ds).len()
            &&& forall|i: int| 0 <= i < ids.len() ==> #[trigger] ids[i] == i + 1
            &&& forall|i: int, j: int| 0 <= i < j < ids.len() ==> #[trigger] ids[i] != #[trigger] ids[j]
        }),
        forall|i: int| 0 <= i < ds.len() ==> #[trigger] renumber_decls(ds, 1).0[i].0 == ds[i].0,
{
    lemma_renumber_decls_ids(ds, 1);
    lemma_renumber_keys(ds, 1);
}

/// A type with the ids of all its type variables taken out.
pub open spec fn erase_ty(t: Ty) -> Ty
    decreases t,
{
    match t {
        Ty::TypeVar(n, _, b) => Ty::TypeVar(n, None, b),
        Ty::Fun(a, b) => Ty::Fun(Box::new(erase_ty(*a)), Box::new(erase_ty(*b))),
        Ty::SumCaseClass(d, args) => Ty::SumCaseClass(d, erase_tys(args)),
        Ty::CaseClass(c, d, args) => Ty::CaseClass(c, d, erase_tys(args)),
        _ => t,
    }
}

/// Each of a sequence of types with its ids taken out.
pub open spec fn erase_tys(s: Seq<Ty>) -> Seq<Ty>
    decreases s,
{
    if s.len() == 0 {
        Seq::empty()
    } else {
        erase_tys(s.subrange(0, s.len() - 1)).push(erase_ty(s[s.len() - 1]))
    }
}

/// A type parameter with its id taken out.
pub open spec fn erase_tv(v: TvM) -> TvM {
    TvM { opt_id: None, ..v }
}

/// A constructor with the ids of its type variables taken out.
pub open spec fn erase_constr(c: ConstrM) -> ConstrM {
    ConstrM {
        params: c.params.map_values(|p: (Seq<char>, Ty)| (p.0, erase_ty(p.1))),
        type_params: c.type_params.map_values(|v: TvM| erase_tv(v)),
        parent_type_args: erase_tys(c.parent_type_args),
        ..c
    }
}

/// A declaration with the ids of its type variables taken out.
pub open spec fn erase_decl(d: DeclM) -> DeclM {
    DeclM {
        constructors: d.constructors.map_values(|c: ConstrM| erase_constr(c)),
        type_params: d.type_params.map_values(|v: TvM| erase_tv(v)),
        ..d
    }
}

/// Renaming ids changes a type only in its ids.
pub proof fn lemma_erase_remap_ty(t: Ty, r: Map<i64, i64>)
    ensures
        erase_ty(remap_ty(t, r)) == erase_ty(t),
    decreases t,
{
    match t {
        Ty::Fun(a, b) => {
            lemma_erase_remap_ty(*a, r);
            lemma_erase_remap_ty(*b, r);
        },
        Ty::SumCaseClass(d, args) => {
            lemma_erase_remap_tys(args, r);
        },
        Ty::CaseClass(c, d, args) => {
            lemma_erase_remap_tys(args, r);
        },
        _ => {},
    }
}

/// Renaming ids changes types only in their ids.
pub proof fn lemma_erase_remap_tys(s: Seq<Ty>, r: Map<i64, i64>)
    ensures
        erase_tys(remap_tys(s, r)) == erase_tys(s),
    decreases s,
{
    if s.len() > 0 {
        let p = s.subrange(0, s.len() - 1);
        lemma_erase_remap_tys(p, r);
        lemma_erase_remap_ty(s[s.len() - 1], r);
        let m = remap_tys(s, r);
        lemma_remap_tys(p, r);
        assert(m.subrange(0, m.len() - 1) =~= remap_tys(p, r));
    }
}

/// Numbering type parameters changes them only in their ids; where none has
/// an id, it changes nothing.
pub proof fn lemma_erase_number_tvs(tps: Seq<TvM>, start: int)
    ensures
        number_tvs(tps, start).0.len() == tps.len(),
        number_tvs(tps, start).0.map_values(|v: TvM| erase_tv(v)) == tps.map_values(|v: TvM| erase_tv(v)),
        tv_ids(tps).len() == 0 ==> number_tvs(tps, start).0 == tps && number_tvs(tps, start).1 == Map::<
            i64,
            i64,
        >::empty(),
    decreases tps.len(),
{
    if tps.len() > 0 {
        let p = tps.subrange(0, tps.len() - 1);
        lemma_erase_number_tvs(p, start);
        let (pre, r, c) = number_tvs(p, start);
        let res = number_tvs(tps, start).0;
        assert(res.len() == pre.len() + 1);
        assert(res.subrange(0, res.len() - 1) =~= pre);
        assert(res.map_values(|v: TvM| erase_tv(v)) =~= tps.map_values(|v: TvM| erase_tv(v))) by {
            assert forall|i: int| 0 <= i < tps.len() implies erase_tv(#[trigger] res[i]) == erase_tv(tps[i]) by {
                if i < tps.len() - 1 {
                    assert(pre.map_values(|v: TvM| erase_tv(v))[i] == p.map_values(|v: TvM| erase_tv(v))[i]);
                    assert(p[i] == tps[i]);
                }
            }
        }
        if tv_ids(tps).len() == 0 {
            assert(tps[tps.len() - 1].opt_id is None);
            assert(tv_ids(p).len() == 0);
            assert(res =~= tps);
        }
    }
}

/// Renumbering one declaration changes it only in its ids, and not at all
/// where none of its type parameters has an id.
pub proof fn lemma_erase_renumber_decl(d: DeclM, start: int)
    ensures
        erase_decl(renumber_decl(d, start).0) == erase_decl(d),
        tv_ids(d.type_params).len() == 0 ==> renumber_decl(d, start).0 == d,
{
    if d.type_params.len() > 0 {
        let (tps, r, next) = number_tvs(d.type_params, start);
        lemma_erase_number_tvs(d.type_params, start);
        let d2 = renumber_decl(d, start).0;
        if !r.is_empty() {
            assert forall|i: int| 0 <= i < d.constructors.len() implies erase_constr(
                #[trigger] remap_constr(d.constructors[i], r),
            ) == erase_constr(d.constructors[i]) by {
                let c = d.constructors[i];
                let c2 = remap_constr(c, r);
                assert(c2.params.map_values(|p: (Seq<char>, Ty)| (p.0, erase_ty(p.1))) =~= c.params.map_values(
                    |p: (Seq<char>, Ty)| (p.0, erase_ty(p.1)),
                )) by {
                    assert forall|j: int| 0 <= j < c.params.len() implies erase_ty(
                        #[trigger] remap_ty(c.params[j].1, r),
                    ) == erase_ty(c.params[j].1) by {
                        lemma_erase_remap_ty(c.params[j].1, r);
                    }
                }
                assert(c2.type_params.map_values(|v: TvM| erase_tv(v)) =~= c.type_params.map_values(
                    |v: TvM| erase_tv(v),
                ));
                lemma_erase_remap_tys(c.parent_type_args, r);
            }
            assert(d2.constructors.map_values(|c: ConstrM| erase_constr(c)) =~= d.constructors.map_values(
                |c: ConstrM| erase_constr(c),
            ));
        }
        if tv_ids(d.type_params).len() == 0 {
            assert(Map::<i64, i64>::empty().dom() =~= Set::<i64>::empty());
            assert(r.is_empty());
        }
    }
}

/// Renumbering a symbol table changes nothing but the ids of type variables:
/// with every id taken out, each declaration is what it was, under the same
/// key, and a declaration none of whose type parameters has an id stays as it
/// was.
pub proof fn law_renumber_changes_only_ids(ds: Seq<(Seq<char>, DeclM)>, start: int)
    ensures
        renumber_decls(ds, start).0.len() == ds.len(),
        forall|i: int|
            0 <= i < ds.len() ==> {
                let e = #[trigger] renumber_decls(ds, start).0[i];
                &&& e.0 == ds[i].0
                &&& erase_decl(e.1) == erase_decl(ds[i].1)
                &&& tv_ids(ds[i].1.type_params).len() == 0 ==> e.1 == ds[i].1
            },
    decreases ds.len(),
{
    if ds.len() > 0 {
        let p = ds.subrange(0, ds.len() - 1);
        law_renumber_changes_only_ids(p, start);
        let (pre, c) = renumber_decls(p, start);
        let (k, d) = ds[ds.len() - 1];
        lemma_erase_renumber_decl(d, c);
        assert forall|i: int| 0 <= i < ds.len() implies {
            let e = #[trigger] renumber_decls(ds, start).0[i];
            &&& e.0 == ds[i].0
            &&& erase_decl(e.1) == erase_decl(ds[i].1)
            &&& tv_ids(ds[i].1.type_params).len() == 0 ==> e.1 == ds[i].1
        } by {
            if i < ds.len() - 1 {
                assert(p[i] == ds[i]);
                assert(renumber_decls(ds, start).0[i] == pre[i]);
            }
        }
    }
}

/// Renumbering keeps the keys of the symbol table.
pub proof fn lemma_renumber_keys(ds: Seq<(Seq<char>, DeclM)>, start: int)
    ensures
        renumber_decls(ds, start).0.len() == ds.len(),
        forall|i: int| 0 <= i < ds.len() ==> #[trigger] renumber_decls(ds, start).0[i].0 == ds[i].0,
    decreases ds.len(),
{
    if ds.len() > 0 {
        let p = ds.subrange(0, ds.len() - 1);
        lemma_renumber_keys(p, start);
        assert forall|i: int| 0 <= i < ds.len() implies #[trigger] renumber_decls(ds, start).0[i].0 == ds[i].0 by {
            if i < ds.len() - 1 {
                assert(p[i] == ds[i]);
            }
        }
    }
}

} // verus!

verus! {

use crate::duplicate::{dup_string, lemma_tys_push};

/// Renaming each of a sequence of types keeps its length and renames each.
pub proof fn lemma_remap_tys(s: Seq<Ty>, r: Map<i64, i64>)
    ensures
        remap_tys(s, r).len() == s.len(),
        forall|i: int| 0 <= i < s.len() ==> #[trigger] remap_tys(s, r)[i] == remap_ty(s[i], r),
    decreases s.len(),
{
    if s.len() > 0 {
        lemma_remap_tys(s.subrange(0, s.len() - 1), r);
        assert forall|i: int| 0 <= i < s.len() implies #[trigger] remap_tys(s, r)[i] == remap_ty(s[i], r) by {
            if i < s.len() - 1 {
                assert(s.subrange(0, s.len() - 1)[i] == s[i]);
            }
        }
    }
}

/// A prefix of type parameters has no more ids than the whole.
pub proof fn lemma_tv_ids_prefix(tps: Seq<TvM>, i: int)
    requires
        0 <= i <= tps.len(),
    ensures
        tv_ids(tps.take(i)).len() <= tv_ids(tps).len(),
    decreases tps.len(),
{
    if i < tps.len() {
        let p = tps.subrange(0, tps.len() - 1);
        lemma_tv_ids_prefix(p, i);
        assert(p.take(i) == tps.take(i));
    } else {
        assert(tps.take(i) == tps);
    }
}

/// A prefix of declarations has no more ids than the whole.
pub proof fn lemma_decl_ids_prefix(ds: Seq<(Seq<char>, DeclM)>, i: int)
    requires
        0 <= i <= ds.len(),
    ensures
        decl_ids(ds.take(i)).len() <= decl_ids(ds).len(),
    decreases ds.len(),
{
    if i < ds.len() {
        let p = ds.subrange(0, ds.len() - 1);
        lemma_decl_ids_prefix(p, i);
        assert(p.take(i) == ds.take(i));
    } else {
        assert(ds.take(i) == ds);
    }
}

/// A copy of `t` with the ids of its type variables renamed by `remap`.
fn remapped(t: &SIRType, remap: &HashMap<i64, i64>) -> (r: SIRType)
    ensures
        ty_of(r) == remap_ty(ty_of(*t), remap@),
    decreases t,
{
    match t {
        SIRType::TypeVar { name, opt_id, is_builtin } => match opt_id {
            Some(old) => match remap.get(old) {
                Some(n) => SIRType::TypeVar { name: dup_string(name), opt_id: Some(*n), is_builtin: *is_builtin },
                None => t.duplicate(),
            },
            None => t.duplicate(),
        },
        SIRType::Fun { from, to } => SIRType::Fun {
            from: Box::new(remapped(from, remap)),
            to: Box::new(remapped(to, remap)),
        },
        SIRType::SumCaseClass { decl_name, type_args } => {
            let args = remapped_all(type_args, remap, t);
            SIRType::SumCaseClass { decl_name: dup_string(decl_name), type_args: args }
        },
        SIRType::CaseClass { constr_name, decl_name, type_args } => {
            let args = remapped_all(type_args, remap, t);
            SIRType::CaseClass {
                constr_name: dup_string(constr_name),
                decl_name: dup_string(decl_name),
                type_args: args,
            }
        },
        _ => t.duplicate(),
    }
}

/// Renaming in each type argument of `parent`.
fn remapped_all(v: &Vec<SIRType>, remap: &HashMap<i64, i64>, parent: &SIRType) -> (r: Vec<SIRType>)
    requires
        forall|i: int| 0 <= i < v@.len() ==> decreases_to!(*parent => #[trigger] v@[i]),
    ensures
        tys_of(r@) == remap_tys(tys_of(v@), remap@),
    decreases parent, 0nat,
{
    let mut r: Vec<SIRType> = Vec::new();
    let mut i: usize = 0;
    proof {
        lemma_tys_of(v@);
        lemma_remap_tys(tys_of(v@), remap@);
    }
    while i < v.len()
        invariant
            0 <= i <= v@.len(),
            tys_of(r@).len() == i,
            forall|j: int| 0 <= j < i ==> #[trigger] tys_of(r@)[j] == remap_ty(ty_of(v@[j]), remap@),
            forall|i: int| 0 <= i < v@.len() ==> decreases_to!(*parent => #[trigger] v@[i]),
        decreases v@.len() - i,
    {
        let x = remapped(&v[i], remap);
        proof {
            lemma_tys_push(r@, x);
        }
        r.push(x);
        i += 1;
    }
    proof {
        lemma_tys_of(v@);
        lemma_remap_tys(tys_of(v@), remap@);
    }
    assert(tys_of(r@) =~= remap_tys(tys_of(v@), remap@));
    r
}

/// Renaming in each of a sequence of types.
fn remapped_vec(v: &Vec<SIRType>, remap: &HashMap<i64, i64>) -> (r: Vec<SIRType>)
    ensures
        tys_of(r@) == remap_tys(tys_of(v@), remap@),
{
    let mut r: Vec<SIRType> = Vec::new();
    let mut i: usize = 0;
    proof {
        lemma_tys_of(v@);
        lemma_remap_tys(tys_of(v@), remap@);
    }
    while i < v.len()
        invariant
            0 <= i <= v@.len(),
            tys_of(r@).len() == i,
            forall|j: int| 0 <= j < i ==> #[trigger] tys_of(r@)[j] == remap_ty(ty_of(v@[j]), remap@),
        decreases v@.len() - i,
    {
        let x = remapped(&v[i], remap);
        proof {
            lemma_tys_push(r@, x);
        }
        r.push(x);
        i += 1;
    }
    proof {
        lemma_tys_of(v@);
        lemma_remap_tys(tys_of(v@), remap@);
    }
    assert(tys_of(r@) =~= remap_tys(tys_of(v@), remap@));
    r
}

/// Rename the ids of the type variables in a type, in place.
pub fn remap_sir_type(tp: &mut SIRType, remap: &HashMap<i64, i64>)
    ensures
        ty_of(*final(tp)) == remap_ty(ty_of(*old(tp)), remap@),
{
    let t = remapped(tp, remap);
    *tp = t;
}

/// A type variable renamed by `remap`.
fn remap_tv_exec(v: &TypeVar, remap: &HashMap<i64, i64>) -> (r: TypeVar)
    ensures
        tv_of(r) == remap_tv(tv_of(*v), remap@),
{
    match v.opt_id {
        Some(old) => match remap.get(&old) {
            Some(n) => TypeVar { name: dup_string(&v.name), opt_id: Some(*n), is_builtin: v.is_builtin },
            None => v.duplicate(),
        },
        None => v.duplicate(),
    }
}

/// A constructor renamed by `remap`.
fn remap_constr_exec(c: ConstrDecl, remap: &HashMap<i64, i64>) -> (r: ConstrDecl)
    ensures
        constr_of(r) == remap_constr(constr_of(c), remap@),
{
    let ghost cm = constr_of(c);
    let ghost rm = remap@;
    let ConstrDecl { name, params, type_params, parent_type_args, annotations } = c;
    let mut tps: Vec<TypeVar> = Vec::new();
    let mut i: usize = 0;
    while i < type_params.len()
        invariant
            0 <= i <= type_params@.len(),
            tps@.len() == i,
            rm == remap@,
            forall|j: int| 0 <= j < i ==> tv_of(#[trigger] tps@[j]) == remap_tv(tv_of(type_params@[j]), rm),
        decreases type_params@.len() - i,
    {
        tps.push(remap_tv_exec(&type_params[i], remap));
        i += 1;
    }
    assert(tvs_of(tps@) =~= tvs_of(type_params@).map_values(|v: TvM| remap_tv(v, rm)));
    let mut ps: Vec<TypeBinding> = Vec::new();
    let mut i: usize = 0;
    while i < params.len()
        invariant
            0 <= i <= params@.len(),
            ps@.len() == i,
            rm == remap@,
            forall|j: int| 0 <= j < i ==> (#[trigger] ps@[j]).name@ == params@[j].name@ && ty_of(ps@[j].tp)
                == remap_ty(ty_of(params@[j].tp), rm),
        decreases params@.len() - i,
    {
        let p = &params[i];
        ps.push(TypeBinding { name: dup_string(&p.name), tp: remapped(&p.tp, remap) });
        i += 1;
    }
    assert(params_of(ps@) =~= params_of(params@).map_values(
        |p: (Seq<char>, Ty)| (p.0, remap_ty(p.1, rm)),
    ));
    let pta = remapped_vec(&parent_type_args, remap);
    ConstrDecl { name, params: ps, type_params: tps, parent_type_args: pta, annotations }
}

/// Number the type parameters that have an id from `*counter` on, recording
/// old id to new id in `remap`.
fn number_type_params(tps: Vec<TypeVar>, counter: &mut i64, remap: &mut HashMap<i64, i64>) -> (r: Vec<TypeVar>)
    requires
        *old(counter) >= 1,
        *old(counter) + tv_ids(tvs_of(tps@)).len() <= i64::MAX,
        old(remap)@ == Map::<i64, i64>::empty(),
    ensures
        ({
            let res = number_tvs(tvs_of(tps@), *old(counter) as int);
            &&& tvs_of(r@) == res.0
            &&& final(remap)@ == res.1
            &&& *final(counter) == res.2
        }),
{
    let ghost tm = tvs_of(tps@);
    let ghost start = *counter as int;
    let ghost v0 = tps@;
    let mut out: Vec<TypeVar> = Vec::new();
    proof {
        lemma_number_tvs(tm, start);
    }
    for v in it: tps.into_iter()
        invariant
            it.seq() == v0,
            tm == tvs_of(v0),
            start >= 1,
            start + tv_ids(tm).len() <= i64::MAX,
            ({
                let res = number_tvs(tm.take(it.index() as int), start);
                &&& tvs_of(out@) == res.0
                &&& remap@ == res.1
                &&& *counter == res.2
            }),
    {
        let ghost i = it.index() as int;
        assert(v == v0[i]);
        proof {
            lemma_tv_ids_prefix(tm, i + 1);
            lemma_tv_ids_prefix(tm, i);
            lemma_number_tvs(tm.take(i + 1), start);
            lemma_number_tvs(tm.take(i), start);
            assert(tm.take(i + 1).subrange(0, i) == tm.take(i));
            assert(tm.take(i + 1)[i] == tv_of(v));
        }
        match v.opt_id {
            Some(old) => {
                let n = *counter;
                remap.insert(old, n);
                *counter = n + 1;
                let nv = TypeVar { name: v.name, opt_id: Some(n), is_builtin: v.is_builtin };
                assert(tvs_of(out@.push(nv)) =~= tvs_of(out@).push(tv_of(nv)));
                out.push(nv);
            },
            None => {
                assert(tvs_of(out@.push(v)) =~= tvs_of(out@).push(tv_of(v)));
                out.push(v);
            },
        }
    }
    assert(tm.take(v0.len() as int) == tm);
    out
}

/// A declaration renumbered from `*counter`; the counter moves past the
/// numbers used.
fn renumber_decl_exec(decl: DataDecl, counter: &mut i64) -> (r: DataDecl)
    requires
        *old(counter) >= 1,
        *old(counter) + tv_ids(tvs_of(decl.type_params@)).len() <= i64::MAX,
    ensures
        decl_of(r) == renumber_decl(decl_of(decl), *old(counter) as int).0,
        *final(counter) == renumber_decl(decl_of(decl), *old(counter) as int).1,
{
    if decl.type_params.len() == 0 {
        return decl;
    }
    let ghost dm = decl_of(decl);
    let DataDecl { name, constructors, type_params, annotations } = decl;
    let mut remap: HashMap<i64, i64> = HashMap::new();
    let tps2 = number_type_params(type_params, counter, &mut remap);
    if remap.is_empty() {
        return DataDecl { name, constructors, type_params: tps2, annotations };
    }
    let ghost rm = remap@;
    let mut cs2: Vec<ConstrDecl> = Vec::new();
    let ghost c0 = constructors@;
    for c in it: constructors.into_iter()
        invariant
            it.seq() == c0,
            rm == remap@,
            cs2@.len() == it.index(),
            forall|j: int| 0 <= j < it.index() ==> constr_of(#[trigger] cs2@[j]) == remap_constr(constr_of(c0[j]), rm),
    {
        let ghost i = it.index() as int;
        assert(c == c0[i]);
        let c2 = remap_constr_exec(c, &remap);
        cs2.push(c2);
    }
    assert(constrs_of(cs2@) =~= constrs_of(c0).map_values(|c: ConstrM| remap_constr(c, rm)));
    DataDecl { name, constructors: cs2, type_params: tps2, annotations }
}

/// Assign every type parameter of the symbol table an id of its own, counting
/// from 1 in key order, and rename the ids inside each declaration's
/// constructors to match.
pub fn renumber_type_vars(data_decls: &mut NameMap<DataDecl>)
    requires
        old(data_decls).wf(),
        decl_ids(st_of(*old(data_decls))).len() < i64::MAX,
    ensures
        final(data_decls).wf(),
        st_of(*final(data_decls)) == renumber_decls(st_of(*old(data_decls)), 1).0,
{
    let ghost stm = st_of(*data_decls);
    let ghost e0 = data_decls.entries@;
    let mut counter: i64 = 1;
    let mut entries: Vec<(String, DataDecl)> = Vec::new();
    std::mem::swap(&mut entries, &mut data_decls.entries);
    assert(entries@ == e0);
    let mut out: Vec<(String, DataDecl)> = Vec::new();
    proof {
        lemma_renumber_decls_ids(stm, 1);
        lemma_renumber_keys(stm, 1);
    }
    for e in it: entries.into_iter()
        invariant
            it.seq() == e0,
            stm == e0.map_values(|e: (String, DataDecl)| (e.0@, decl_of(e.1))),
            decl_ids(stm).len() < i64::MAX,
            ({
                let res = renumber_decls(stm.take(it.index() as int), 1);
                &&& out@.map_values(|e: (String, DataDecl)| (e.0@, decl_of(e.1))) == res.0
                &&& counter == res.1
            }),
    {
        let ghost i = it.index() as int;
        assert(e == e0[i]);
        let (k, decl) = e;
        proof {
            lemma_decl_ids_prefix(stm, i + 1);
            lemma_decl_ids_prefix(stm, i);
            lemma_renumber_decls_ids(stm.take(i), 1);
            assert(stm.take(i + 1).subrange(0, i) == stm.take(i));
            assert(stm.take(i + 1)[i] == (k@, decl_of(decl)));
            assert(decl_ids(stm.take(i + 1)) == decl_ids(stm.take(i)) + tv_ids(decl_of(decl).type_params));
        }
        let d2 = renumber_decl_exec(decl, &mut counter);
        let ghost prev = out@;
        out.push((k, d2));
        assert(out@.map_values(|e: (String, DataDecl)| (e.0@, decl_of(e.1))) =~= prev.map_values(
            |e: (String, DataDecl)| (e.0@, decl_of(e.1)),
        ).push((k@, decl_of(d2))));
    }
    assert(stm.take(e0.len() as int) == stm);
    data_decls.entries = out;
    proof {
        let res = renumber_decls(stm, 1).0;
        assert forall|i: int, j: int| 0 <= i < j < data_decls.entries@.len() implies crate::text::seq_lt(
            #[trigger] data_decls.entries@[i].0@,
            #[trigger] data_decls.entries@[j].0@,
        ) by {
            assert(res[i].0 == stm[i].0);
            assert(res[j].0 == stm[j].0);
            assert(stm[i].0 == e0[i].0@);
            assert(stm[j].0 == e0[j].0@);
        }
    }
}

} // verus!
