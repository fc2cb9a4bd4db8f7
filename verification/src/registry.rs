//! The resolution context: the symbol table of data declarations, the
//! bindings built so far, and the signatures of functions for resolving calls
//! across modules.
use crate::model::{DeclM, SirM, Ty, ty_of};
use crate::module::{AnnotationsDecl, Binding, CompilerOptions, Module, SIR_VERSION, empty_anns};
use crate::name_map::{NameMap, assoc_last, model_of};
use crate::sir::SIR;
use crate::sir_type::{DataDecl, SIRType};
use crate::text::after_last;
use vstd::prelude::*;

verus! {


/// Whether a registered builder produces a type declaration or a function.
#[derive(Debug, Clone, Copy, PartialEq, Eq, Structural)]
pub enum EntryKind {
    TypeDecl,
    Function,
}

/// A typeclass argument that callers of a function pass: the typeclass and
/// the position of the argument whose type selects the instance.
#[derive(Debug, PartialEq)]
pub struct TypeclassBound {
    pub typeclass: String,
    pub elem_arg_index: usize,
}

/// A registered function, for resolving calls to it.
#[derive(Debug, PartialEq)]
pub struct FunctionDef {
    pub module_name: String,
    pub fn_name: String,
    pub tp: SIRType,
    pub typeclass_bounds: Vec<TypeclassBound>,
}

/// The symbol table, the bindings and the function signatures of a module
/// under construction.
#[derive(Debug, PartialEq)]
pub struct ResolutionContext {
    pub data_decls: NameMap<DataDecl>,
    pub bindings: Vec<Binding>,
    /// Functions by Rust path and by SIR name.
    pub functions: NameMap<FunctionDef>,
}

/// Model of a `FunctionDef`.
pub struct FnM {
    pub module_name: Seq<char>,
    pub fn_name: Seq<char>,
    pub tp: Ty,
    pub bounds: Seq<(Seq<char>, usize)>,
}

/// The model of a function signature.
pub open spec fn fn_of(f: FunctionDef) -> FnM {
    FnM {
        module_name: f.module_name@,
        fn_name: f.fn_name@,
        tp: ty_of(f.tp),
        bounds: f.typeclass_bounds@.map_values(|b: TypeclassBound| (b.typeclass@, b.elem_arg_index)),
    }
}

/// The model of the function table.
pub open spec fn fns_of(m: NameMap<FunctionDef>) -> Seq<(Seq<char>, FnM)> {
    model_of(m, |f: FunctionDef| fn_of(f))
}

/// The function table as a map from names to signatures.
pub open spec fn fn_table(m: NameMap<FunctionDef>) -> spec_fn(Seq<char>) -> Option<FnM> {
    |k: Seq<char>| assoc_last(fns_of(m), k)
}

/// The function that a call by Rust path refers to: by the whole path, or
/// else by its last `::` segment.
pub open spec fn fn_lookup(fns: spec_fn(Seq<char>) -> Option<FnM>, path: Seq<char>) -> Option<FnM> {
    match fns(path) {
        Some(f) => Some(f),
        None => fns(after_last(path, "::"@)),
    }
}

/// The qualified name of a function: `module.name`, or the name alone where
/// there is no module.
pub open spec fn full_name(f: FnM) -> Seq<char> {
    if f.module_name.len() == 0 {
        f.fn_name
    } else {
        f.module_name + "."@ + f.fn_name
    }
}

/// The term a call by Rust path resolves to: the registered function, or a
/// variable of the fallback type.
pub open spec fn resolved_call(fns: spec_fn(Seq<char>) -> Option<FnM>, path: Seq<char>, fallback: Ty) -> SirM {
    match fn_lookup(fns, path) {
        Some(f) => SirM::ExternalVar(f.module_name, full_name(f), f.tp, empty_anns()),
        None => SirM::Var(path, fallback, empty_anns()),
    }
}

} // verus!

verus! {

use crate::name_map::{lemma_model_insert, lemma_model_lookup};
use crate::duplicate::dup_string;
use crate::text::{owned, str_eq};

broadcast use {vstd::std_specs::vec::group_vec_axioms, crate::model::group_model_seqs};

impl TypeclassBound {
    /// A copy of the bound.
    pub fn duplicate(&self) -> (r: TypeclassBound)
        ensures
            r.typeclass@ == self.typeclass@,
            r.elem_arg_index == self.elem_arg_index,
    {
        TypeclassBound { typeclass: dup_string(&self.typeclass), elem_arg_index: self.elem_arg_index }
    }
}

impl FunctionDef {
    /// A copy of the signature.
    pub fn duplicate(&self) -> (r: FunctionDef)
        ensures
            fn_of(r) == fn_of(*self),
    {
        let mut bs: Vec<TypeclassBound> = Vec::new();
        let mut i: usize = 0;
        while i < self.typeclass_bounds.len()
            invariant
                0 <= i <= self.typeclass_bounds@.len(),
                bs@.len() == i,
                forall|j: int| 0 <= j < i ==> (#[trigger] bs@[j]).typeclass@ == self.typeclass_bounds@[j].typeclass@
                    && bs@[j].elem_arg_index == self.typeclass_bounds@[j].elem_arg_index,
            decreases self.typeclass_bounds@.len() - i,
        {
            bs.push(self.typeclass_bounds[i].duplicate());
            i += 1;
        }
        let r = FunctionDef {
            module_name: dup_string(&self.module_name),
            fn_name: dup_string(&self.fn_name),
            tp: self.tp.duplicate(),
            typeclass_bounds: bs,
        };
        assert(fn_of(r).bounds =~= fn_of(*self).bounds);
        r
    }
}

impl ResolutionContext {
    /// Both tables are well formed.
    pub open spec fn wf(&self) -> bool {
        &&& self.data_decls.wf()
        &&& self.functions.wf()
    }

    /// An empty context.
    pub fn new() -> (r: ResolutionContext)
        ensures
            r.wf(),
            r.data_decls.entries_spec().len() == 0,
            r.bindings@.len() == 0,
            r.functions.entries_spec().len() == 0,
    {
        ResolutionContext { data_decls: NameMap::new(), bindings: Vec::new(), functions: NameMap::new() }
    }

    /// Add a data declaration to the symbol table under `name`, replacing any
    /// declaration of that name.
    pub fn register_data_decl(&mut self, name: &str, decl: DataDecl)
        requires
            old(self).wf(),
        ensures
            final(self).wf(),
            final(self).data_decls.has_entry(name@, decl),
            forall|k: Seq<char>, x: DataDecl|
                k != name@ ==> (final(self).data_decls.has_entry(k, x) <==> old(self).data_decls.has_entry(k, x)),
            forall|k: Seq<char>|
                final(self).data_decls.contains(k) <==> (old(self).data_decls.contains(k) || k == name@),
            final(self).bindings == old(self).bindings,
            final(self).functions == old(self).functions,
    {
        self.data_decls.insert(owned(name), decl);
    }

    /// The data declaration named `name`.
    pub fn get_data_decl(&self, name: &str) -> (r: Option<&DataDecl>)
        requires
            self.wf(),
        ensures
            r is None <==> !self.data_decls.contains(name@),
            r matches Some(d) ==> self.data_decls.has_entry(name@, *d),
    {
        self.data_decls.get(name)
    }

    /// Bind `k` to `f` in the function table.
    fn insert_function(&mut self, k: &str, f: FunctionDef)
        requires
            old(self).wf(),
        ensures
            final(self).wf(),
            assoc_last(fns_of(final(self).functions), k@) == Some(fn_of(f)),
            forall|k2: Seq<char>|
                k2 != k@ ==> #[trigger] assoc_last(fns_of(final(self).functions), k2) == assoc_last(
                    fns_of(old(self).functions),
                    k2,
                ),
            final(self).data_decls == old(self).data_decls,
            final(self).bindings == old(self).bindings,
    {
        let ghost before = self.functions;
        let ghost fv = f;
        self.functions.insert(owned(k), f);
        proof {
            lemma_model_insert(before, self.functions, k@, fv, |f: FunctionDef| fn_of(f));
        }
    }

    /// Register a function's signature under its Rust path and its SIR name
    /// before its body is built, so that calls to it (recursive ones too)
    /// resolve.
    pub fn pre_register_function(&mut self, rust_name: &str, sir_name: &str, module: Option<&str>, tp: SIRType)
        requires
            old(self).wf(),
        ensures
            final(self).wf(),
            ({
                let f = FnM {
                    module_name: match module {
                        Some(m) => m@,
                        None => Seq::empty(),
                    },
                    fn_name: sir_name@,
                    tp: ty_of(tp),
                    bounds: Seq::empty(),
                };
                &&& assoc_last(fns_of(final(self).functions), rust_name@) == Some(f)
                &&& assoc_last(fns_of(final(self).functions), sir_name@) == Some(f)
                &&& forall|k: Seq<char>|
                    k != rust_name@ && k != sir_name@ ==> #[trigger] assoc_last(fns_of(final(self).functions), k)
                        == assoc_last(fns_of(old(self).functions), k)
            }),
            final(self).data_decls == old(self).data_decls,
            final(self).bindings == old(self).bindings,
    {
        self.pre_register_function_with_bounds(rust_name, sir_name, module, tp, Vec::new());
        assert(Seq::<TypeclassBound>::empty().map_values(
            |b: TypeclassBound| (b.typeclass@, b.elem_arg_index),
        ) =~= Seq::<(Seq<char>, usize)>::empty());
    }

    /// Register a function's signature together with the typeclass arguments
    /// that its callers pass.
    pub fn pre_register_function_with_bounds(
        &mut self,
        rust_name: &str,
        sir_name: &str,
        module: Option<&str>,
        tp: SIRType,
        typeclass_bounds: Vec<TypeclassBound>,
    )
        requires
            old(self).wf(),
        ensures
            final(self).wf(),
            ({
                let f = FnM {
                    module_name: match module {
                        Some(m) => m@,
                        None => Seq::empty(),
                    },
                    fn_name: sir_name@,
                    tp: ty_of(tp),
                    bounds: typeclass_bounds@.map_values(
                        |b: TypeclassBound| (b.typeclass@, b.elem_arg_index),
                    ),
                };
                &&& assoc_last(fns_of(final(self).functions), rust_name@) == Some(f)
                &&& assoc_last(fns_of(final(self).functions), sir_name@) == Some(f)
                &&& forall|k: Seq<char>|
                    k != rust_name@ && k != sir_name@ ==> #[trigger] assoc_last(fns_of(final(self).functions), k)
                        == assoc_last(fns_of(old(self).functions), k)
            }),
            final(self).data_decls == old(self).data_decls,
            final(self).bindings == old(self).bindings,
    {
        let module_name = match module {
            Some(m) => owned(m),
            None => String::new(),
        };
        let fdef = FunctionDef { module_name, fn_name: owned(sir_name), tp, typeclass_bounds };
        let copy = fdef.duplicate();
        self.insert_function(rust_name, copy);
        if !str_eq(rust_name, sir_name) {
            self.insert_function(sir_name, fdef);
        }
    }

    /// The signature that a call by Rust path refers to: by the whole path,
    /// or else by its last `::` segment.
    pub fn lookup_function(&self, rust_path: &str) -> (r: Option<&FunctionDef>)
        requires
            self.wf(),
        ensures
            r matches Some(f) ==> fn_lookup(fn_table(self.functions), rust_path@) == Some(fn_of(*f)),
            r is None ==> fn_lookup(fn_table(self.functions), rust_path@) is None,
    {
        proof {
            lemma_model_lookup(self.functions, |f: FunctionDef| fn_of(f), rust_path@);
        }
        match self.functions.get(rust_path) {
            Some(f) => Some(f),
            None => {
                proof {
                    reveal_strlit("::");
                }
                let part = crate::text::last_segment(rust_path, "::");
                proof {
                    lemma_model_lookup(self.functions, |f: FunctionDef| fn_of(f), part@);
                }
                self.functions.get(part.as_str())
            },
        }
    }

    /// Resolve a call by Rust path: the registered function as an external
    /// variable, or else a variable of the fallback type.
    pub fn resolve_call(&self, rust_path: &str, fallback_tp: SIRType) -> (r: SIR)
        requires
            self.wf(),
        ensures
            crate::model::sir_of(r) == resolved_call(fn_table(self.functions), rust_path@, ty_of(fallback_tp)),
    {
        match self.lookup_function(rust_path) {
            Some(fdef) => {
                let full = if fdef.module_name.as_str().is_empty() {
                    dup_string(&fdef.fn_name)
                } else {
                    crate::text::join_dot(fdef.module_name.as_str(), fdef.fn_name.as_str())
                };
                proof {
                    reveal_strlit(".");
                    assert("."@ =~= seq!['.']);
                }
                assert(full@ == full_name(fn_of(*fdef)));
                SIR::ExternalVar {
                    module_name: dup_string(&fdef.module_name),
                    name: full,
                    tp: fdef.tp.duplicate(),
                    anns: AnnotationsDecl::empty(),
                }
            },
            None => SIR::Var { name: owned(rust_path), tp: fallback_tp, anns: AnnotationsDecl::empty() },
        }
    }

    /// Register a function of a module: its signature under its Rust path and
    /// its SIR name (keeping the typeclass arguments registered for the path
    /// before), and its binding as `module.name`.
    pub fn register_binding_in_module(
        &mut self,
        module_name: &str,
        fn_name: &str,
        rust_path: &str,
        tp: SIRType,
        value: SIR,
    )
        requires
            old(self).wf(),
        ensures
            final(self).wf(),
            ({
                let kept = match assoc_last(fns_of(old(self).functions), rust_path@) {
                    Some(f) => f.bounds,
                    None => Seq::empty(),
                };
                let f = FnM { module_name: module_name@, fn_name: fn_name@, tp: ty_of(tp), bounds: kept };
                &&& assoc_last(fns_of(final(self).functions), rust_path@) == Some(f)
                &&& assoc_last(fns_of(final(self).functions), fn_name@) == Some(f)
                &&& forall|k: Seq<char>|
                    k != rust_path@ && k != fn_name@ ==> #[trigger] assoc_last(fns_of(final(self).functions), k)
                        == assoc_last(fns_of(old(self).functions), k)
            }),
            final(self).data_decls == old(self).data_decls,
            final(self).bindings@.len() == old(self).bindings@.len() + 1,
            forall|i: int| 0 <= i < old(self).bindings@.len() ==> #[trigger] final(self).bindings@[i] == old(self).bindings@[i],
            ({
                let b = final(self).bindings@.last();
                &&& b.name@ == module_name@ + "."@ + fn_name@
                &&& b.module_name matches Some(m) && m@ == module_name@
                &&& ty_of(b.tp) == ty_of(tp)
                &&& b.value == value
                &&& !b.redirect_to_scalus
            }),
    {
        proof {
            lemma_model_lookup(self.functions, |f: FunctionDef| fn_of(f), rust_path@);
        }
        let mut bounds: Vec<TypeclassBound> = Vec::new();
        match self.functions.get(rust_path) {
            Some(prev) => {
                let p = prev.duplicate();
                bounds = p.typeclass_bounds;
            },
            None => {
                assert(bounds@.map_values(|b: TypeclassBound| (b.typeclass@, b.elem_arg_index)) =~= Seq::<
                    (Seq<char>, usize),
                >::empty());
            },
        }
        let fdef = FunctionDef {
            module_name: owned(module_name),
            fn_name: owned(fn_name),
            tp: tp.duplicate(),
            typeclass_bounds: bounds,
        };
        let copy = fdef.duplicate();
        self.insert_function(rust_path, copy);
        if !str_eq(rust_path, fn_name) {
            self.insert_function(fn_name, fdef);
        }
        proof {
            reveal_strlit(".");
            assert("."@ =~= seq!['.']);
        }
        self.bindings.push(
            Binding {
                name: crate::text::join_dot(module_name, fn_name),
                module_name: Some(owned(module_name)),
                tp,
                value,
                redirect_to_scalus: false,
            },
        );
    }

    /// Register a binding that belongs to no module.
    pub fn register_binding(&mut self, name: &str, tp: SIRType, value: SIR)
        ensures
            final(self).data_decls == old(self).data_decls,
            final(self).functions == old(self).functions,
            final(self).bindings@.len() == old(self).bindings@.len() + 1,
            forall|i: int| 0 <= i < old(self).bindings@.len() ==> #[trigger] final(self).bindings@[i] == old(self).bindings@[i],
            ({
                let b = final(self).bindings@.last();
                &&& b.name@ == name@
                &&& b.module_name is None
                &&& b.tp == tp
                &&& b.value == value
                &&& !b.redirect_to_scalus
            }),
    {
        self.bindings.push(Binding { name: owned(name), module_name: None, tp, value, redirect_to_scalus: false });
    }

    /// The module named `name` made of the context's declarations and
    /// bindings, unlinked, with no backend required and default options.
    pub fn into_module(self, name: &str) -> (r: Module)
        ensures
            r.version == SIR_VERSION,
            r.name@ == name@,
            !r.linked,
            r.require_backend is None,
            r.data_decls == self.data_decls,
            r.defs == self.bindings,
            crate::model::ann_of(r.anns) == empty_anns(),
            r.options == (CompilerOptions {
                target_protocol_version: 11,
                generate_error_traces: true,
                remove_traces: false,
                optimize_uplc: false,
            }),
    {
        Module {
            version: SIR_VERSION,
            name: owned(name),
            linked: false,
            require_backend: None,
            data_decls: self.data_decls,
            defs: self.bindings,
            anns: AnnotationsDecl::empty(),
            options: CompilerOptions::default(),
        }
    }
}

} // verus!

verus! {

use crate::model::{BindM, sir_of};
use crate::renumber::{decl_ids, renumber_decls, tv_ids};
use crate::typing::{ErrM, TypingError, check, errs_of, st_of, type_sir, typed};

/// The typing errors of each binding that has any, with its name, in order.
pub open spec fn typing_report(
    defs: Seq<(Seq<char>, crate::model::SirM)>,
    st: Seq<(Seq<char>, DeclM)>,
) -> Seq<(Seq<char>, Seq<ErrM>)>
    decreases defs.len(),
{
    if defs.len() == 0 {
        Seq::empty()
    } else {
        let pre = typing_report(defs.subrange(0, defs.len() - 1), st);
        let (n, v) = defs[defs.len() - 1];
        let es = typed(v, Seq::empty(), st).1;
        if es.len() > 0 {
            pre.push((n, es))
        } else {
            pre
        }
    }
}

/// The names and values of bindings.
pub open spec fn defs_of(s: Seq<Binding>) -> Seq<(Seq<char>, crate::model::SirM)> {
    s.map_values(|b: Binding| (b.name@, sir_of(b.value)))
}

/// The type parameter ids of a symbol table fit the numbering that
/// `renumber_type_vars` gives them.
pub fn ids_fit(st: &NameMap<DataDecl>) -> (r: bool)
    ensures
        r == (decl_ids(st_of(*st)).len() < i64::MAX),
{
    let ghost m = st_of(*st);
    let mut count: u64 = 0;
    let mut i: usize = 0;
    while i < st.entries.len()
        invariant
            0 <= i <= st.entries@.len(),
            m == st_of(*st),
            count == decl_ids(m.take(i as int)).len(),
            count < i64::MAX,
        decreases st.entries@.len() - i,
    {
        let tps = &st.entries[i].1.type_params;
        let ghost tm = crate::model::tvs_of(tps@);
        let mut j: usize = 0;
        let ghost c0 = count;
        assert(m.take(i + 1).subrange(0, i as int) == m.take(i as int));
        assert(m.take(i + 1)[i as int].1.type_params == tm);
        assert(decl_ids(m.take(i + 1)) == decl_ids(m.take(i as int)) + tv_ids(tm));
        while j < tps.len()
            invariant
                0 <= j <= tps@.len(),
                0 <= i < st.entries@.len(),
                m == st_of(*st),
                tps@ == st.entries@[i as int].1.type_params@,
                tm == crate::model::tvs_of(tps@),
                c0 == decl_ids(m.take(i as int)).len(),
                decl_ids(m.take(i + 1)) == decl_ids(m.take(i as int)) + tv_ids(tm),
                count == c0 + tv_ids(tm.take(j as int)).len(),
                count < i64::MAX,
            decreases tps@.len() - j,
        {
            assert(tm.take(j + 1).subrange(0, j as int) == tm.take(j as int));
            assert(tm.take(j + 1)[j as int] == crate::model::tv_of(tps@[j as int]));
            if tps[j].opt_id.is_some() {
                if count + 1 >= 0x7fff_ffff_ffff_ffff {
                    proof {
                        assert(tv_ids(tm.take(j + 1)).len() == tv_ids(tm.take(j as int)).len() + 1);
                        crate::renumber::lemma_tv_ids_prefix(tm, j + 1);
                        crate::renumber::lemma_decl_ids_prefix(m, i + 1);
                    }
                    return false;
                }
                count = count + 1;
            }
            j += 1;
        }
        assert(tm.take(tps@.len() as int) == tm);
        i += 1;
    }
    assert(m.take(st.entries@.len() as int) == m);
    true
}

/// Finish a module whose declarations and functions are registered: number
/// its type parameters, type each binding, and report the typing errors of
/// the bindings that have any, with their names.
pub fn finish_module(ctx: ResolutionContext, name: &str) -> (r: (Module, Vec<(String, Vec<TypingError>)>))
    requires
        ctx.wf(),
        decl_ids(st_of(ctx.data_decls)).len() < i64::MAX,
    ensures
        r.0.data_decls.wf(),
        st_of(r.0.data_decls) == renumber_decls(st_of(ctx.data_decls), 1).0,
        r.0.name@ == name@,
        r.0.defs@.len() == ctx.bindings@.len(),
        forall|i: int| 0 <= i < ctx.bindings@.len() ==> {
            &&& (#[trigger] r.0.defs@[i]).name == ctx.bindings@[i].name
            &&& r.0.defs@[i].module_name == ctx.bindings@[i].module_name
            &&& r.0.defs@[i].tp == ctx.bindings@[i].tp
            &&& sir_of(r.0.defs@[i].value) == typed(
                sir_of(ctx.bindings@[i].value),
                Seq::empty(),
                st_of(r.0.data_decls),
            ).0
        },
        r.1@.map_values(|e: (String, Vec<TypingError>)| (e.0@, errs_of(e.1@))) == typing_report(
            defs_of(ctx.bindings@),
            st_of(r.0.data_decls),
        ),
{
    let ghost b0 = ctx.bindings@;
    let mut module = ctx.into_module(name);
    crate::renumber::renumber_type_vars(&mut module.data_decls);
    let ghost stm = st_of(module.data_decls);
    let mut defs: Vec<Binding> = Vec::new();
    std::mem::swap(&mut defs, &mut module.defs);
    assert(defs@ == b0);
    let mut typed_defs: Vec<Binding> = Vec::new();
    let mut report: Vec<(String, Vec<TypingError>)> = Vec::new();
    for b in it: defs.into_iter()
        invariant
            it.seq() == b0,
            module.data_decls.wf(),
            stm == st_of(module.data_decls),
            typed_defs@.len() == it.index(),
            forall|i: int| 0 <= i < it.index() ==> {
                &&& (#[trigger] typed_defs@[i]).name == b0[i].name
                &&& typed_defs@[i].module_name == b0[i].module_name
                &&& typed_defs@[i].tp == b0[i].tp
                &&& sir_of(typed_defs@[i].value) == typed(sir_of(b0[i].value), Seq::empty(), stm).0
            },
            report@.map_values(|e: (String, Vec<TypingError>)| (e.0@, errs_of(e.1@))) == typing_report(
                defs_of(b0.take(it.index() as int)),
                stm,
            ),
    {
        let ghost i = it.index() as int;
        assert(b == b0[i]);
        let Binding { name: bname, module_name, tp, value, redirect_to_scalus } = b;
        let mut v = value;
        let res = type_sir(&mut v, &module.data_decls);
        let ghost before = report@;
        proof {
            let d = defs_of(b0.take(i + 1));
            assert(d.subrange(0, d.len() - 1) =~= defs_of(b0.take(i)));
            assert(d[d.len() - 1] == (bname@, sir_of(value)));
        }
        match res {
            Err(errors) => {
                report.push((crate::duplicate::dup_string(&bname), errors));
                assert(report@.map_values(|e: (String, Vec<TypingError>)| (e.0@, errs_of(e.1@))) =~= before.map_values(
                    |e: (String, Vec<TypingError>)| (e.0@, errs_of(e.1@)),
                ).push((bname@, typed(sir_of(value), Seq::empty(), stm).1)));
            },
            Ok(()) => {},
        }
        typed_defs.push(Binding { name: bname, module_name, tp, value: v, redirect_to_scalus });
    }
    assert(b0.take(b0.len() as int) == b0);
    module.defs = typed_defs;
    (module, report)
}


/// The first binding of a module whose value still holds an unresolved
/// type, by name, with the errors that `verify_complete` reports for it;
/// `Ok` where every binding is complete.
pub fn verify_module(module: &Module) -> (r: Result<(), (String, Vec<TypingError>)>)
    ensures
        r is Ok <==> forall|i: int|
            0 <= i < module.defs@.len() ==> check(sir_of((#[trigger] module.defs@[i]).value)).len() == 0,
        r matches Err(e) ==> exists|i: int|
            #![trigger module.defs@[i]]
            {
                &&& 0 <= i < module.defs@.len()
                &&& e.0@ == module.defs@[i].name@
                &&& errs_of(e.1@) == check(sir_of(module.defs@[i].value))
                &&& errs_of(e.1@).len() > 0
                &&& forall|j: int| 0 <= j < i ==> check(sir_of((#[trigger] module.defs@[j]).value)).len() == 0
            },
{
    let mut i: usize = 0;
    while i < module.defs.len()
        invariant
            0 <= i <= module.defs@.len(),
            forall|j: int| 0 <= j < i ==> check(sir_of((#[trigger] module.defs@[j]).value)).len() == 0,
        decreases module.defs@.len() - i,
    {
        match crate::typing::verify_complete(&module.defs[i].value) {
            Ok(()) => {},
            Err(errors) => {
                proof {
                    assert(errs_of(errors@).len() == errors@.len());
                }
                return Err((crate::duplicate::dup_string(&module.defs[i].name), errors));
            },
        }
        i += 1;
    }
    Ok(())
}

} // verus!
