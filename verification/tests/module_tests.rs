use rustus::module::{AnnotationsDecl, CompilerOptions, SIR_VERSION};
use rustus::name_map::NameMap;
use rustus::registry::{ResolutionContext, finish_module, ids_fit, verify_module};
use rustus::renumber::renumber_type_vars;
use rustus::sir::SIR;
use rustus::sir_type::{ConstrDecl, DataDecl, SIRType, TypeBinding, TypeVar};
use rustus::typeclasses::{FunctionalTypeclassInfo, typeclass_registry};

fn tv(name: &str, id: Option<i64>) -> TypeVar {
    TypeVar { name: name.to_string(), opt_id: id, is_builtin: false }
}

fn tv_type(name: &str, id: i64) -> SIRType {
    SIRType::TypeVar { name: name.to_string(), opt_id: Some(id), is_builtin: false }
}

fn generic_decl(name: &str, params: &[(&str, i64)]) -> DataDecl {
    let tps: Vec<TypeVar> = params.iter().map(|(n, i)| tv(n, Some(*i))).collect();
    let fields: Vec<TypeBinding> = params
        .iter()
        .map(|(n, i)| TypeBinding { name: format!("f_{}", n), tp: tv_type(n, *i) })
        .collect();
    let constr = ConstrDecl {
        name: format!("{}.Mk", name),
        params: fields,
        type_params: params.iter().map(|(n, i)| tv(n, Some(*i))).collect(),
        parent_type_args: params.iter().map(|(n, i)| tv_type(n, *i)).collect(),
        annotations: AnnotationsDecl::empty(),
    };
    DataDecl { name: name.to_string(), constructors: vec![constr], type_params: tps, annotations: AnnotationsDecl::empty() }
}

fn var(name: &str, tp: SIRType) -> SIR {
    SIR::Var { name: name.to_string(), tp, anns: AnnotationsDecl::empty() }
}

#[test]
fn renumbering_gives_each_type_parameter_its_own_id_in_key_order() {
    let mut st: NameMap<DataDecl> = NameMap::new();
    st.insert("b.Pair".to_string(), generic_decl("b.Pair", &[("A", 1), ("B", 2)]));
    st.insert("a.Box".to_string(), generic_decl("a.Box", &[("T", 1)]));
    st.insert("c.Plain".to_string(), generic_decl("c.Plain", &[]));
    assert!(ids_fit(&st));
    renumber_type_vars(&mut st);
    let a = st.get("a.Box").unwrap();
    assert_eq!(a.type_params[0].opt_id, Some(1));
    assert_eq!(a.constructors[0].type_params[0].opt_id, Some(1));
    assert_eq!(a.constructors[0].params[0].tp, tv_type("T", 1));
    let b = st.get("b.Pair").unwrap();
    assert_eq!(b.type_params[0].opt_id, Some(2));
    assert_eq!(b.type_params[1].opt_id, Some(3));
    assert_eq!(b.constructors[0].params[1].tp, tv_type("B", 3));
    assert_eq!(b.constructors[0].parent_type_args[0], tv_type("A", 2));
    assert!(st.get("c.Plain").unwrap().type_params.is_empty());
}

#[test]
fn registered_data_declaration_is_found_again() {
    let mut ctx = ResolutionContext::new();
    ctx.register_data_decl("m.Box", generic_decl("m.Box", &[("T", 1)]));
    assert_eq!(ctx.get_data_decl("m.Box").unwrap().name, "m.Box");
    assert!(ctx.get_data_decl("m.Other").is_none());
}

#[test]
fn finish_module_types_bindings_and_reports_the_broken_ones() {
    let mut ctx = ResolutionContext::new();
    let id = SIR::LamAbs {
        param: Box::new(var("x", SIRType::Integer)),
        term: Box::new(var("x", SIRType::Unresolved)),
        type_params: vec![],
        anns: AnnotationsDecl::empty(),
    };
    ctx.register_binding("id", SIRType::Fun { from: Box::new(SIRType::Integer), to: Box::new(SIRType::Integer) }, id);
    ctx.register_binding("broken", SIRType::Integer, var("missing", SIRType::Unresolved));
    let (module, report) = finish_module(ctx, "test.Mod");
    assert_eq!(module.name, "test.Mod");
    assert_eq!(module.version, SIR_VERSION);
    assert!(!module.linked);
    assert_eq!(module.defs.len(), 2);
    match &module.defs[0].value {
        SIR::LamAbs { term, .. } => assert_eq!(**term, var("x", SIRType::Integer)),
        _ => panic!("expected a lambda"),
    }
    assert_eq!(report.len(), 1);
    assert_eq!(report[0].0, "broken");
    let failed = verify_module(&module).unwrap_err();
    assert_eq!(failed.0, "broken");
    assert_eq!(failed.1.len(), 1);
}

#[test]
fn complete_module_verifies() {
    let mut ctx = ResolutionContext::new();
    ctx.register_binding("one", SIRType::Integer, var("one", SIRType::Integer));
    let (module, report) = finish_module(ctx, "m");
    assert!(report.is_empty());
    assert!(verify_module(&module).is_ok());
}

#[test]
fn default_compiler_options() {
    let o = CompilerOptions::default();
    assert_eq!(o.target_protocol_version, 11);
    assert!(o.generate_error_traces);
    assert!(!o.remove_traces);
    assert!(!o.optimize_uplc);
    let module = ResolutionContext::new().into_module("m");
    assert_eq!(module.options, o);
    assert!(module.require_backend.is_none());
}

#[test]
fn typeclass_registry_starts_with_the_builtin_classes() {
    let user = FunctionalTypeclassInfo { rust_trait_name: "Show", scalus_name: "my.Show", method_name: "sir_show" };
    let r = typeclass_registry(vec![user]);
    assert_eq!(r.len(), 3);
    assert_eq!(r[0].rust_trait_name, "PartialEq");
    assert_eq!(r[0].scalus_name, "scalus.cardano.onchain.plutus.prelude.Eq");
    assert_eq!(r[1].rust_trait_name, "PartialOrd");
    assert_eq!(r[1].method_name, "sir_ord");
    assert_eq!(r[2].scalus_name, "my.Show");
}

#[test]
fn renumbering_changes_nothing_but_ids() {
    let mut st: NameMap<DataDecl> = NameMap::new();
    st.insert("b.Pair".to_string(), generic_decl("b.Pair", &[("A", 7), ("B", 9)]));
    st.insert("c.Plain".to_string(), generic_decl("c.Plain", &[]));
    let mut untouched = DataDecl { name: "d.Free".to_string(), constructors: vec![], type_params: vec![tv("X", None)], annotations: AnnotationsDecl::empty() };
    untouched.type_params[0].is_builtin = true;
    st.insert("d.Free".to_string(), untouched);
    renumber_type_vars(&mut st);
    let b = st.get("b.Pair").unwrap();
    assert_eq!(b.name, "b.Pair");
    assert_eq!(b.type_params[0].name, "A");
    assert_eq!(b.type_params[1].name, "B");
    assert_eq!(b.constructors[0].name, "b.Pair.Mk");
    assert_eq!(b.constructors[0].params[0].name, "f_A");
    assert_eq!(b.constructors[0].params[0].tp, tv_type("A", 1));
    assert_eq!(b.constructors[0].params[1].tp, tv_type("B", 2));
    assert_eq!(st.get("c.Plain").unwrap().constructors[0].name, "c.Plain.Mk");
    let d = st.get("d.Free").unwrap();
    assert_eq!(d.type_params[0].opt_id, None);
    assert!(d.type_params[0].is_builtin);
}

#[test]
fn annotations_hold_any_sir_term_and_copy_exactly() {
    let a = AnnotationsDecl::with_entry("note", var("x", SIRType::Integer));
    assert_eq!(a.data.len(), 1);
    assert_eq!(a.data[0].0, "note");
    assert_eq!(a.data[0].1, var("x", SIRType::Integer));
    assert_eq!(a.duplicate(), a);
    let f = AnnotationsDecl::with_from_data();
    assert_eq!(f.data[0].0, "fromData");
    assert!(matches!(&f.data[0].1, SIR::Const { tp: SIRType::Boolean, .. }));
}
