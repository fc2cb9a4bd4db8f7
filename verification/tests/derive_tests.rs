use rustus::constant::UplcConstant;
use rustus::derive::{
    enum_data_decl, enum_sir_type, field_sir_type, struct_data_decl, struct_sir_type, type_var_decls, type_var_types,
};
use rustus::front::RustType;
use rustus::sir_type::{SIRType, TypeBinding, TypeVar};

fn ty(text: &str, path: &[&str], args: Vec<RustType>) -> RustType {
    RustType { text: text.to_string(), path: path.iter().map(|s| s.to_string()).collect(), args }
}

fn field(name: &str, tp: SIRType) -> TypeBinding {
    TypeBinding { name: name.to_string(), tp }
}

fn tv(name: &str, id: i64) -> SIRType {
    SIRType::TypeVar { name: name.to_string(), opt_id: Some(id), is_builtin: false }
}

#[test]
fn generic_parameters_are_lettered_and_numbered() {
    let tvs = type_var_decls(3);
    assert_eq!(
        tvs,
        vec![
            TypeVar { name: "A".to_string(), opt_id: Some(1), is_builtin: false },
            TypeVar { name: "B".to_string(), opt_id: Some(2), is_builtin: false },
            TypeVar { name: "C".to_string(), opt_id: Some(3), is_builtin: false },
        ]
    );
    assert_eq!(type_var_types(2), vec![tv("A", 1), tv("B", 2)]);
    assert!(type_var_decls(0).is_empty());
}

#[test]
fn field_types() {
    let params = vec!["T".to_string(), "U".to_string()];
    let user = SIRType::SumCaseClass { decl_name: "my.Datum".to_string(), type_args: vec![] };
    assert_eq!(field_sir_type(&ty("U", &["U"], vec![]), &params, user.clone()), tv("B", 2));
    assert_eq!(field_sir_type(&ty("i128", &["i128"], vec![]), &params, user.clone()), SIRType::Integer);
    assert_eq!(field_sir_type(&ty("Data", &["Data"], vec![]), &params, user.clone()), SIRType::Data);
    let boxed = ty("Box<T>", &["Box"], vec![ty("T", &["T"], vec![])]);
    assert_eq!(field_sir_type(&boxed, &params, user.clone()), tv("A", 1));
    assert_eq!(field_sir_type(&ty("MyDatum", &["MyDatum"], vec![]), &params, user.clone()), user);
}

#[test]
fn enum_declaration_in_dotted_style() {
    let d = enum_data_decl(
        "my.Action",
        vec![("Spend".to_string(), vec![field("amount", SIRType::Integer)]), ("Close".to_string(), vec![])],
        0,
    );
    assert_eq!(d.name, "my.Action");
    assert_eq!(d.constructors.len(), 2);
    assert_eq!(d.constructors[0].name, "my.Action$.Spend");
    assert_eq!(d.constructors[0].params, vec![field("amount", SIRType::Integer)]);
    assert_eq!(d.constructors[1].name, "my.Action$.Close");
    assert!(d.type_params.is_empty());
}

#[test]
fn generic_enum_constructors_apply_the_type_variables() {
    let d = enum_data_decl("Maybe", vec![("Just".to_string(), vec![field("value", tv("A", 1))])], 1);
    assert_eq!(d.constructors[0].name, "Maybe::Just");
    assert_eq!(d.constructors[0].parent_type_args, vec![tv("A", 1)]);
    assert_eq!(d.constructors[0].type_params.len(), 1);
    assert_eq!(d.type_params[0].name, "A");
}

#[test]
fn struct_declaration_with_its_representation() {
    let d = struct_data_decl("my.Wrapper", vec![field("inner", SIRType::ByteString)], 0, Some("one_element"));
    assert_eq!(d.constructors.len(), 1);
    assert_eq!(d.constructors[0].name, "my.Wrapper");
    let (k, v) = &d.annotations.data[0];
    assert_eq!(k, "uplcRepr");
    match v {
        rustus::sir::SIR::Const { uplc_const, tp, anns } => {
            assert_eq!(*uplc_const, UplcConstant::String { value: "ProductCaseOneElement".to_string() });
            assert_eq!(*tp, SIRType::String);
            assert!(anns.data.is_empty());
        },
        _ => panic!("expected a constant annotation"),
    }
    let m = struct_data_decl("my.Map", vec![], 0, Some("map"));
    assert!(matches!(&m.annotations.data[0].1, rustus::sir::SIR::Const { uplc_const: UplcConstant::String { value }, .. } if value == "Map"));
    let plain = struct_data_decl("my.Plain", vec![], 2, None);
    assert!(plain.annotations.data.is_empty());
    assert_eq!(plain.constructors[0].type_params.len(), 2);
    assert!(plain.constructors[0].parent_type_args.is_empty());
}

#[test]
fn sir_types_of_derived_types() {
    assert_eq!(
        struct_sir_type("my.R", vec![]),
        SIRType::CaseClass { constr_name: "my.R".to_string(), decl_name: "my.R".to_string(), type_args: vec![] }
    );
    assert_eq!(
        enum_sir_type("my.E", vec![SIRType::Integer]),
        SIRType::SumCaseClass { decl_name: "my.E".to_string(), type_args: vec![SIRType::Integer] }
    );
}
