use rustus::derive_impl::{derive_from_data_impl, derive_to_data_impl, DeriveField, DeriveInput, DeriveShape};
use rustus::front::RustType;
use rustus::layout::Layout;
use rustus::sir_type::{SIRType, TypeBinding, TypeVar};

fn ty(text: &str, path: &[&str], args: Vec<RustType>) -> RustType {
    RustType { text: text.to_string(), path: path.iter().map(|s| s.to_string()).collect(), args }
}

fn field(name: Option<&str>, t: RustType, reported: SIRType) -> DeriveField {
    DeriveField { name: name.map(|n| n.to_string()), ty: t, reported }
}

fn attrs(kv: &[(&str, &str)]) -> Vec<(String, String)> {
    kv.iter().map(|(k, v)| (k.to_string(), v.to_string())).collect()
}

#[test]
fn a_record_with_a_generic_field_and_a_sir_name() {
    let d = DeriveInput {
        name: "Holder".to_string(),
        generics: vec!["T".to_string()],
        attrs: attrs(&[("name", "scalus.example.Holder")]),
        shape: DeriveShape::Struct(vec![
            field(Some("amount"), ty("i64", &["i64"], vec![]), SIRType::Data),
            field(Some("item"), ty("T", &["T"], vec![]), SIRType::Data),
            field(None, ty("Box<bool>", &["Box"], vec![ty("bool", &["bool"], vec![])]), SIRType::Data),
        ]),
    };
    let out = derive_to_data_impl(d).unwrap();
    assert_eq!(out.sir_name, "scalus.example.Holder");
    assert_eq!(out.layout, Layout::Constr);
    assert_eq!(out.field_counts, vec![3]);
    assert!(!out.eq_by_field);
    assert_eq!(out.expected, "Holder");
    assert_eq!(out.decl.name, "scalus.example.Holder");
    assert_eq!(out.decl.type_params, vec![TypeVar { name: "A".to_string(), opt_id: Some(1), is_builtin: false }]);
    assert_eq!(out.decl.constructors.len(), 1);
    assert_eq!(
        out.decl.constructors[0].params,
        vec![
            TypeBinding { name: "amount".to_string(), tp: SIRType::Integer },
            TypeBinding {
                name: "item".to_string(),
                tp: SIRType::TypeVar { name: "A".to_string(), opt_id: Some(1), is_builtin: false },
            },
            TypeBinding { name: "_2".to_string(), tp: SIRType::Boolean },
        ]
    );
}

#[test]
fn an_enum_names_its_variants_by_the_sir_name() {
    let d = DeriveInput {
        name: "Action".to_string(),
        generics: vec![],
        attrs: vec![],
        shape: DeriveShape::Enum(vec![
            ("Mint".to_string(), vec![field(Some("qty"), ty("i64", &["i64"], vec![]), SIRType::Data)]),
            ("Burn".to_string(), vec![]),
        ]),
    };
    let out = derive_to_data_impl(d).unwrap();
    assert_eq!(out.layout, Layout::Constr);
    assert_eq!(out.field_counts, vec![1, 0]);
    let names: Vec<String> = out.decl.constructors.iter().map(|c| c.name.clone()).collect();
    assert_eq!(names, vec!["Action::Mint".to_string(), "Action::Burn".to_string()]);
}

#[test]
fn repr_options_select_the_layout_and_equality() {
    let one = DeriveInput {
        name: "Hash".to_string(),
        generics: vec![],
        attrs: attrs(&[("repr", "one_element")]),
        shape: DeriveShape::Struct(vec![field(Some("bytes"), ty("Vec<u8>", &["Vec"], vec![]), SIRType::Data)]),
    };
    let out = derive_to_data_impl(one).unwrap();
    assert_eq!(out.layout, Layout::OneElement);
    assert!(out.eq_by_field);
    let map = DeriveInput {
        name: "Prices".to_string(),
        generics: vec![],
        attrs: attrs(&[("repr", "map")]),
        shape: DeriveShape::Struct(vec![field(Some("inner"), ty("List<Pair<i64,i64>>", &["List"], vec![]), SIRType::Data)]),
    };
    let (layout, counts, expected) = derive_from_data_impl(&map).unwrap();
    assert_eq!(layout, Layout::PairMap);
    assert_eq!(counts, vec![1]);
    assert_eq!(expected, "Prices (Data::Map)");
    let list = DeriveInput {
        name: "Chain".to_string(),
        generics: vec![],
        attrs: attrs(&[("repr", "list")]),
        shape: DeriveShape::Enum(vec![("Nil".to_string(), vec![]), ("Cons".to_string(), vec![])]),
    };
    assert_eq!(derive_from_data_impl(&list).unwrap().0, Layout::List);
}

#[test]
fn unions_are_refused() {
    let u = DeriveInput { name: "U".to_string(), generics: vec![], attrs: vec![], shape: DeriveShape::Union };
    assert_eq!(derive_from_data_impl(&u), Err("FromData cannot be derived for unions".to_string()));
    assert_eq!(derive_to_data_impl(u).err(), Some("ToData cannot be derived for unions".to_string()));
}
