use rustus::attrs::{is_compile_attr, parse_rustus_attrs, functional_typeclass_impl, rustus_module_impl, RustusAttrs};
use rustus::data::{Data, DataError};
use rustus::derive::eq_field_type;
use rustus::front::{compile_attrs, RustType};
use rustus::integer::Integer;
use rustus::layout::{derived_fields, derived_to_data, layout_of, Fields, Layout};

fn i(v: i64) -> Data {
    Data::I { value: Integer::from_i64(v) }
}

fn unit() -> Data {
    Data::Constr { tag: 0, args: vec![] }
}

fn pairs(kv: &[(i64, i64)]) -> Vec<(String, String)> {
    kv.iter().map(|(k, v)| (k.to_string(), v.to_string())).collect()
}

fn args(kv: &[(&str, &str)]) -> Vec<(String, String)> {
    kv.iter().map(|(k, v)| (k.to_string(), v.to_string())).collect()
}

#[test]
fn layouts_follow_the_repr_option() {
    assert_eq!(layout_of(false, &None), Layout::Constr);
    assert_eq!(layout_of(true, &None), Layout::Constr);
    assert_eq!(layout_of(true, &Some("list".to_string())), Layout::List);
    assert_eq!(layout_of(false, &Some("list".to_string())), Layout::Constr);
    assert_eq!(layout_of(false, &Some("one_element".to_string())), Layout::OneElement);
    assert_eq!(layout_of(false, &Some("map".to_string())), Layout::PairMap);
    assert_eq!(layout_of(true, &Some("map".to_string())), Layout::Constr);
    let _ = pairs(&[]);
}

#[test]
fn records_and_variants_encode_as_constr_with_their_index() {
    assert_eq!(derived_to_data(Layout::Constr, 2, vec![i(1), i(2)]), Data::Constr { tag: 2, args: vec![i(1), i(2)] });
    assert_eq!(derived_to_data(Layout::Constr, 0, vec![]), unit());
    assert_eq!(derived_to_data(Layout::OneElement, 0, vec![i(9)]), i(9));
    assert_eq!(derived_to_data(Layout::OneElement, 0, vec![]), unit());
    assert_eq!(derived_to_data(Layout::List, 0, vec![i(1), i(2)]), Data::List { values: vec![i(1), i(2)] });
}

#[test]
fn the_map_layout_collects_the_pairs_of_its_list() {
    let list = Data::List {
        values: vec![
            Data::Constr { tag: 0, args: vec![i(1), i(10)] },
            Data::Constr { tag: 1, args: vec![i(2), i(20)] },
            Data::Constr { tag: 0, args: vec![i(3)] },
        ],
    };
    assert_eq!(
        derived_to_data(Layout::PairMap, 0, vec![list]),
        Data::Entries { values: vec![(i(1), i(10)), (i(3), unit())] }
    );
    assert_eq!(derived_to_data(Layout::PairMap, 0, vec![i(5)]), Data::Entries { values: vec![] });
}

#[test]
fn decoding_a_constr_takes_the_fields_of_its_constructor() {
    let counts = vec![0, 2];
    let d = Data::Constr { tag: 1, args: vec![i(1), i(2), i(3)] };
    assert_eq!(
        derived_fields(Layout::Constr, &counts, "Shape", &d),
        Ok(Fields { constr: 1, present: vec![i(1), i(2)], missing: None })
    );
    let short = Data::Constr { tag: 1, args: vec![i(1)] };
    assert_eq!(
        derived_fields(Layout::Constr, &counts, "Shape", &short),
        Ok(Fields { constr: 1, present: vec![i(1)], missing: Some(1) })
    );
    let bad_tag = Data::Constr { tag: 2, args: vec![] };
    assert_eq!(
        derived_fields(Layout::Constr, &counts, "Shape", &bad_tag),
        Err(DataError::UnexpectedTag { expected: "Shape", got: 2 })
    );
    let negative = Data::Constr { tag: -1, args: vec![] };
    assert_eq!(
        derived_fields(Layout::Constr, &counts, "Shape", &negative),
        Err(DataError::UnexpectedTag { expected: "Shape", got: -1 })
    );
    assert_eq!(
        derived_fields(Layout::Constr, &counts, "Shape", &i(0)),
        Err(DataError::UnexpectedVariant { expected: "Constr" })
    );
}

#[test]
fn decoding_follows_what_encoding_wrote() {
    let counts = vec![1, 3];
    let fields = vec![i(4), i(5), i(6)];
    let d = derived_to_data(Layout::Constr, 1, vec![i(4), i(5), i(6)]);
    assert_eq!(
        derived_fields(Layout::Constr, &counts, "T", &d),
        Ok(Fields { constr: 1, present: fields, missing: None })
    );
    let one = derived_to_data(Layout::OneElement, 0, vec![i(8)]);
    assert_eq!(
        derived_fields(Layout::OneElement, &vec![1], "T", &one),
        Ok(Fields { constr: 0, present: vec![i(8)], missing: None })
    );
}

#[test]
fn lists_decode_last_element_first() {
    let d = derived_to_data(Layout::List, 0, vec![i(1), i(2), i(3)]);
    assert_eq!(
        derived_fields(Layout::List, &vec![0, 2], "List", &d),
        Ok(Fields { constr: 0, present: vec![i(3), i(2), i(1)], missing: None })
    );
    assert_eq!(
        derived_fields(Layout::List, &vec![0, 2], "List", &unit()),
        Err(DataError::UnexpectedVariant { expected: "List (Data::List)" })
    );
}

#[test]
fn maps_decode_as_the_list_of_their_pairs() {
    let d = Data::Entries { values: vec![(i(1), i(10)), (i(2), i(20))] };
    let list = Data::List {
        values: vec![Data::Constr { tag: 0, args: vec![i(1), i(10)] }, Data::Constr { tag: 0, args: vec![i(2), i(20)] }],
    };
    assert_eq!(
        derived_fields(Layout::PairMap, &vec![1], "Prices (Data::Map)", &d),
        Ok(Fields { constr: 0, present: vec![list.duplicate()], missing: None })
    );
    assert_eq!(derived_to_data(Layout::PairMap, 0, vec![list]), d);
    assert_eq!(
        derived_fields(Layout::PairMap, &vec![1], "Prices (Data::Map)", &i(1)),
        Err(DataError::UnexpectedVariant { expected: "Prices (Data::Map)" })
    );
}

#[test]
fn rustus_options_take_the_last_value() {
    let a = args(&[("name", "First"), ("repr", "map"), ("other", "x"), ("name", "Second")]);
    assert_eq!(
        parse_rustus_attrs(&a),
        RustusAttrs { name: Some("Second".to_string()), repr: Some("map".to_string()) }
    );
    assert_eq!(parse_rustus_attrs(&vec![]), RustusAttrs { name: None, repr: None });
}

#[test]
fn typeclass_names_default_to_the_trait_and_its_method() {
    let methods = vec!["sir_eq".to_string()];
    assert_eq!(
        functional_typeclass_impl("MyEq", &vec![], &methods),
        Ok(("MyEq".to_string(), "sir_eq".to_string()))
    );
    assert_eq!(
        functional_typeclass_impl("MyEq", &args(&[("name", "scalus.custom.MyEq")]), &methods),
        Ok(("scalus.custom.MyEq".to_string(), "sir_eq".to_string()))
    );
    assert_eq!(
        functional_typeclass_impl("MyEq", &vec![], &vec![]),
        Err("functional_typeclass trait `MyEq` must have exactly one method".to_string())
    );
    let two = vec!["a".to_string(), "b".to_string()];
    assert_eq!(
        functional_typeclass_impl("MyEq", &vec![], &two),
        Err("functional_typeclass trait `MyEq` must have exactly one method, found 2".to_string())
    );
    assert_eq!(
        functional_typeclass_impl("MyEq", &args(&[("method", "eq")]), &two),
        Ok(("MyEq".to_string(), "eq".to_string()))
    );
}

#[test]
fn a_module_gives_its_functions_their_module() {
    let segs = |s: &[&str]| s.iter().map(|x| x.to_string()).collect::<Vec<String>>();
    assert!(is_compile_attr(&segs(&["compile"])));
    assert!(is_compile_attr(&segs(&["rustus_macros", "compile"])));
    assert!(!is_compile_attr(&segs(&["derive"])));
    assert!(!is_compile_attr(&vec![]));
    let plain = rustus_module_impl("scalus.prelude.List$", &vec![]);
    assert_eq!(compile_attrs(&plain), (Some("scalus.prelude.List$".to_string()), None));
    let named = rustus_module_impl("scalus.prelude.List$", &args(&[("name", "head")]));
    assert_eq!(named, args(&[("module", "scalus.prelude.List$"), ("name", "head")]));
    assert_eq!(compile_attrs(&named), (Some("scalus.prelude.List$".to_string()), Some("head".to_string())));
    let own = rustus_module_impl("scalus.prelude.List$", &args(&[("module", "mine")]));
    assert_eq!(compile_attrs(&own), (Some("mine".to_string()), None));
}

#[test]
fn one_element_structs_compare_by_their_field() {
    let t = |text: &str, path: &[&str], args: Vec<RustType>| RustType {
        text: text.to_string(),
        path: path.iter().map(|s| s.to_string()).collect(),
        args,
    };
    let hash = t("PubKeyHash", &["PubKeyHash"], vec![]);
    assert_eq!(eq_field_type(true, Some(&hash)), Some(&hash));
    assert_eq!(eq_field_type(false, Some(&hash)), None);
    assert_eq!(eq_field_type(true, None), None);
    let boxed = t("Box<PubKeyHash>", &["Box"], vec![hash]);
    assert_eq!(eq_field_type(true, Some(&boxed)).map(|x| x.text.clone()), Some("PubKeyHash".to_string()));
}

