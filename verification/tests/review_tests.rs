use rustus::data::{Data, ToData};
use rustus::default_fun::DefaultFun;
use rustus::derive_impl::{derive_to_data_impl, derived_value_data, DeriveField, DeriveInput, DeriveShape};
use rustus::front::RustType;
use rustus::integer::Integer;
use rustus::list::List;
use rustus::order::Order;
use rustus::sir::SIR;
use rustus::sir_type::{HasSIRType, SIRType};
use rustus::sorted_map::SortedMap;
use rustus::typeclasses::OnchainPartialOrd;
use rustus::typing::{sir_type, TypingError, TypingErrorKind};

fn fun(a: SIRType, b: SIRType) -> SIRType {
    SIRType::Fun { from: Box::new(a), to: Box::new(b) }
}

fn order_comparison(t: SIRType) -> SIRType {
    fun(t.clone(), fun(t, Order::sir_type()))
}

#[test]
fn orderings_give_an_order() {
    assert_eq!(sir_type(&<Integer as OnchainPartialOrd>::sir_ord()), order_comparison(SIRType::Integer));
    assert_eq!(sir_type(&<Vec<u8> as OnchainPartialOrd>::sir_ord()), order_comparison(SIRType::ByteString));
    assert_eq!(sir_type(&<Data as OnchainPartialOrd>::sir_ord()), order_comparison(SIRType::Data));
}

#[test]
fn integer_ordering_tests_less_then_equal() {
    match <Integer as OnchainPartialOrd>::sir_ord() {
        SIR::LamAbs { term, .. } => match *term {
            SIR::LamAbs { term, .. } => match *term {
                SIR::IfThenElse { cond, t, f, .. } => {
                    match *cond {
                        SIR::Apply { f: g, .. } => match *g {
                            SIR::Apply { f: b, .. } => {
                                assert!(matches!(*b, SIR::Builtin { builtin_fun: DefaultFun::LessThanInteger, .. }))
                            }
                            other => panic!("unexpected {:?}", other),
                        },
                        other => panic!("unexpected {:?}", other),
                    }
                    match *t {
                        SIR::Constr { name, .. } => assert_eq!(name, "scalus.cardano.onchain.plutus.prelude.Order$.Less"),
                        other => panic!("unexpected {:?}", other),
                    }
                    assert!(matches!(*f, SIR::IfThenElse { .. }));
                }
                other => panic!("unexpected {:?}", other),
            },
            other => panic!("unexpected {:?}", other),
        },
        other => panic!("unexpected {:?}", other),
    }
}

fn plain(text: &str) -> RustType {
    RustType { text: text.to_string(), path: vec![text.to_string()], args: vec![] }
}

#[test]
fn derived_variants_are_tagged_by_their_position() {
    let color = DeriveInput {
        name: "Color".to_string(),
        generics: vec![],
        attrs: vec![],
        shape: DeriveShape::Enum(vec![
            ("Red".to_string(), vec![]),
            ("Green".to_string(), vec![]),
            ("Blue".to_string(), vec![]),
        ]),
    };
    let color = derive_to_data_impl(color).unwrap();
    assert_eq!(derived_value_data(&color, 0, vec![]), Data::Constr { tag: 0, args: vec![] });
    assert_eq!(derived_value_data(&color, 2, vec![]), Data::Constr { tag: 2, args: vec![] });
    let green = derived_value_data(&color, 1, vec![]);
    let datum = DeriveInput {
        name: "Datum".to_string(),
        generics: vec![],
        attrs: vec![],
        shape: DeriveShape::Struct(vec![
            DeriveField { name: Some("owner".to_string()), ty: plain("Vec<u8>"), reported: SIRType::ByteString },
            DeriveField { name: Some("color".to_string()), ty: plain("Color"), reported: SIRType::Data },
        ]),
    };
    let datum = derive_to_data_impl(datum).unwrap();
    let owner = vec![1u8, 2, 3].to_data();
    assert_eq!(
        derived_value_data(&datum, 0, vec![owner, green]),
        Data::Constr {
            tag: 0,
            args: vec![Data::B { value: vec![1, 2, 3] }, Data::Constr { tag: 1, args: vec![] }],
        }
    );
}

#[test]
fn typing_errors_have_their_messages() {
    let e = TypingError {
        kind: TypingErrorKind::UnknownVariable { name: "x".to_string() },
        location: "v.rs:3".to_string(),
    };
    assert_eq!(e.message(""), "unknown variable 'x' at v.rs:3");
    let f = TypingError { kind: TypingErrorKind::NotAFunctionType { tp: SIRType::Integer }, location: String::new() };
    assert_eq!(f.message("Integer"), "expected function type, got Integer");
}

#[test]
fn a_list_of_data_gives_copies_of_its_elements() {
    let l = List::from_vec(vec![Data::I { value: Integer::from_i64(4) }, Data::B { value: vec![7] }]);
    assert_eq!(l.at(&Integer::from_i64(1)), Data::B { value: vec![7] });
}

#[test]
fn sorting_keeps_duplicate_keys_in_their_order() {
    let m = SortedMap::from_vec(vec![(2i64, 20i64), (1, 10), (2, 21), (1, 11)]);
    assert_eq!(m.to_vec(), vec![(1, 10), (1, 11), (2, 20), (2, 21)]);
}
