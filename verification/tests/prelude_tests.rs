use rustus::assoc_map::AssocMap;
use rustus::data::{Data, ToData};
use rustus::integer::Integer;
use rustus::list::{self, List};
use rustus::option::Option as OnchainOption;
use rustus::order::Order;
use rustus::pair::Pair;
use rustus::sorted_map::SortedMap;

fn i(v: i64) -> Data {
    Data::I { value: Integer::from_i64(v) }
}

fn constr(tag: i64, args: Vec<Data>) -> Data {
    Data::Constr { tag, args }
}

#[test]
fn list_from_vec_and_back() {
    let l = List::from_vec(vec![1i64, 2, 3]);
    assert!(!l.is_nil());
    assert_eq!(l.to_vec(), vec![1, 2, 3]);
    assert!(List::<i64>::from_vec(vec![]).is_nil());
}

#[test]
fn list_at_and_contains() {
    let l = List::from_vec(vec![10i64, 20, 30]);
    assert_eq!(l.at(&Integer::from_i64(0)), 10);
    assert_eq!(l.at(&Integer::from_i64(2)), 30);
    assert!(l.contains_elem(&20));
    assert!(!l.contains_elem(&25));
    assert!(list::contains(List::from_vec(vec![1i64, 2]), 2));
    assert!(!list::contains(List::from_vec(vec![1i64, 2]), 3));
}

#[test]
fn data_list_functions() {
    let l = List::from_vec(vec![i(1), i(2), i(3)]);
    assert!(!list::is_empty(List::from_vec(vec![i(1)])));
    assert!(list::is_empty(List::Nil));
    assert_eq!(list::head(List::from_vec(vec![i(7), i(8)])), i(7));
    assert_eq!(list::tail(List::from_vec(vec![i(7), i(8)])).to_vec(), vec![i(8)]);
    assert_eq!(list::at(l, Integer::from_i64(1)), i(2));
}

#[test]
fn list_encodes_as_a_data_list() {
    let l = List::from_vec(vec![Integer::from_i64(1), Integer::from_i64(2)]);
    assert_eq!(l.to_data(), Data::List { values: vec![i(1), i(2)] });
    assert_eq!(l.map_to_data().to_vec(), vec![i(1), i(2)]);
}

#[test]
fn option_constructors_come_value_first() {
    let some: OnchainOption<Integer> = OnchainOption::Just { value: Integer::from_i64(5) };
    let none: OnchainOption<Integer> = OnchainOption::Nothing;
    assert!(some.is_some());
    assert!(none.is_none());
    assert_eq!(some.to_data(), constr(0, vec![i(5)]));
    assert_eq!(none.to_data(), constr(1, vec![]));
    let from_std: OnchainOption<i64> = Some(3i64).into();
    assert_eq!(from_std.unwrap(), 3);
    let mapped = OnchainOption::Just { value: 2i64 }.map(|x| x * 10);
    assert_eq!(mapped.unwrap(), 20);
}

#[test]
fn pair_encodes_as_a_record() {
    let p = Pair::new(Integer::from_i64(1), vec![0xabu8]);
    assert_eq!(p.to_data(), constr(0, vec![i(1), Data::B { value: vec![0xab] }]));
    let q: Pair<i64, bool> = (4, true).into();
    assert_eq!(q.fst, 4);
    assert!(q.snd);
}

#[test]
fn order_encodes_by_position() {
    assert_eq!(Order::Less.to_data(), constr(0, vec![]));
    assert_eq!(Order::Equal.to_data(), constr(1, vec![]));
    assert_eq!(Order::Greater.to_data(), constr(2, vec![]));
}

#[test]
fn assoc_map_finds_the_first_binding() {
    let m = AssocMap::from_vec(vec![(1i64, 10i64), (2, 20), (1, 30)]);
    assert_eq!(m.get(&1).unwrap(), 10);
    assert_eq!(m.get(&2).unwrap(), 20);
    assert!(m.get(&3).is_none());
    assert!(m.contains_key(&2));
    assert!(!m.contains_key(&9));
    assert_eq!(m.to_vec(), vec![(1, 10), (2, 20), (1, 30)]);
    assert!(AssocMap::<i64, i64>::empty().is_empty());
    assert_eq!(AssocMap::singleton(4i64, 5i64).to_vec(), vec![(4, 5)]);
}

#[test]
fn assoc_map_encodes_as_a_data_map() {
    let m = AssocMap::from_vec(vec![(Integer::from_i64(2), Integer::from_i64(20))]);
    assert_eq!(m.to_data(), Data::Entries { values: vec![(i(2), i(20))] });
}

#[test]
fn sorted_map_sorts_on_construction() {
    let m = SortedMap::from_vec(vec![(3i64, 'c'), (1, 'a'), (2, 'b')]);
    assert_eq!(m.to_vec(), vec![(1, 'a'), (2, 'b'), (3, 'c')]);
    assert_eq!(m.get(&2).unwrap(), 'b');
    assert!(m.get(&4).is_none());
}

#[test]
fn sorted_map_keeps_equal_keys_in_order() {
    let m = SortedMap::from_vec(vec![(2i64, 'x'), (1, 'a'), (2, 'y')]);
    assert_eq!(m.to_vec(), vec![(1, 'a'), (2, 'x'), (2, 'y')]);
}

#[test]
fn sorted_map_insert_then_get() {
    let m = SortedMap::from_vec(vec![(1i64, 10i64), (5, 50)]);
    let m = m.insert(3, 30);
    assert_eq!(m.to_vec(), vec![(1, 10), (3, 30), (5, 50)]);
    assert_eq!(m.get(&3).unwrap(), 30);
    let m = m.insert(5, 55);
    assert_eq!(m.to_vec(), vec![(1, 10), (3, 30), (5, 55)]);
    assert_eq!(m.get(&5).unwrap(), 55);
    let m = SortedMap::empty().insert(7i64, 1i64);
    assert_eq!(m.to_vec(), vec![(7, 1)]);
    assert!(!m.is_empty());
    assert!(SortedMap::<i64, i64>::empty().is_empty());
    assert_eq!(SortedMap::singleton(1i64, 2i64).to_vec(), vec![(1, 2)]);
}

#[test]
fn sorted_map_encodes_as_a_data_map() {
    let n = SortedMap {
        inner: List::from_vec(vec![
            Pair::new(Integer::from_i64(1), Integer::from_i64(10)),
            Pair::new(Integer::from_i64(2), Integer::from_i64(20)),
        ]),
    };
    assert_eq!(n.to_data(), Data::Entries { values: vec![(i(1), i(10)), (i(2), i(20))] });
}

use rustus::sir_type::{HasSIRType, SIRType};

#[test]
fn prelude_types_declare_their_sir_types() {
    assert_eq!(
        OnchainOption::<Integer>::sir_type(),
        SIRType::SumCaseClass {
            decl_name: "scalus.cardano.onchain.plutus.prelude.Option".to_string(),
            type_args: vec![SIRType::Integer],
        }
    );
    let d = OnchainOption::<Integer>::sir_data_decl().unwrap();
    assert_eq!(d.constructors[0].name, "scalus.cardano.onchain.plutus.prelude.Option$.Some");
    assert_eq!(d.constructors[1].name, "scalus.cardano.onchain.plutus.prelude.Option$.None");
    assert_eq!(
        d.constructors[0].params[0].tp,
        SIRType::TypeVar { name: "A".to_string(), opt_id: Some(1), is_builtin: false }
    );
    let l = List::<bool>::sir_data_decl().unwrap();
    assert_eq!(
        l.constructors[1].params[1].tp,
        SIRType::SumCaseClass {
            decl_name: "scalus.cardano.onchain.plutus.prelude.List".to_string(),
            type_args: vec![SIRType::Boolean],
        }
    );
    let m = SortedMap::<Integer, Integer>::sir_data_decl().unwrap();
    assert!(matches!(
        &m.annotations.data[0].1,
        rustus::sir::SIR::Const { uplc_const: rustus::constant::UplcConstant::String { value }, .. } if value == "Map"
    ));
    assert_eq!(Order::sir_data_decl().unwrap().constructors.len(), 3);
}

#[test]
fn assoc_map_get_gives_a_plain_option_and_agrees_with_contains_key() {
    let m = AssocMap::from_vec(vec![(1i64, 10i64), (2, 20), (1, 30)]);
    assert_eq!(m.get(&1), Some(10));
    assert_eq!(m.get(&3), None);
    for k in 0..4i64 {
        assert_eq!(m.contains_key(&k), m.get(&k).is_some());
    }
}

#[test]
fn assoc_map_to_vec_undoes_from_vec() {
    let pairs = vec![(3i64, 1i64), (1, 2), (3, 3), (2, 4)];
    assert_eq!(AssocMap::from_vec(pairs.clone()).to_vec(), pairs);
    assert_eq!(AssocMap::<i64, i64>::empty().to_vec(), vec![]);
}

#[test]
fn list_from_vec_and_to_vec_undo_each_other() {
    let v = vec![4i64, 1, 4, 2];
    let l = List::from_vec(v.clone());
    assert_eq!(l.to_vec(), v);
    assert_eq!(List::from_vec(l.to_vec()), l);
}

#[test]
fn list_contains_agrees_with_contains_elem() {
    let l = List::from_vec(vec![4i64, 1, 4, 2]);
    for e in 0..6i64 {
        assert_eq!(list::contains(List::from_vec(l.to_vec()), e), l.contains_elem(&e));
        assert_eq!(l.contains_elem(&e), l.to_vec().iter().any(|x| *x == e));
    }
}

#[test]
fn map_to_data_encodes_each_element_in_order() {
    let l = List::from_vec(vec![3i64, -1, 0]);
    let d = l.map_to_data();
    assert_eq!(d.to_vec(), vec![i(3), i(-1), i(0)]);
}

#[test]
fn sorted_map_from_vec_keeps_every_pair_in_key_order() {
    let pairs = vec![(2i64, 'p'), (0, 'q'), (2, 'r'), (1, 's'), (0, 't')];
    let out = SortedMap::from_vec(pairs).to_vec();
    assert_eq!(out, vec![(0, 'q'), (0, 't'), (1, 's'), (2, 'p'), (2, 'r')]);
}

#[test]
fn sorted_map_insert_of_a_new_key_keeps_the_others() {
    let m = SortedMap::from_vec(vec![(4i64, 1i64), (2, 2), (4, 3)]);
    let r = m.insert(3, 9).to_vec();
    assert_eq!(r, vec![(2, 2), (3, 9), (4, 1), (4, 3)]);
}
