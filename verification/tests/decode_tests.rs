use rustus::assoc_map::AssocMap;
use rustus::data::{Data, DataError, FromData, ToData};
use rustus::integer::Integer;
use rustus::ledger::v1::{Address, Credential, PubKeyHash, StakingCredential, TxId, TxOutRef, Value};
use rustus::ledger::v3::{DRep, OutputDatum, Vote};
use rustus::list::List;
use rustus::option::Option as OnchainOption;
use rustus::order::Order;
use rustus::pair::Pair;
use rustus::sorted_map::SortedMap;

fn i(v: i64) -> Data {
    Data::I { value: Integer::from_i64(v) }
}

fn b(bytes: &[u8]) -> Data {
    Data::B { value: bytes.to_vec() }
}

fn constr(tag: i64, args: Vec<Data>) -> Data {
    Data::Constr { tag, args }
}

#[test]
fn options_decode_what_they_encode() {
    let just = OnchainOption::Just { value: 5i64 };
    assert_eq!(OnchainOption::<i64>::from_data(&just.to_data()), Ok(OnchainOption::Just { value: 5 }));
    let nothing: OnchainOption<i64> = OnchainOption::Nothing;
    assert_eq!(OnchainOption::<i64>::from_data(&nothing.to_data()), Ok(OnchainOption::Nothing));
    assert_eq!(
        OnchainOption::<i64>::from_data(&constr(2, vec![])),
        Err(DataError::UnexpectedTag { expected: "Option", got: 2 })
    );
    assert_eq!(OnchainOption::<i64>::from_data(&constr(0, vec![])), Err(DataError::MissingField { index: 0 }));
    assert_eq!(OnchainOption::<i64>::from_data(&i(0)), Err(DataError::UnexpectedVariant { expected: "Constr" }));
}

#[test]
fn pairs_and_orders_decode_what_they_encode() {
    let p = Pair { fst: 1i64, snd: vec![2u8] };
    assert_eq!(Pair::<i64, Vec<u8>>::from_data(&p.to_data()), Ok(Pair { fst: 1, snd: vec![2] }));
    assert_eq!(Pair::<i64, i64>::from_data(&constr(0, vec![i(1)])), Err(DataError::MissingField { index: 1 }));
    assert_eq!(
        Pair::<i64, i64>::from_data(&constr(1, vec![i(1), i(2)])),
        Err(DataError::UnexpectedTag { expected: "Pair", got: 1 })
    );
    for o in [Order::Less, Order::Equal, Order::Greater] {
        assert_eq!(Order::from_data(&o.to_data()), Ok(o));
    }
    assert_eq!(Order::from_data(&constr(3, vec![])), Err(DataError::UnexpectedTag { expected: "Order", got: 3 }));
}

#[test]
fn lists_decode_in_order_and_report_the_last_bad_element() {
    let l = List::from_vec(vec![1i64, 2, 3]);
    let d = l.to_data();
    assert_eq!(d, Data::List { values: vec![i(1), i(2), i(3)] });
    assert_eq!(List::<i64>::from_data(&d).unwrap().to_vec(), vec![1, 2, 3]);
    let bad = Data::List { values: vec![b(&[1]), i(2), b(&[3])] };
    match List::<i64>::from_data(&bad) {
        Err(DataError::UnexpectedVariant { expected }) => assert_eq!(expected, "I"),
        other => panic!("unexpected {:?}", other),
    }
    assert_eq!(List::<i64>::from_data(&i(1)), Err(DataError::UnexpectedVariant { expected: "List (Data::List)" }));
}

#[test]
fn maps_decode_their_pairs() {
    let d = Data::Entries { values: vec![(i(1), b(&[10])), (i(2), b(&[20]))] };
    let m = SortedMap::<i64, Vec<u8>>::from_data(&d).unwrap();
    assert_eq!(m.to_data(), d);
    let a = AssocMap::<i64, Vec<u8>>::from_data(&d).unwrap();
    assert_eq!(a.to_data(), d);
    assert_eq!(
        SortedMap::<i64, i64>::from_data(&i(0)).err(),
        Some(DataError::UnexpectedVariant { expected: "SortedMap (Data::Map)" })
    );
    assert_eq!(
        AssocMap::<i64, i64>::from_data(&i(0)).err(),
        Some(DataError::UnexpectedVariant { expected: "AssocMap (Data::Map)" })
    );
}

#[test]
fn ledger_records_decode_what_they_encode() {
    let r = TxOutRef { id: TxId { hash: vec![1, 2] }, idx: Integer::from_i64(3) };
    assert_eq!(TxOutRef::from_data(&r.to_data()), Ok(TxOutRef { id: TxId { hash: vec![1, 2] }, idx: Integer::from_i64(3) }));
    assert_eq!(
        TxOutRef::from_data(&constr(1, vec![])),
        Err(DataError::UnexpectedTag { expected: "TxOutRef", got: 1 })
    );
    assert_eq!(
        TxOutRef::from_data(&constr(0, vec![constr(0, vec![b(&[1])])])),
        Err(DataError::MissingField { index: 1 })
    );
    let addr = Address {
        credential: Credential::PubKeyCredential { hash: PubKeyHash { hash: vec![7] } },
        staking_credential: OnchainOption::Just {
            value: StakingCredential::StakingPtr {
                slot: Integer::from_i64(1),
                tx_ix: Integer::from_i64(2),
                cert_ix: Integer::from_i64(3),
            },
        },
    };
    let back = Address::from_data(&addr.to_data()).unwrap();
    assert_eq!(back, addr);
    assert_eq!(PubKeyHash::from_data(&b(&[9])), Ok(PubKeyHash { hash: vec![9] }));
    assert_eq!(Value::from_data(&i(4)), Ok(Value { inner: i(4) }));
}

#[test]
fn ledger_sums_decode_by_tag() {
    assert_eq!(Vote::from_data(&constr(2, vec![])), Ok(Vote::Abstain));
    assert_eq!(Vote::from_data(&constr(3, vec![])), Err(DataError::UnexpectedTag { expected: "Vote", got: 3 }));
    assert_eq!(DRep::from_data(&constr(1, vec![])), Ok(DRep::AlwaysAbstain));
    let d = OutputDatum::OutputDatum { datum: i(42) };
    assert_eq!(OutputDatum::from_data(&d.to_data()), Ok(OutputDatum::OutputDatum { datum: i(42) }));
    assert_eq!(OutputDatum::from_data(&constr(1, vec![])), Err(DataError::MissingField { index: 0 }));
}
