use rustus::bytestring::ByteString;
use rustus::data::{Data, DataError, FromData, ToData};
use rustus::integer::Integer;

#[test]
fn bool_encodes_as_constructor_tags() {
    assert!(matches!(true.to_data(), Data::Constr { tag: 1, ref args } if args.is_empty()));
    assert!(matches!(false.to_data(), Data::Constr { tag: 0, ref args } if args.is_empty()));
    assert!(bool::from_data(&true.to_data()).unwrap());
    assert!(!bool::from_data(&false.to_data()).unwrap());
}

#[test]
fn bool_rejects_other_tags() {
    let d = Data::Constr { tag: 2, args: vec![] };
    assert!(matches!(bool::from_data(&d), Err(DataError::UnexpectedTag { got: 2, .. })));
    let d = Data::B { value: vec![] };
    assert!(matches!(bool::from_data(&d), Err(DataError::UnexpectedVariant { .. })));
}

#[test]
fn integers_round_trip() {
    let x = Integer::from_i64(-123456789);
    let d = x.to_data();
    let y = Integer::from_data(&d).unwrap();
    assert_eq!(y.to_i64(), Some(-123456789));
    assert_eq!(i64::from_data(&7i64.to_data()).unwrap(), 7);
}

#[test]
fn bytes_round_trip() {
    let v = vec![0u8, 255, 7];
    assert_eq!(Vec::<u8>::from_data(&v.to_data()).unwrap(), v);
    assert!(Vec::<u8>::from_data(&Data::unit()).is_err());
}

#[test]
fn hex_round_trip() {
    let b = ByteString::from_hex("00ff10");
    assert_eq!(b.as_bytes(), &[0x00, 0xff, 0x10]);
    assert_eq!(b.to_hex(), "00ff10");
    assert_eq!(b.len(), 3);
    assert!(ByteString::new().is_empty());
    assert_eq!(ByteString::from_slice(&[0xab]).to_hex(), "ab");
}

#[test]
fn bytestring_data_round_trip() {
    let b = ByteString::from_vec(vec![1, 2, 3]);
    let d = b.to_data();
    let c = ByteString::from_data(&d).unwrap();
    assert!(b.equals(&c));
}

#[test]
fn data_equality_is_structural() {
    let a = Data::List { values: vec![Data::unit(), Data::B { value: vec![1] }] };
    let b = a.duplicate();
    assert!(a.equals(&b));
    let c = Data::List { values: vec![Data::unit()] };
    assert!(!a.equals(&c));
}

#[test]
fn hex_pair_with_plus_sign_reads_one_digit() {
    let b = ByteString::from_hex("+f0A+0");
    assert_eq!(b.as_bytes(), &[0x0f, 0x0a, 0x00]);
}
