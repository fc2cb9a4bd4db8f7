use rustus::builtins::{
    add_integer, append_bytestring, append_string, b_data, blake2b_224, blake2b_256, cons_bytestring,
    constr_data, decode_utf8, divide_integer, encode_utf8, equals_bytestring, equals_data, equals_integer,
    equals_string, i_data, index_bytestring, length_of_bytestring, less_than_bytestring,
    less_than_equals_bytestring, less_than_equals_integer, less_than_integer, list_data, map_data,
    mod_integer, multiply_integer, quotient_integer, remainder_integer, sha2_256, sha3_256,
    slice_bytestring, subtract_integer, un_b_data, un_constr_data, un_i_data, un_list_data, un_map_data,
};
use rustus::data::Data;
use rustus::integer::Integer;

fn num(v: i64) -> Integer {
    Integer::from_i64(v)
}

fn val(i: &Integer) -> i64 {
    i.to_i64().unwrap()
}

fn hex(bytes: &[u8]) -> String {
    bytes.iter().map(|b| format!("{:02x}", b)).collect()
}

#[test]
fn integer_arithmetic() {
    assert_eq!(val(&add_integer(num(2), num(40))), 42);
    assert_eq!(val(&subtract_integer(num(2), num(40))), -38);
    assert_eq!(val(&multiply_integer(num(-6), num(7))), -42);
    let big = multiply_integer(num(i64::MAX), num(4));
    assert!(big.to_i64().is_none());
    assert_eq!(val(&quotient_integer(big, num(8))), i64::MAX / 2);
}

#[test]
fn divide_rounds_toward_negative_infinity() {
    assert_eq!(val(&divide_integer(num(7), num(2))), 3);
    assert_eq!(val(&divide_integer(num(-7), num(2))), -4);
    assert_eq!(val(&divide_integer(num(7), num(-2))), -4);
    assert_eq!(val(&divide_integer(num(-7), num(-2))), 3);
    assert_eq!(val(&divide_integer(num(-8), num(2))), -4);
}

#[test]
fn quotient_and_remainder_round_toward_zero() {
    assert_eq!(val(&quotient_integer(num(-7), num(2))), -3);
    assert_eq!(val(&remainder_integer(num(-7), num(2))), -1);
    assert_eq!(val(&quotient_integer(num(7), num(-2))), -3);
    assert_eq!(val(&remainder_integer(num(7), num(-2))), 1);
}

#[test]
fn mod_has_the_sign_of_the_divisor() {
    assert_eq!(val(&mod_integer(num(-7), num(2))), 1);
    assert_eq!(val(&mod_integer(num(7), num(-2))), -1);
    assert_eq!(val(&mod_integer(num(7), num(2))), 1);
    assert_eq!(val(&mod_integer(num(-7), num(-2))), -1);
    assert_eq!(val(&mod_integer(num(6), num(3))), 0);
}

#[test]
fn division_law_on_values() {
    for a in -9i64..=9 {
        for b in [-4i64, -3, -1, 1, 2, 5] {
            let q = val(&divide_integer(num(a), num(b)));
            let m = val(&mod_integer(num(a), num(b)));
            assert_eq!(b * q + m, a);
            let t = val(&quotient_integer(num(a), num(b)));
            let r = val(&remainder_integer(num(a), num(b)));
            assert_eq!(b * t + r, a);
        }
    }
}

#[test]
fn integer_comparisons() {
    assert!(equals_integer(num(3), num(3)));
    assert!(!equals_integer(num(3), num(-3)));
    assert!(less_than_integer(num(-3), num(3)));
    assert!(!less_than_integer(num(3), num(3)));
    assert!(less_than_equals_integer(num(3), num(3)));
}

#[test]
fn bytestring_building() {
    assert_eq!(append_bytestring(vec![1, 2], vec![3]), vec![1, 2, 3]);
    assert_eq!(cons_bytestring(9, vec![1, 2]), vec![9, 1, 2]);
    assert_eq!(val(&length_of_bytestring(&[1, 2, 3])), 3);
    assert_eq!(index_bytestring(&[5, 6, 7], 1), 6);
}

#[test]
fn bytestring_slices() {
    let bs = vec![1u8, 2, 3, 4];
    assert_eq!(slice_bytestring(1, 2, bs.clone()), vec![2, 3]);
    assert_eq!(slice_bytestring(2, 10, bs.clone()), vec![3, 4]);
    assert_eq!(slice_bytestring(4, 1, bs.clone()), Vec::<u8>::new());
    assert_eq!(slice_bytestring(-1, 2, bs.clone()), Vec::<u8>::new());
    assert_eq!(slice_bytestring(1, -5, bs.clone()), vec![2, 3, 4]);
    assert_eq!(slice_bytestring(0, 0, bs), Vec::<u8>::new());
}

#[test]
fn bytestring_order() {
    assert!(less_than_bytestring(&[1, 2], &[1, 3]));
    assert!(less_than_bytestring(&[1, 2], &[1, 2, 0]));
    assert!(!less_than_bytestring(&[1, 2], &[1, 2]));
    assert!(!less_than_bytestring(&[2], &[1, 9]));
    assert!(less_than_equals_bytestring(&[1, 2], &[1, 2]));
    assert!(equals_bytestring(&[1, 2], &[1, 2]));
    assert!(!equals_bytestring(&[1, 2], &[1]));
}

#[test]
fn strings() {
    assert_eq!(append_string("ab".to_string(), "cd".to_string()), "abcd");
    assert!(equals_string("x", "x"));
    assert!(!equals_string("x", "y"));
    assert_eq!(encode_utf8("aé"), vec![0x61, 0xc3, 0xa9]);
    assert_eq!(decode_utf8(&[0x61, 0xc3, 0xa9]), "aé");
}

#[test]
fn hashes_of_the_empty_string() {
    assert_eq!(hex(&sha2_256(&[])), "e3b0c44298fc1c149afbf4c8996fb92427ae41e4649b934ca495991b7852b855");
    assert_eq!(hex(&sha3_256(&[])), "a7ffc6f8bf1ed76651c14756a061d662f580ff4de43b49fa82d80a4b80f8434a");
    assert_eq!(hex(&blake2b_256(&[])), "0e5751c026e543b2e8ab2eb06099daa1d1e5df47778f7787faab45cdf12fe3a8");
    assert_eq!(hex(&blake2b_224(&[])), "836cc68931c2e4e3e838602eca1902591d216837bafddfe6f0c8cb07");
}

#[test]
fn hash_of_abc_differs_from_input() {
    let d = sha2_256(b"abc");
    assert_eq!(hex(&d), "ba7816bf8f01cfea414140de5dae2223b00361a396177a9cb410ff61f20015ad");
    assert_eq!(d.len(), 32);
}

#[test]
fn data_constructors_and_destructors() {
    let c = constr_data(num(2), vec![i_data(num(5)), b_data(vec![1])]);
    let (tag, args) = un_constr_data(&c);
    assert_eq!(val(&tag), 2);
    assert_eq!(args.len(), 2);
    assert_eq!(val(&un_i_data(&args[0])), 5);
    assert_eq!(un_b_data(&args[1]), vec![1]);
    let l = list_data(vec![i_data(num(1))]);
    assert_eq!(un_list_data(&l).len(), 1);
    let m = map_data(vec![(i_data(num(1)), b_data(vec![]))]);
    assert_eq!(un_map_data(&m).len(), 1);
    assert!(equals_data(&c, &c.duplicate()));
    assert!(!equals_data(&c, &Data::unit()));
}

#[test]
fn divide_and_mod_rebuild_the_dividend() {
    for (a, b) in [(7i64, 2i64), (-7, 2), (7, -2), (-7, -2), (0, 5), (6, 3)] {
        let q = val(&divide_integer(num(a), num(b)));
        let m = val(&mod_integer(num(a), num(b)));
        assert_eq!(q * b + m, a);
        assert!(if b > 0 { 0 <= m && m < b } else { b < m && m <= 0 });
        let qt = val(&quotient_integer(num(a), num(b)));
        let rt = val(&remainder_integer(num(a), num(b)));
        assert_eq!(qt * b + rt, a);
        assert!(rt.abs() < b.abs());
        assert!(rt == 0 || (rt < 0) == (a < 0));
    }
}
