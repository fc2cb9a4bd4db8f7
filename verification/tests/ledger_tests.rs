use rustus::data::{Data, ToData};
use rustus::integer::Integer;
use rustus::ledger::v1::{Address, Credential, PubKeyHash, StakingCredential, TxId, TxOutRef};
use rustus::ledger::v3::{DRep, OutputDatum, TxCert, Vote};
use rustus::list::List;
use rustus::option::Option as OnchainOption;

fn constr(tag: i64, args: Vec<Data>) -> Data {
    Data::Constr { tag, args }
}

fn b(bytes: &[u8]) -> Data {
    Data::B { value: bytes.to_vec() }
}

fn i(v: i64) -> Data {
    Data::I { value: Integer::from_i64(v) }
}

#[test]
fn tx_out_ref_is_a_record_of_id_and_index() {
    let r = TxOutRef { id: TxId { hash: vec![1, 2] }, idx: Integer::from_i64(3) };
    assert_eq!(r.to_data(), constr(0, vec![constr(0, vec![b(&[1, 2])]), i(3)]));
}

#[test]
fn pub_key_hash_is_its_bytes_alone() {
    assert_eq!(PubKeyHash { hash: vec![9] }.to_data(), b(&[9]));
}

#[test]
fn credential_variants_are_tagged_in_order() {
    let pk = Credential::PubKeyCredential { hash: PubKeyHash { hash: vec![7] } };
    let sc = Credential::ScriptCredential { hash: vec![8] };
    assert_eq!(pk.to_data(), constr(0, vec![b(&[7])]));
    assert_eq!(sc.to_data(), constr(1, vec![b(&[8])]));
}

#[test]
fn address_with_and_without_staking_credential() {
    let a = Address {
        credential: Credential::ScriptCredential { hash: vec![1] },
        staking_credential: OnchainOption::Nothing,
    };
    assert_eq!(a.to_data(), constr(0, vec![constr(1, vec![b(&[1])]), constr(1, vec![])]));
    let ptr = StakingCredential::StakingPtr {
        slot: Integer::from_i64(1),
        tx_ix: Integer::from_i64(2),
        cert_ix: Integer::from_i64(3),
    };
    let a = Address {
        credential: Credential::ScriptCredential { hash: vec![1] },
        staking_credential: OnchainOption::Just { value: ptr },
    };
    let ptr_data = constr(1, vec![i(1), i(2), i(3)]);
    assert_eq!(a.to_data(), constr(0, vec![constr(1, vec![b(&[1])]), constr(0, vec![ptr_data])]));
}

#[test]
fn v3_enumerations_encode_by_position() {
    assert_eq!(Vote::No.to_data(), constr(0, vec![]));
    assert_eq!(Vote::Abstain.to_data(), constr(2, vec![]));
    assert_eq!(DRep::AlwaysNoConfidence.to_data(), constr(2, vec![]));
    assert_eq!(OutputDatum::OutputDatum { datum: i(5) }.to_data(), constr(2, vec![i(5)]));
    let cert = TxCert::UnRegDRep {
        credential: Credential::ScriptCredential { hash: vec![4] },
        refund: Integer::from_i64(100),
    };
    assert_eq!(cert.to_data(), constr(6, vec![constr(1, vec![b(&[4])]), i(100)]));
}

#[test]
fn list_of_ledger_values() {
    let l = List::from_vec(vec![PubKeyHash { hash: vec![1] }, PubKeyHash { hash: vec![2] }]);
    assert_eq!(l.to_data(), Data::List { values: vec![b(&[1]), b(&[2])] });
}

use rustus::sir_type::{HasSIRType, SIRType};
use rustus::typeclasses::OnchainPartialEq;

#[test]
fn ledger_types_declare_themselves_under_backend_names() {
    assert_eq!(
        TxOutRef::sir_type(),
        SIRType::CaseClass {
            constr_name: "scalus.cardano.onchain.plutus.v1.TxOutRef".to_string(),
            decl_name: "scalus.cardano.onchain.plutus.v1.TxOutRef".to_string(),
            type_args: vec![],
        }
    );
    let d = Credential::sir_data_decl().unwrap();
    assert_eq!(d.name, "scalus.cardano.onchain.plutus.v1.Credential");
    assert_eq!(d.constructors[0].name, "scalus.cardano.onchain.plutus.v1.Credential$.PubKeyCredential");
    assert_eq!(d.constructors[1].params[0].tp, SIRType::ByteString);
    let v = Vote::sir_data_decl().unwrap();
    assert_eq!(v.constructors.len(), 3);
    assert_eq!(v.constructors[2].name, "scalus.cardano.onchain.plutus.v3.Vote$.Abstain");
    let o = OutputDatum::sir_type();
    assert_eq!(
        o,
        SIRType::SumCaseClass { decl_name: "scalus.cardano.onchain.plutus.v2.OutputDatum".to_string(), type_args: vec![] }
    );
}

#[test]
fn one_element_types_compare_by_their_field() {
    match PubKeyHash::sir_eq() {
        rustus::sir::SIR::Builtin { builtin_fun, .. } => {
            assert_eq!(builtin_fun, rustus::default_fun::DefaultFun::EqualsByteString)
        }
        _ => panic!("expected a builtin"),
    }
    match TxId::sir_eq() {
        rustus::sir::SIR::Builtin { builtin_fun, .. } => assert_eq!(builtin_fun, rustus::default_fun::DefaultFun::EqualsData),
        _ => panic!("expected a builtin"),
    }
    let pkh = PubKeyHash::sir_data_decl().unwrap();
    assert_eq!(pkh.annotations.data[0].0, "uplcRepr");
}
