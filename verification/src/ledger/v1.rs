//! Plutus V1 ledger API types.
use crate::data::{Data, DataError, DataM, FromData, ToData, constr_of, lemma_datas_of, views_of};
use crate::integer::Integer;
use crate::list::List;
use crate::option::Option;
use crate::derive::{binding, enum_data_decl, enum_decl_spec, struct_data_decl, struct_decl_spec};
use crate::model::{SirM, Ty, decl_of, params_of, tys_of};
use crate::sir::SIR;
use crate::sir_type::{DataDecl, HasSIRType, SIRType, TypeBinding};
use crate::sir_types::{case_type, sum_type};
use crate::text::owned;
use crate::typeclasses::OnchainPartialEq;
use vstd::prelude::*;

verus! {

pub type Hash = Vec<u8>;

pub type ValidatorHash = Hash;

pub type PolicyId = Vec<u8>;

pub type TokenName = Vec<u8>;

pub type Datum = Data;

pub type DatumHash = Hash;

pub type Redeemer = Data;

pub type ScriptHash = Hash;

pub type PosixTime = Integer;

pub type Lovelace = Integer;

pub type Interval = Data;

/// A value: a map from policy id to a map from token name to quantity,
/// written as that map alone.
#[derive(Debug, PartialEq)]
pub struct Value {
    pub inner: Data,
}

/// A transaction hash.
#[derive(Debug, PartialEq)]
pub struct TxId {
    pub hash: Hash,
}

/// A reference to a transaction output.
#[derive(Debug, PartialEq)]
pub struct TxOutRef {
    pub id: TxId,
    pub idx: Integer,
}

/// A public key hash, written as its bytes alone.
#[derive(Debug, PartialEq)]
pub struct PubKeyHash {
    pub hash: Hash,
}

/// A credential: a public key or a script.
#[derive(Debug, PartialEq)]
pub enum Credential {
    PubKeyCredential { hash: PubKeyHash },
    ScriptCredential { hash: ValidatorHash },
}

/// A staking credential.
#[derive(Debug, PartialEq)]
pub enum StakingCredential {
    StakingHash { credential: Credential },
    StakingPtr { slot: Integer, tx_ix: Integer, cert_ix: Integer },
}

/// An address.
#[derive(Debug, PartialEq)]
pub struct Address {
    pub credential: Credential,
    pub staking_credential: Option<StakingCredential>,
}

/// A transaction output.
#[derive(Debug, PartialEq)]
pub struct TxOut {
    pub address: Address,
    pub value: Value,
    pub datum_hash: Option<DatumHash>,
}

/// A transaction input with the output it spends.
#[derive(Debug, PartialEq)]
pub struct TxInInfo {
    pub out_ref: TxOutRef,
    pub resolved: TxOut,
}

/// What a script is run for.
#[derive(Debug, PartialEq)]
pub enum ScriptPurpose {
    Minting { policy_id: PolicyId },
    Spending { tx_out_ref: TxOutRef },
    Rewarding { staking_credential: StakingCredential },
    Certifying { dcert: Datum },
}

/// The transaction that a V1 script sees.
#[derive(Debug, PartialEq)]
pub struct TxInfo {
    pub inputs: List<TxInInfo>,
    pub outputs: List<TxOut>,
    pub fee: Value,
    pub mint: Value,
    pub dcert: List<Datum>,
    pub withdrawals: List<Datum>,
    pub valid_range: Datum,
    pub signatories: List<Datum>,
    pub data: List<Datum>,
    pub id: TxId,
}

/// What a V1 script is given.
#[derive(Debug, PartialEq)]
pub struct ScriptContext {
    pub tx_info: TxInfo,
    pub purpose: ScriptPurpose,
}

impl View for Value {
    type V = Value;

    open spec fn view(&self) -> Value {
        *self
    }
}

impl View for TxId {
    type V = TxId;

    open spec fn view(&self) -> TxId {
        *self
    }
}

impl View for TxOutRef {
    type V = TxOutRef;

    open spec fn view(&self) -> TxOutRef {
        *self
    }
}

impl View for PubKeyHash {
    type V = PubKeyHash;

    open spec fn view(&self) -> PubKeyHash {
        *self
    }
}

impl View for Credential {
    type V = Credential;

    open spec fn view(&self) -> Credential {
        *self
    }
}

impl View for StakingCredential {
    type V = StakingCredential;

    open spec fn view(&self) -> StakingCredential {
        *self
    }
}

impl View for Address {
    type V = Address;

    open spec fn view(&self) -> Address {
        *self
    }
}

impl View for TxOut {
    type V = TxOut;

    open spec fn view(&self) -> TxOut {
        *self
    }
}

impl View for TxInInfo {
    type V = TxInInfo;

    open spec fn view(&self) -> TxInInfo {
        *self
    }
}

impl View for ScriptPurpose {
    type V = ScriptPurpose;

    open spec fn view(&self) -> ScriptPurpose {
        *self
    }
}

impl View for TxInfo {
    type V = TxInfo;

    open spec fn view(&self) -> TxInfo {
        *self
    }
}

impl View for ScriptContext {
    type V = ScriptContext;

    open spec fn view(&self) -> ScriptContext {
        *self
    }
}

impl ToData for Value {
    open spec fn encode(v: Value) -> DataM {
        v.inner@
    }

    fn to_data(&self) -> (r: Data) {
        self.inner.to_data()
    }
}

impl ToData for TxId {
    open spec fn encode(v: TxId) -> DataM {
        DataM::Constr(0, seq![<Hash as ToData>::encode(v.hash@)])
    }

    fn to_data(&self) -> (r: Data) {
        let args = vec![self.hash.to_data()];
        let r = constr_of(0, args);
        assert(views_of(args@) =~= seq![<Hash as ToData>::encode(self.hash@)]);
        r
    }
}

impl ToData for TxOutRef {
    open spec fn encode(v: TxOutRef) -> DataM {
        DataM::Constr(0, seq![<TxId as ToData>::encode(v.id@), <Integer as ToData>::encode(v.idx@)])
    }

    fn to_data(&self) -> (r: Data) {
        let args = vec![self.id.to_data(), self.idx.to_data()];
        let r = constr_of(0, args);
        assert(views_of(args@) =~= seq![
            <TxId as ToData>::encode(self.id@),
            <Integer as ToData>::encode(self.idx@),
        ]);
        r
    }
}

impl ToData for PubKeyHash {
    open spec fn encode(v: PubKeyHash) -> DataM {
        <Hash as ToData>::encode(v.hash@)
    }

    fn to_data(&self) -> (r: Data) {
        self.hash.to_data()
    }
}

impl ToData for Credential {
    open spec fn encode(v: Credential) -> DataM {
        match v {
            Credential::PubKeyCredential { hash } => DataM::Constr(0, seq![<PubKeyHash as ToData>::encode(hash@)]),
            Credential::ScriptCredential { hash } => DataM::Constr(1, seq![<Hash as ToData>::encode(hash@)]),
        }
    }

    fn to_data(&self) -> (r: Data) {
        match self {
            Credential::PubKeyCredential { hash } => {
                let args = vec![hash.to_data()];
                let r = constr_of(0, args);
                assert(views_of(args@) =~= seq![<PubKeyHash as ToData>::encode(hash@)]);
                r
            },
            Credential::ScriptCredential { hash } => {
                let args = vec![hash.to_data()];
                let r = constr_of(1, args);
                assert(views_of(args@) =~= seq![<Hash as ToData>::encode(hash@)]);
                r
            },
        }
    }
}

impl ToData for StakingCredential {
    open spec fn encode(v: StakingCredential) -> DataM {
        match v {
            StakingCredential::StakingHash { credential } => DataM::Constr(
                0,
                seq![<Credential as ToData>::encode(credential@)],
            ),
            StakingCredential::StakingPtr { slot, tx_ix, cert_ix } => DataM::Constr(
                1,
                seq![
                    <Integer as ToData>::encode(slot@),
                    <Integer as ToData>::encode(tx_ix@),
                    <Integer as ToData>::encode(cert_ix@),
                ],
            ),
        }
    }

    fn to_data(&self) -> (r: Data) {
        match self {
            StakingCredential::StakingHash { credential } => {
                let args = vec![credential.to_data()];
                let r = constr_of(0, args);
                assert(views_of(args@) =~= seq![<Credential as ToData>::encode(credential@)]);
                r
            },
            StakingCredential::StakingPtr { slot, tx_ix, cert_ix } => {
                let args = vec![slot.to_data(), tx_ix.to_data(), cert_ix.to_data()];
                let r = constr_of(1, args);
                assert(views_of(args@) =~= seq![
                    <Integer as ToData>::encode(slot@),
                    <Integer as ToData>::encode(tx_ix@),
                    <Integer as ToData>::encode(cert_ix@),
                ]);
                r
            },
        }
    }
}

impl ToData for Address {
    open spec fn encode(v: Address) -> DataM {
        DataM::Constr(
            0,
            seq![
                <Credential as ToData>::encode(v.credential@),
                <Option<StakingCredential> as ToData>::encode(v.staking_credential@),
            ],
        )
    }

    fn to_data(&self) -> (r: Data) {
        let args = vec![self.credential.to_data(), self.staking_credential.to_data()];
        let r = constr_of(0, args);
        assert(views_of(args@) =~= seq![
            <Credential as ToData>::encode(self.credential@),
            <Option<StakingCredential> as ToData>::encode(self.staking_credential@),
        ]);
        r
    }
}

impl ToData for TxOut {
    open spec fn encode(v: TxOut) -> DataM {
        DataM::Constr(
            0,
            seq![
                <Address as ToData>::encode(v.address@),
                <Value as ToData>::encode(v.value@),
                <Option<DatumHash> as ToData>::encode(v.datum_hash@),
            ],
        )
    }

    fn to_data(&self) -> (r: Data) {
        let args = vec![self.address.to_data(), self.value.to_data(), self.datum_hash.to_data()];
        let r = constr_of(0, args);
        assert(views_of(args@) =~= seq![
            <Address as ToData>::encode(self.address@),
            <Value as ToData>::encode(self.value@),
            <Option<DatumHash> as ToData>::encode(self.datum_hash@),
        ]);
        r
    }
}

impl ToData for TxInInfo {
    open spec fn encode(v: TxInInfo) -> DataM {
        DataM::Constr(0, seq![<TxOutRef as ToData>::encode(v.out_ref@), <TxOut as ToData>::encode(v.resolved@)])
    }

    fn to_data(&self) -> (r: Data) {
        let args = vec![self.out_ref.to_data(), self.resolved.to_data()];
        let r = constr_of(0, args);
        assert(views_of(args@) =~= seq![
            <TxOutRef as ToData>::encode(self.out_ref@),
            <TxOut as ToData>::encode(self.resolved@),
        ]);
        r
    }
}

impl ToData for ScriptPurpose {
    open spec fn encode(v: ScriptPurpose) -> DataM {
        match v {
            ScriptPurpose::Minting { policy_id } => DataM::Constr(0, seq![<PolicyId as ToData>::encode(policy_id@)]),
            ScriptPurpose::Spending { tx_out_ref } => DataM::Constr(
                1,
                seq![<TxOutRef as ToData>::encode(tx_out_ref@)],
            ),
            ScriptPurpose::Rewarding { staking_credential } => DataM::Constr(
                2,
                seq![<StakingCredential as ToData>::encode(staking_credential@)],
            ),
            ScriptPurpose::Certifying { dcert } => DataM::Constr(3, seq![<Datum as ToData>::encode(dcert@)]),
        }
    }

    fn to_data(&self) -> (r: Data) {
        match self {
            ScriptPurpose::Minting { policy_id } => {
                let args = vec![policy_id.to_data()];
                let r = constr_of(0, args);
                assert(views_of(args@) =~= seq![<PolicyId as ToData>::encode(policy_id@)]);
                r
            },
            ScriptPurpose::Spending { tx_out_ref } => {
                let args = vec![tx_out_ref.to_data()];
                let r = constr_of(1, args);
                assert(views_of(args@) =~= seq![<TxOutRef as ToData>::encode(tx_out_ref@)]);
                r
            },
            ScriptPurpose::Rewarding { staking_credential } => {
                let args = vec![staking_credential.to_data()];
                let r = constr_of(2, args);
                assert(views_of(args@) =~= seq![<StakingCredential as ToData>::encode(staking_credential@)]);
                r
            },
            ScriptPurpose::Certifying { dcert } => {
                let args = vec![dcert.to_data()];
                let r = constr_of(3, args);
                assert(views_of(args@) =~= seq![<Datum as ToData>::encode(dcert@)]);
                r
            },
        }
    }
}

impl ToData for TxInfo {
    open spec fn encode(v: TxInfo) -> DataM {
        DataM::Constr(
            0,
            seq![
                <List<TxInInfo> as ToData>::encode(v.inputs@),
                <List<TxOut> as ToData>::encode(v.outputs@),
                <Value as ToData>::encode(v.fee@),
                <Value as ToData>::encode(v.mint@),
                <List<Datum> as ToData>::encode(v.dcert@),
                <List<Datum> as ToData>::encode(v.withdrawals@),
                <Datum as ToData>::encode(v.valid_range@),
                <List<Datum> as ToData>::encode(v.signatories@),
                <List<Datum> as ToData>::encode(v.data@),
                <TxId as ToData>::encode(v.id@),
            ],
        )
    }

    fn to_data(&self) -> (r: Data) {
        let args = vec![
            self.inputs.to_data(),
            self.outputs.to_data(),
            self.fee.to_data(),
            self.mint.to_data(),
            self.dcert.to_data(),
            self.withdrawals.to_data(),
            self.valid_range.to_data(),
            self.signatories.to_data(),
            self.data.to_data(),
            self.id.to_data(),
        ];
        let r = constr_of(0, args);
        assert(views_of(args@) =~= seq![
            <List<TxInInfo> as ToData>::encode(self.inputs@),
            <List<TxOut> as ToData>::encode(self.outputs@),
            <Value as ToData>::encode(self.fee@),
            <Value as ToData>::encode(self.mint@),
            <List<Datum> as ToData>::encode(self.dcert@),
            <List<Datum> as ToData>::encode(self.withdrawals@),
            <Datum as ToData>::encode(self.valid_range@),
            <List<Datum> as ToData>::encode(self.signatories@),
            <List<Datum> as ToData>::encode(self.data@),
            <TxId as ToData>::encode(self.id@),
        ]);
        r
    }
}

impl ToData for ScriptContext {
    open spec fn encode(v: ScriptContext) -> DataM {
        DataM::Constr(
            0,
            seq![<TxInfo as ToData>::encode(v.tx_info@), <ScriptPurpose as ToData>::encode(v.purpose@)],
        )
    }

    fn to_data(&self) -> (r: Data) {
        let args = vec![self.tx_info.to_data(), self.purpose.to_data()];
        let r = constr_of(0, args);
        assert(views_of(args@) =~= seq![
            <TxInfo as ToData>::encode(self.tx_info@),
            <ScriptPurpose as ToData>::encode(self.purpose@),
        ]);
        r
    }
}

impl HasSIRType for Value {
    open spec fn sir_type_spec() -> Ty {
        Ty::CaseClass("scalus.cardano.onchain.plutus.v1.Value"@, "scalus.cardano.onchain.plutus.v1.Value"@, Seq::empty())
    }

    fn sir_type() -> (r: SIRType) {
        let args: Vec<SIRType> = Vec::new();
        assert(tys_of(args@) =~= Seq::<Ty>::empty());
        case_type("scalus.cardano.onchain.plutus.v1.Value", args)
    }

    fn sir_data_decl() -> (r: std::option::Option<DataDecl>)
        ensures
            r matches std::option::Option::Some(d) && decl_of(d) == struct_decl_spec(
                "scalus.cardano.onchain.plutus.v1.Value"@,
                seq![
                    ("inner"@, Ty::Data),
                ],
                0,
                std::option::Option::Some("one_element"@),
            ),
    {
        let mut fields: Vec<TypeBinding> = Vec::new();
        fields.push(binding("inner", SIRType::Data));
        assert(params_of(fields@) =~= seq![
            ("inner"@, Ty::Data),
        ]);
        std::option::Option::Some(struct_data_decl("scalus.cardano.onchain.plutus.v1.Value", fields, 0, std::option::Option::Some("one_element")))
    }
}

impl OnchainPartialEq for Value {
    open spec fn sir_eq_spec() -> SirM {
        <Data as OnchainPartialEq>::sir_eq_spec()
    }

    fn sir_eq() -> (r: SIR) {
        <Data as OnchainPartialEq>::sir_eq()
    }
}

impl HasSIRType for TxId {
    open spec fn sir_type_spec() -> Ty {
        Ty::CaseClass("scalus.cardano.onchain.plutus.v1.TxId"@, "scalus.cardano.onchain.plutus.v1.TxId"@, Seq::empty())
    }

    fn sir_type() -> (r: SIRType) {
        let args: Vec<SIRType> = Vec::new();
        assert(tys_of(args@) =~= Seq::<Ty>::empty());
        case_type("scalus.cardano.onchain.plutus.v1.TxId", args)
    }

    fn sir_data_decl() -> (r: std::option::Option<DataDecl>)
        ensures
            r matches std::option::Option::Some(d) && decl_of(d) == struct_decl_spec(
                "scalus.cardano.onchain.plutus.v1.TxId"@,
                seq![
                    ("hash"@, <Vec<u8> as HasSIRType>::sir_type_spec()),
                ],
                0,
                std::option::Option::None,
            ),
    {
        let mut fields: Vec<TypeBinding> = Vec::new();
        fields.push(binding("hash", <Vec<u8> as HasSIRType>::sir_type()));
        assert(params_of(fields@) =~= seq![
            ("hash"@, <Vec<u8> as HasSIRType>::sir_type_spec()),
        ]);
        std::option::Option::Some(struct_data_decl("scalus.cardano.onchain.plutus.v1.TxId", fields, 0, std::option::Option::None))
    }
}

impl OnchainPartialEq for TxId {
    open spec fn sir_eq_spec() -> SirM {
        <Data as OnchainPartialEq>::sir_eq_spec()
    }

    fn sir_eq() -> (r: SIR) {
        <Data as OnchainPartialEq>::sir_eq()
    }
}

impl HasSIRType for TxOutRef {
    open spec fn sir_type_spec() -> Ty {
        Ty::CaseClass("scalus.cardano.onchain.plutus.v1.TxOutRef"@, "scalus.cardano.onchain.plutus.v1.TxOutRef"@, Seq::empty())
    }

    fn sir_type() -> (r: SIRType) {
        let args: Vec<SIRType> = Vec::new();
        assert(tys_of(args@) =~= Seq::<Ty>::empty());
        case_type("scalus.cardano.onchain.plutus.v1.TxOutRef", args)
    }

    fn sir_data_decl() -> (r: std::option::Option<DataDecl>)
        ensures
            r matches std::option::Option::Some(d) && decl_of(d) == struct_decl_spec(
                "scalus.cardano.onchain.plutus.v1.TxOutRef"@,
                seq![
                    ("id"@, <TxId as HasSIRType>::sir_type_spec()),
                    ("idx"@, <Integer as HasSIRType>::sir_type_spec()),
                ],
                0,
                std::option::Option::None,
            ),
    {
        let mut fields: Vec<TypeBinding> = Vec::new();
        fields.push(binding("id", <TxId as HasSIRType>::sir_type()));
        fields.push(binding("idx", <Integer as HasSIRType>::sir_type()));
        assert(params_of(fields@) =~= seq![
            ("id"@, <TxId as HasSIRType>::sir_type_spec()),
            ("idx"@, <Integer as HasSIRType>::sir_type_spec()),
        ]);
        std::option::Option::Some(struct_data_decl("scalus.cardano.onchain.plutus.v1.TxOutRef", fields, 0, std::option::Option::None))
    }
}

impl OnchainPartialEq for TxOutRef {
    open spec fn sir_eq_spec() -> SirM {
        <Data as OnchainPartialEq>::sir_eq_spec()
    }

    fn sir_eq() -> (r: SIR) {
        <Data as OnchainPartialEq>::sir_eq()
    }
}

impl HasSIRType for PubKeyHash {
    open spec fn sir_type_spec() -> Ty {
        Ty::CaseClass("scalus.cardano.onchain.plutus.v1.PubKeyHash"@, "scalus.cardano.onchain.plutus.v1.PubKeyHash"@, Seq::empty())
    }

    fn sir_type() -> (r: SIRType) {
        let args: Vec<SIRType> = Vec::new();
        assert(tys_of(args@) =~= Seq::<Ty>::empty());
        case_type("scalus.cardano.onchain.plutus.v1.PubKeyHash", args)
    }

    fn sir_data_decl() -> (r: std::option::Option<DataDecl>)
        ensures
            r matches std::option::Option::Some(d) && decl_of(d) == struct_decl_spec(
                "scalus.cardano.onchain.plutus.v1.PubKeyHash"@,
                seq![
                    ("hash"@, <Vec<u8> as HasSIRType>::sir_type_spec()),
                ],
                0,
                std::option::Option::Some("one_element"@),
            ),
    {
        let mut fields: Vec<TypeBinding> = Vec::new();
        fields.push(binding("hash", <Vec<u8> as HasSIRType>::sir_type()));
        assert(params_of(fields@) =~= seq![
            ("hash"@, <Vec<u8> as HasSIRType>::sir_type_spec()),
        ]);
        std::option::Option::Some(struct_data_decl("scalus.cardano.onchain.plutus.v1.PubKeyHash", fields, 0, std::option::Option::Some("one_element")))
    }
}

impl OnchainPartialEq for PubKeyHash {
    open spec fn sir_eq_spec() -> SirM {
        <Vec<u8> as OnchainPartialEq>::sir_eq_spec()
    }

    fn sir_eq() -> (r: SIR) {
        <Vec<u8> as OnchainPartialEq>::sir_eq()
    }
}

impl HasSIRType for Credential {
    open spec fn sir_type_spec() -> Ty {
        Ty::SumCaseClass("scalus.cardano.onchain.plutus.v1.Credential"@, Seq::empty())
    }

    fn sir_type() -> (r: SIRType) {
        let args: Vec<SIRType> = Vec::new();
        assert(tys_of(args@) =~= Seq::<Ty>::empty());
        sum_type("scalus.cardano.onchain.plutus.v1.Credential", args)
    }

    fn sir_data_decl() -> (r: std::option::Option<DataDecl>)
        ensures
            r matches std::option::Option::Some(d) && decl_of(d) == enum_decl_spec(
                "scalus.cardano.onchain.plutus.v1.Credential"@,
                seq![
                    ("PubKeyCredential"@, seq![
                        ("hash"@, <PubKeyHash as HasSIRType>::sir_type_spec()),
                    ]),
                    ("ScriptCredential"@, seq![
                        ("hash"@, <Vec<u8> as HasSIRType>::sir_type_spec()),
                    ]),
                ],
                0,
            ),
    {
        let mut variants: Vec<(String, Vec<TypeBinding>)> = Vec::new();
        let mut f0: Vec<TypeBinding> = Vec::new();
        f0.push(binding("hash", <PubKeyHash as HasSIRType>::sir_type()));
        assert(params_of(f0@) =~= seq![
            ("hash"@, <PubKeyHash as HasSIRType>::sir_type_spec()),
        ]);
        variants.push((owned("PubKeyCredential"), f0));
        let mut f1: Vec<TypeBinding> = Vec::new();
        f1.push(binding("hash", <Vec<u8> as HasSIRType>::sir_type()));
        assert(params_of(f1@) =~= seq![
            ("hash"@, <Vec<u8> as HasSIRType>::sir_type_spec()),
        ]);
        variants.push((owned("ScriptCredential"), f1));
        assert(variants@.map_values(|v: (String, Vec<TypeBinding>)| (v.0@, params_of(v.1@))) =~= seq![
            ("PubKeyCredential"@, seq![
                    ("hash"@, <PubKeyHash as HasSIRType>::sir_type_spec()),
                ]),
            ("ScriptCredential"@, seq![
                    ("hash"@, <Vec<u8> as HasSIRType>::sir_type_spec()),
                ]),
        ]);
        std::option::Option::Some(enum_data_decl("scalus.cardano.onchain.plutus.v1.Credential", variants, 0))
    }
}

impl OnchainPartialEq for Credential {
    open spec fn sir_eq_spec() -> SirM {
        <Data as OnchainPartialEq>::sir_eq_spec()
    }

    fn sir_eq() -> (r: SIR) {
        <Data as OnchainPartialEq>::sir_eq()
    }
}

impl HasSIRType for StakingCredential {
    open spec fn sir_type_spec() -> Ty {
        Ty::SumCaseClass("scalus.cardano.onchain.plutus.v1.StakingCredential"@, Seq::empty())
    }

    fn sir_type() -> (r: SIRType) {
        let args: Vec<SIRType> = Vec::new();
        assert(tys_of(args@) =~= Seq::<Ty>::empty());
        sum_type("scalus.cardano.onchain.plutus.v1.StakingCredential", args)
    }

    fn sir_data_decl() -> (r: std::option::Option<DataDecl>)
        ensures
            r matches std::option::Option::Some(d) && decl_of(d) == enum_decl_spec(
                "scalus.cardano.onchain.plutus.v1.StakingCredential"@,
                seq![
                    ("StakingHash"@, seq![
                        ("credential"@, <Credential as HasSIRType>::sir_type_spec()),
                    ]),
                    ("StakingPtr"@, seq![
                        ("slot"@, <Integer as HasSIRType>::sir_type_spec()),
                        ("tx_ix"@, <Integer as HasSIRType>::sir_type_spec()),
                        ("cert_ix"@, <Integer as HasSIRType>::sir_type_spec()),
                    ]),
                ],
                0,
            ),
    {
        let mut variants: Vec<(String, Vec<TypeBinding>)> = Vec::new();
        let mut f0: Vec<TypeBinding> = Vec::new();
        f0.push(binding("credential", <Credential as HasSIRType>::sir_type()));
        assert(params_of(f0@) =~= seq![
            ("credential"@, <Credential as HasSIRType>::sir_type_spec()),
        ]);
        variants.push((owned("StakingHash"), f0));
        let mut f1: Vec<TypeBinding> = Vec::new();
        f1.push(binding("slot", <Integer as HasSIRType>::sir_type()));
        f1.push(binding("tx_ix", <Integer as HasSIRType>::sir_type()));
        f1.push(binding("cert_ix", <Integer as HasSIRType>::sir_type()));
        assert(params_of(f1@) =~= seq![
            ("slot"@, <Integer as HasSIRType>::sir_type_spec()),
            ("tx_ix"@, <Integer as HasSIRType>::sir_type_spec()),
            ("cert_ix"@, <Integer as HasSIRType>::sir_type_spec()),
        ]);
        variants.push((owned("StakingPtr"), f1));
        assert(variants@.map_values(|v: (String, Vec<TypeBinding>)| (v.0@, params_of(v.1@))) =~= seq![
            ("StakingHash"@, seq![
                    ("credential"@, <Credential as HasSIRType>::sir_type_spec()),
                ]),
            ("StakingPtr"@, seq![
                    ("slot"@, <Integer as HasSIRType>::sir_type_spec()),
                    ("tx_ix"@, <Integer as HasSIRType>::sir_type_spec()),
                    ("cert_ix"@, <Integer as HasSIRType>::sir_type_spec()),
                ]),
        ]);
        std::option::Option::Some(enum_data_decl("scalus.cardano.onchain.plutus.v1.StakingCredential", variants, 0))
    }
}

impl OnchainPartialEq for StakingCredential {
    open spec fn sir_eq_spec() -> SirM {
        <Data as OnchainPartialEq>::sir_eq_spec()
    }

    fn sir_eq() -> (r: SIR) {
        <Data as OnchainPartialEq>::sir_eq()
    }
}

impl HasSIRType for Address {
    open spec fn sir_type_spec() -> Ty {
        Ty::CaseClass("scalus.cardano.onchain.plutus.v1.Address"@, "scalus.cardano.onchain.plutus.v1.Address"@, Seq::empty())
    }

    fn sir_type() -> (r: SIRType) {
        let args: Vec<SIRType> = Vec::new();
        assert(tys_of(args@) =~= Seq::<Ty>::empty());
        case_type("scalus.cardano.onchain.plutus.v1.Address", args)
    }

    fn sir_data_decl() -> (r: std::option::Option<DataDecl>)
        ensures
            r matches std::option::Option::Some(d) && decl_of(d) == struct_decl_spec(
                "scalus.cardano.onchain.plutus.v1.Address"@,
                seq![
                    ("credential"@, <Credential as HasSIRType>::sir_type_spec()),
                    ("staking_credential"@, <Option<StakingCredential> as HasSIRType>::sir_type_spec()),
                ],
                0,
                std::option::Option::None,
            ),
    {
        let mut fields: Vec<TypeBinding> = Vec::new();
        fields.push(binding("credential", <Credential as HasSIRType>::sir_type()));
        fields.push(binding("staking_credential", <Option<StakingCredential> as HasSIRType>::sir_type()));
        assert(params_of(fields@) =~= seq![
            ("credential"@, <Credential as HasSIRType>::sir_type_spec()),
            ("staking_credential"@, <Option<StakingCredential> as HasSIRType>::sir_type_spec()),
        ]);
        std::option::Option::Some(struct_data_decl("scalus.cardano.onchain.plutus.v1.Address", fields, 0, std::option::Option::None))
    }
}

impl OnchainPartialEq for Address {
    open spec fn sir_eq_spec() -> SirM {
        <Data as OnchainPartialEq>::sir_eq_spec()
    }

    fn sir_eq() -> (r: SIR) {
        <Data as OnchainPartialEq>::sir_eq()
    }
}

impl HasSIRType for TxOut {
    open spec fn sir_type_spec() -> Ty {
        Ty::CaseClass("scalus.cardano.onchain.plutus.v1.TxOut"@, "scalus.cardano.onchain.plutus.v1.TxOut"@, Seq::empty())
    }

    fn sir_type() -> (r: SIRType) {
        let args: Vec<SIRType> = Vec::new();
        assert(tys_of(args@) =~= Seq::<Ty>::empty());
        case_type("scalus.cardano.onchain.plutus.v1.TxOut", args)
    }

    fn sir_data_decl() -> (r: std::option::Option<DataDecl>)
        ensures
            r matches std::option::Option::Some(d) && decl_of(d) == struct_decl_spec(
                "scalus.cardano.onchain.plutus.v1.TxOut"@,
                seq![
                    ("address"@, <Address as HasSIRType>::sir_type_spec()),
                    ("value"@, <Value as HasSIRType>::sir_type_spec()),
                    ("datum_hash"@, <Option<Vec<u8>> as HasSIRType>::sir_type_spec()),
                ],
                0,
                std::option::Option::None,
            ),
    {
        let mut fields: Vec<TypeBinding> = Vec::new();
        fields.push(binding("address", <Address as HasSIRType>::sir_type()));
        fields.push(binding("value", <Value as HasSIRType>::sir_type()));
        fields.push(binding("datum_hash", <Option<Vec<u8>> as HasSIRType>::sir_type()));
        assert(params_of(fields@) =~= seq![
            ("address"@, <Address as HasSIRType>::sir_type_spec()),
            ("value"@, <Value as HasSIRType>::sir_type_spec()),
            ("datum_hash"@, <Option<Vec<u8>> as HasSIRType>::sir_type_spec()),
        ]);
        std::option::Option::Some(struct_data_decl("scalus.cardano.onchain.plutus.v1.TxOut", fields, 0, std::option::Option::None))
    }
}

impl OnchainPartialEq for TxOut {
    open spec fn sir_eq_spec() -> SirM {
        <Data as OnchainPartialEq>::sir_eq_spec()
    }

    fn sir_eq() -> (r: SIR) {
        <Data as OnchainPartialEq>::sir_eq()
    }
}

impl HasSIRType for TxInInfo {
    open spec fn sir_type_spec() -> Ty {
        Ty::CaseClass("scalus.cardano.onchain.plutus.v1.TxInInfo"@, "scalus.cardano.onchain.plutus.v1.TxInInfo"@, Seq::empty())
    }

    fn sir_type() -> (r: SIRType) {
        let args: Vec<SIRType> = Vec::new();
        assert(tys_of(args@) =~= Seq::<Ty>::empty());
        case_type("scalus.cardano.onchain.plutus.v1.TxInInfo", args)
    }

    fn sir_data_decl() -> (r: std::option::Option<DataDecl>)
        ensures
            r matches std::option::Option::Some(d) && decl_of(d) == struct_decl_spec(
                "scalus.cardano.onchain.plutus.v1.TxInInfo"@,
                seq![
                    ("out_ref"@, <TxOutRef as HasSIRType>::sir_type_spec()),
                    ("resolved"@, <TxOut as HasSIRType>::sir_type_spec()),
                ],
                0,
                std::option::Option::None,
            ),
    {
        let mut fields: Vec<TypeBinding> = Vec::new();
        fields.push(binding("out_ref", <TxOutRef as HasSIRType>::sir_type()));
        fields.push(binding("resolved", <TxOut as HasSIRType>::sir_type()));
        assert(params_of(fields@) =~= seq![
            ("out_ref"@, <TxOutRef as HasSIRType>::sir_type_spec()),
            ("resolved"@, <TxOut as HasSIRType>::sir_type_spec()),
        ]);
        std::option::Option::Some(struct_data_decl("scalus.cardano.onchain.plutus.v1.TxInInfo", fields, 0, std::option::Option::None))
    }
}

impl OnchainPartialEq for TxInInfo {
    open spec fn sir_eq_spec() -> SirM {
        <Data as OnchainPartialEq>::sir_eq_spec()
    }

    fn sir_eq() -> (r: SIR) {
        <Data as OnchainPartialEq>::sir_eq()
    }
}

impl HasSIRType for ScriptPurpose {
    open spec fn sir_type_spec() -> Ty {
        Ty::SumCaseClass("scalus.cardano.onchain.plutus.v1.ScriptPurpose"@, Seq::empty())
    }

    fn sir_type() -> (r: SIRType) {
        let args: Vec<SIRType> = Vec::new();
        assert(tys_of(args@) =~= Seq::<Ty>::empty());
        sum_type("scalus.cardano.onchain.plutus.v1.ScriptPurpose", args)
    }

    fn sir_data_decl() -> (r: std::option::Option<DataDecl>)
        ensures
            r matches std::option::Option::Some(d) && decl_of(d) == enum_decl_spec(
                "scalus.cardano.onchain.plutus.v1.ScriptPurpose"@,
                seq![
                    ("Minting"@, seq![
                        ("policy_id"@, <Vec<u8> as HasSIRType>::sir_type_spec()),
                    ]),
                    ("Spending"@, seq![
                        ("tx_out_ref"@, <TxOutRef as HasSIRType>::sir_type_spec()),
                    ]),
                    ("Rewarding"@, seq![
                        ("staking_credential"@, <StakingCredential as HasSIRType>::sir_type_spec()),
                    ]),
                    ("Certifying"@, seq![
                        ("dcert"@, <Data as HasSIRType>::sir_type_spec()),
                    ]),
                ],
                0,
            ),
    {
        let mut variants: Vec<(String, Vec<TypeBinding>)> = Vec::new();
        let mut f0: Vec<TypeBinding> = Vec::new();
        f0.push(binding("policy_id", <Vec<u8> as HasSIRType>::sir_type()));
        assert(params_of(f0@) =~= seq![
            ("policy_id"@, <Vec<u8> as HasSIRType>::sir_type_spec()),
        ]);
        variants.push((owned("Minting"), f0));
        let mut f1: Vec<TypeBinding> = Vec::new();
        f1.push(binding("tx_out_ref", <TxOutRef as HasSIRType>::sir_type()));
        assert(params_of(f1@) =~= seq![
            ("tx_out_ref"@, <TxOutRef as HasSIRType>::sir_type_spec()),
        ]);
        variants.push((owned("Spending"), f1));
        let mut f2: Vec<TypeBinding> = Vec::new();
        f2.push(binding("staking_credential", <StakingCredential as HasSIRType>::sir_type()));
        assert(params_of(f2@) =~= seq![
            ("staking_credential"@, <StakingCredential as HasSIRType>::sir_type_spec()),
        ]);
        variants.push((owned("Rewarding"), f2));
        let mut f3: Vec<TypeBinding> = Vec::new();
        f3.push(binding("dcert", <Data as HasSIRType>::sir_type()));
        assert(params_of(f3@) =~= seq![
            ("dcert"@, <Data as HasSIRType>::sir_type_spec()),
        ]);
        variants.push((owned("Certifying"), f3));
        assert(variants@.map_values(|v: (String, Vec<TypeBinding>)| (v.0@, params_of(v.1@))) =~= seq![
            ("Minting"@, seq![
                    ("policy_id"@, <Vec<u8> as HasSIRType>::sir_type_spec()),
                ]),
            ("Spending"@, seq![
                    ("tx_out_ref"@, <TxOutRef as HasSIRType>::sir_type_spec()),
                ]),
            ("Rewarding"@, seq![
                    ("staking_credential"@, <StakingCredential as HasSIRType>::sir_type_spec()),
                ]),
            ("Certifying"@, seq![
                    ("dcert"@, <Data as HasSIRType>::sir_type_spec()),
                ]),
        ]);
        std::option::Option::Some(enum_data_decl("scalus.cardano.onchain.plutus.v1.ScriptPurpose", variants, 0))
    }
}

impl OnchainPartialEq for ScriptPurpose {
    open spec fn sir_eq_spec() -> SirM {
        <Data as OnchainPartialEq>::sir_eq_spec()
    }

    fn sir_eq() -> (r: SIR) {
        <Data as OnchainPartialEq>::sir_eq()
    }
}

impl HasSIRType for TxInfo {
    open spec fn sir_type_spec() -> Ty {
        Ty::CaseClass("scalus.cardano.onchain.plutus.v1.TxInfo"@, "scalus.cardano.onchain.plutus.v1.TxInfo"@, Seq::empty())
    }

    fn sir_type() -> (r: SIRType) {
        let args: Vec<SIRType> = Vec::new();
        assert(tys_of(args@) =~= Seq::<Ty>::empty());
        case_type("scalus.cardano.onchain.plutus.v1.TxInfo", args)
    }

    fn sir_data_decl() -> (r: std::option::Option<DataDecl>)
        ensures
            r matches std::option::Option::Some(d) && decl_of(d) == struct_decl_spec(
                "scalus.cardano.onchain.plutus.v1.TxInfo"@,
                seq![
                    ("inputs"@, <List<TxInInfo> as HasSIRType>::sir_type_spec()),
                    ("outputs"@, <List<TxOut> as HasSIRType>::sir_type_spec()),
                    ("fee"@, <Value as HasSIRType>::sir_type_spec()),
                    ("mint"@, <Value as HasSIRType>::sir_type_spec()),
                    ("dcert"@, <List<Data> as HasSIRType>::sir_type_spec()),
                    ("withdrawals"@, <List<Data> as HasSIRType>::sir_type_spec()),
                    ("valid_range"@, <Data as HasSIRType>::sir_type_spec()),
                    ("signatories"@, <List<Data> as HasSIRType>::sir_type_spec()),
                    ("data"@, <List<Data> as HasSIRType>::sir_type_spec()),
                    ("id"@, <TxId as HasSIRType>::sir_type_spec()),
                ],
                0,
                std::option::Option::None,
            ),
    {
        let mut fields: Vec<TypeBinding> = Vec::new();
        fields.push(binding("inputs", <List<TxInInfo> as HasSIRType>::sir_type()));
        fields.push(binding("outputs", <List<TxOut> as HasSIRType>::sir_type()));
        fields.push(binding("fee", <Value as HasSIRType>::sir_type()));
        fields.push(binding("mint", <Value as HasSIRType>::sir_type()));
        fields.push(binding("dcert", <List<Data> as HasSIRType>::sir_type()));
        fields.push(binding("withdrawals", <List<Data> as HasSIRType>::sir_type()));
        fields.push(binding("valid_range", <Data as HasSIRType>::sir_type()));
        fields.push(binding("signatories", <List<Data> as HasSIRType>::sir_type()));
        fields.push(binding("data", <List<Data> as HasSIRType>::sir_type()));
        fields.push(binding("id", <TxId as HasSIRType>::sir_type()));
        assert(params_of(fields@) =~= seq![
            ("inputs"@, <List<TxInInfo> as HasSIRType>::sir_type_spec()),
            ("outputs"@, <List<TxOut> as HasSIRType>::sir_type_spec()),
            ("fee"@, <Value as HasSIRType>::sir_type_spec()),
            ("mint"@, <Value as HasSIRType>::sir_type_spec()),
            ("dcert"@, <List<Data> as HasSIRType>::sir_type_spec()),
            ("withdrawals"@, <List<Data> as HasSIRType>::sir_type_spec()),
            ("valid_range"@, <Data as HasSIRType>::sir_type_spec()),
            ("signatories"@, <List<Data> as HasSIRType>::sir_type_spec()),
            ("data"@, <List<Data> as HasSIRType>::sir_type_spec()),
            ("id"@, <TxId as HasSIRType>::sir_type_spec()),
        ]);
        std::option::Option::Some(struct_data_decl("scalus.cardano.onchain.plutus.v1.TxInfo", fields, 0, std::option::Option::None))
    }
}

impl OnchainPartialEq for TxInfo {
    open spec fn sir_eq_spec() -> SirM {
        <Data as OnchainPartialEq>::sir_eq_spec()
    }

    fn sir_eq() -> (r: SIR) {
        <Data as OnchainPartialEq>::sir_eq()
    }
}

impl HasSIRType for ScriptContext {
    open spec fn sir_type_spec() -> Ty {
        Ty::CaseClass("scalus.cardano.onchain.plutus.v1.ScriptContext"@, "scalus.cardano.onchain.plutus.v1.ScriptContext"@, Seq::empty())
    }

    fn sir_type() -> (r: SIRType) {
        let args: Vec<SIRType> = Vec::new();
        assert(tys_of(args@) =~= Seq::<Ty>::empty());
        case_type("scalus.cardano.onchain.plutus.v1.ScriptContext", args)
    }

    fn sir_data_decl() -> (r: std::option::Option<DataDecl>)
        ensures
            r matches std::option::Option::Some(d) && decl_of(d) == struct_decl_spec(
                "scalus.cardano.onchain.plutus.v1.ScriptContext"@,
                seq![
                    ("tx_info"@, <TxInfo as HasSIRType>::sir_type_spec()),
                    ("purpose"@, <ScriptPurpose as HasSIRType>::sir_type_spec()),
                ],
                0,
                std::option::Option::None,
            ),
    {
        let mut fields: Vec<TypeBinding> = Vec::new();
        fields.push(binding("tx_info", <TxInfo as HasSIRType>::sir_type()));
        fields.push(binding("purpose", <ScriptPurpose as HasSIRType>::sir_type()));
        assert(params_of(fields@) =~= seq![
            ("tx_info"@, <TxInfo as HasSIRType>::sir_type_spec()),
            ("purpose"@, <ScriptPurpose as HasSIRType>::sir_type_spec()),
        ]);
        std::option::Option::Some(struct_data_decl("scalus.cardano.onchain.plutus.v1.ScriptContext", fields, 0, std::option::Option::None))
    }
}

impl OnchainPartialEq for ScriptContext {
    open spec fn sir_eq_spec() -> SirM {
        <Data as OnchainPartialEq>::sir_eq_spec()
    }

    fn sir_eq() -> (r: SIR) {
        <Data as OnchainPartialEq>::sir_eq()
    }
}

// ---------------------------------------------------------------------------
// Decoding
// ---------------------------------------------------------------------------

impl FromData for Value {
    open spec fn decodable(d: DataM) -> bool {
        true
    }

    open spec fn decodes_to(d: DataM, v: Value) -> bool {
        d == v.inner@
    }

    open spec fn decode_error(d: DataM) -> DataError {
        DataError::UnexpectedVariant { expected: "Data" }
    }

    fn from_data(data: &Data) -> (r: Result<Value, DataError>) {
        Ok(Value { inner: data.duplicate() })
    }

    proof fn law_roundtrip(v: Value, w: Value) {
    }
}

impl FromData for PubKeyHash {
    open spec fn decodable(d: DataM) -> bool {
        <Hash as FromData>::decodable(d)
    }

    open spec fn decodes_to(d: DataM, v: PubKeyHash) -> bool {
        <Hash as FromData>::decodes_to(d, v.hash@)
    }

    open spec fn decode_error(d: DataM) -> DataError {
        <Hash as FromData>::decode_error(d)
    }

    fn from_data(data: &Data) -> (r: Result<PubKeyHash, DataError>) {
        match <Hash as FromData>::from_data(data) {
            Ok(hash) => Ok(PubKeyHash { hash }),
            Err(e) => Err(e),
        }
    }

    proof fn law_roundtrip(v: PubKeyHash, w: PubKeyHash) {
        <Hash as FromData>::law_roundtrip(v.hash@, w.hash@);
    }
}

impl FromData for TxId {
    open spec fn decodable(d: DataM) -> bool {
        d matches DataM::Constr(tag, args) && tag == 0 && args.len() >= 1
            && <Hash as FromData>::decodable(args[0])
    }

    open spec fn decodes_to(d: DataM, v: TxId) -> bool {
        d matches DataM::Constr(tag, args) && tag == 0 && args.len() >= 1
            && <Hash as FromData>::decodes_to(args[0], v.hash@)
    }

    open spec fn decode_error(d: DataM) -> DataError {
        match d {
            DataM::Constr(tag, args) => if tag != 0 {
                DataError::UnexpectedTag { expected: "TxId", got: tag }
            } else {
                if args.len() == 0 {
                    DataError::MissingField { index: 0 }
                } else {
                    <Hash as FromData>::decode_error(args[0])
                }
            },
            _ => DataError::UnexpectedVariant { expected: "Constr" },
        }
    }

    fn from_data(data: &Data) -> (r: Result<TxId, DataError>) {
        match data {
            Data::Constr { tag, args } => {
                proof {
                    lemma_datas_of(args@);
                }
                if *tag != 0 {
                    return Err(DataError::UnexpectedTag { expected: "TxId", got: *tag });
                }
                if args.len() == 0 {
                    return Err(DataError::MissingField { index: 0 });
                }
                let hash = match <Hash as FromData>::from_data(&args[0]) {
                    Ok(x) => x,
                    Err(e) => {
                        return Err(e);
                    },
                };
                Ok(TxId { hash })
            },
            _ => Err(DataError::UnexpectedVariant { expected: "Constr" }),
        }
    }

    proof fn law_roundtrip(v: TxId, w: TxId) {
        <Hash as FromData>::law_roundtrip(v.hash@, w.hash@);
    }
}

impl FromData for TxOutRef {
    open spec fn decodable(d: DataM) -> bool {
        d matches DataM::Constr(tag, args) && tag == 0 && args.len() >= 2
            && <TxId as FromData>::decodable(args[0])
            && <Integer as FromData>::decodable(args[1])
    }

    open spec fn decodes_to(d: DataM, v: TxOutRef) -> bool {
        d matches DataM::Constr(tag, args) && tag == 0 && args.len() >= 2
            && <TxId as FromData>::decodes_to(args[0], v.id@)
            && <Integer as FromData>::decodes_to(args[1], v.idx@)
    }

    open spec fn decode_error(d: DataM) -> DataError {
        match d {
            DataM::Constr(tag, args) => if tag != 0 {
                DataError::UnexpectedTag { expected: "TxOutRef", got: tag }
            } else {
                if args.len() == 0 {
                    DataError::MissingField { index: 0 }
                } else if !<TxId as FromData>::decodable(args[0]) {
                    <TxId as FromData>::decode_error(args[0])
                } else if args.len() == 1 {
                    DataError::MissingField { index: 1 }
                } else {
                    <Integer as FromData>::decode_error(args[1])
                }
            },
            _ => DataError::UnexpectedVariant { expected: "Constr" },
        }
    }

    fn from_data(data: &Data) -> (r: Result<TxOutRef, DataError>) {
        match data {
            Data::Constr { tag, args } => {
                proof {
                    lemma_datas_of(args@);
                }
                if *tag != 0 {
                    return Err(DataError::UnexpectedTag { expected: "TxOutRef", got: *tag });
                }
                if args.len() == 0 {
                    return Err(DataError::MissingField { index: 0 });
                }
                let id = match <TxId as FromData>::from_data(&args[0]) {
                    Ok(x) => x,
                    Err(e) => {
                        return Err(e);
                    },
                };
                if args.len() <= 1 {
                    return Err(DataError::MissingField { index: 1 });
                }
                let idx = match <Integer as FromData>::from_data(&args[1]) {
                    Ok(x) => x,
                    Err(e) => {
                        return Err(e);
                    },
                };
                Ok(TxOutRef { id, idx })
            },
            _ => Err(DataError::UnexpectedVariant { expected: "Constr" }),
        }
    }

    proof fn law_roundtrip(v: TxOutRef, w: TxOutRef) {
        <TxId as FromData>::law_roundtrip(v.id@, w.id@);
        <Integer as FromData>::law_roundtrip(v.idx@, w.idx@);
    }
}

impl FromData for Credential {
    open spec fn decodable(d: DataM) -> bool {
        match d {
            DataM::Constr(tag, args) => (tag == 0 && args.len() >= 1 && <PubKeyHash as FromData>::decodable(args[0]))
                || (tag == 1 && args.len() >= 1 && <Hash as FromData>::decodable(args[0])),
            _ => false,
        }
    }

    open spec fn decodes_to(d: DataM, v: Credential) -> bool {
        match v {
            Credential::PubKeyCredential { hash } => d matches DataM::Constr(tag, args)
                && tag == 0
                && args.len() >= 1
                && <PubKeyHash as FromData>::decodes_to(args[0], hash@),
            Credential::ScriptCredential { hash } => d matches DataM::Constr(tag, args)
                && tag == 1
                && args.len() >= 1
                && <Hash as FromData>::decodes_to(args[0], hash@),
        }
    }

    open spec fn decode_error(d: DataM) -> DataError {
        match d {
            DataM::Constr(tag, args) => if tag == 0 {
                if args.len() == 0 {
                    DataError::MissingField { index: 0 }
                } else {
                    <PubKeyHash as FromData>::decode_error(args[0])
                }
            } else if tag == 1 {
                if args.len() == 0 {
                    DataError::MissingField { index: 0 }
                } else {
                    <Hash as FromData>::decode_error(args[0])
                }
            } else {
                DataError::UnexpectedTag { expected: "Credential", got: tag }
            },
            _ => DataError::UnexpectedVariant { expected: "Constr" },
        }
    }

    fn from_data(data: &Data) -> (r: Result<Credential, DataError>) {
        match data {
            Data::Constr { tag, args } => {
                proof {
                    lemma_datas_of(args@);
                }
                if *tag == 0 {
                    if args.len() == 0 {
                        return Err(DataError::MissingField { index: 0 });
                    }
                    let hash = match <PubKeyHash as FromData>::from_data(&args[0]) {
                        Ok(x) => x,
                        Err(e) => {
                            return Err(e);
                        },
                    };
                    Ok(Credential::PubKeyCredential { hash })
                } else if *tag == 1 {
                    if args.len() == 0 {
                        return Err(DataError::MissingField { index: 0 });
                    }
                    let hash = match <Hash as FromData>::from_data(&args[0]) {
                        Ok(x) => x,
                        Err(e) => {
                            return Err(e);
                        },
                    };
                    Ok(Credential::ScriptCredential { hash })
                } else {
                    Err(DataError::UnexpectedTag { expected: "Credential", got: *tag })
                }
            },
            _ => Err(DataError::UnexpectedVariant { expected: "Constr" }),
        }
    }

    proof fn law_roundtrip(v: Credential, w: Credential) {
        match v {
            Credential::PubKeyCredential { hash } => {
                <PubKeyHash as FromData>::law_roundtrip(hash@, hash@);
                if let Credential::PubKeyCredential { hash: w_hash } = w {
                    <PubKeyHash as FromData>::law_roundtrip(hash@, w_hash@);
                }
            },
            Credential::ScriptCredential { hash } => {
                <Hash as FromData>::law_roundtrip(hash@, hash@);
                if let Credential::ScriptCredential { hash: w_hash } = w {
                    <Hash as FromData>::law_roundtrip(hash@, w_hash@);
                }
            },
        }
    }
}

impl FromData for StakingCredential {
    open spec fn decodable(d: DataM) -> bool {
        match d {
            DataM::Constr(tag, args) => (tag == 0 && args.len() >= 1 && <Credential as FromData>::decodable(args[0]))
                || (tag == 1 && args.len() >= 3 && <Integer as FromData>::decodable(args[0]) && <Integer as FromData>::decodable(args[1]) && <Integer as FromData>::decodable(args[2])),
            _ => false,
        }
    }

    open spec fn decodes_to(d: DataM, v: StakingCredential) -> bool {
        match v {
            StakingCredential::StakingHash { credential } => d matches DataM::Constr(tag, args)
                && tag == 0
                && args.len() >= 1
                && <Credential as FromData>::decodes_to(args[0], credential@),
            StakingCredential::StakingPtr { slot, tx_ix, cert_ix } => d matches DataM::Constr(tag, args)
                && tag == 1
                && args.len() >= 3
                && <Integer as FromData>::decodes_to(args[0], slot@)
                && <Integer as FromData>::decodes_to(args[1], tx_ix@)
                && <Integer as FromData>::decodes_to(args[2], cert_ix@),
        }
    }

    open spec fn decode_error(d: DataM) -> DataError {
        match d {
            DataM::Constr(tag, args) => if tag == 0 {
                if args.len() == 0 {
                    DataError::MissingField { index: 0 }
                } else {
                    <Credential as FromData>::decode_error(args[0])
                }
            } else if tag == 1 {
                if args.len() == 0 {
                    DataError::MissingField { index: 0 }
                } else if !<Integer as FromData>::decodable(args[0]) {
                    <Integer as FromData>::decode_error(args[0])
                } else if args.len() == 1 {
                    DataError::MissingField { index: 1 }
                } else if !<Integer as FromData>::decodable(args[1]) {
                    <Integer as FromData>::decode_error(args[1])
                } else if args.len() == 2 {
                    DataError::MissingField { index: 2 }
                } else {
                    <Integer as FromData>::decode_error(args[2])
                }
            } else {
                DataError::UnexpectedTag { expected: "StakingCredential", got: tag }
            },
            _ => DataError::UnexpectedVariant { expected: "Constr" },
        }
    }

    fn from_data(data: &Data) -> (r: Result<StakingCredential, DataError>) {
        match data {
            Data::Constr { tag, args } => {
                proof {
                    lemma_datas_of(args@);
                }
                if *tag == 0 {
                    if args.len() == 0 {
                        return Err(DataError::MissingField { index: 0 });
                    }
                    let credential = match <Credential as FromData>::from_data(&args[0]) {
                        Ok(x) => x,
                        Err(e) => {
                            return Err(e);
                        },
                    };
                    Ok(StakingCredential::StakingHash { credential })
                } else if *tag == 1 {
                    if args.len() == 0 {
                        return Err(DataError::MissingField { index: 0 });
                    }
                    let slot = match <Integer as FromData>::from_data(&args[0]) {
                        Ok(x) => x,
                        Err(e) => {
                            return Err(e);
                        },
                    };
                    if args.len() <= 1 {
                        return Err(DataError::MissingField { index: 1 });
                    }
                    let tx_ix = match <Integer as FromData>::from_data(&args[1]) {
                        Ok(x) => x,
                        Err(e) => {
                            return Err(e);
                        },
                    };
                    if args.len() <= 2 {
                        return Err(DataError::MissingField { index: 2 });
                    }
                    let cert_ix = match <Integer as FromData>::from_data(&args[2]) {
                        Ok(x) => x,
                        Err(e) => {
                            return Err(e);
                        },
                    };
                    Ok(StakingCredential::StakingPtr { slot, tx_ix, cert_ix })
                } else {
                    Err(DataError::UnexpectedTag { expected: "StakingCredential", got: *tag })
                }
            },
            _ => Err(DataError::UnexpectedVariant { expected: "Constr" }),
        }
    }

    proof fn law_roundtrip(v: StakingCredential, w: StakingCredential) {
        match v {
            StakingCredential::StakingHash { credential } => {
                <Credential as FromData>::law_roundtrip(credential@, credential@);
                if let StakingCredential::StakingHash { credential: w_credential } = w {
                    <Credential as FromData>::law_roundtrip(credential@, w_credential@);
                }
            },
            StakingCredential::StakingPtr { slot, tx_ix, cert_ix } => {
                <Integer as FromData>::law_roundtrip(slot@, slot@);
                <Integer as FromData>::law_roundtrip(tx_ix@, tx_ix@);
                <Integer as FromData>::law_roundtrip(cert_ix@, cert_ix@);
                if let StakingCredential::StakingPtr { slot: w_slot, tx_ix: w_tx_ix, cert_ix: w_cert_ix } = w {
                    <Integer as FromData>::law_roundtrip(slot@, w_slot@);
                    <Integer as FromData>::law_roundtrip(tx_ix@, w_tx_ix@);
                    <Integer as FromData>::law_roundtrip(cert_ix@, w_cert_ix@);
                }
            },
        }
    }
}

impl FromData for Address {
    open spec fn decodable(d: DataM) -> bool {
        d matches DataM::Constr(tag, args) && tag == 0 && args.len() >= 2
            && <Credential as FromData>::decodable(args[0])
            && <Option<StakingCredential> as FromData>::decodable(args[1])
    }

    open spec fn decodes_to(d: DataM, v: Address) -> bool {
        d matches DataM::Constr(tag, args) && tag == 0 && args.len() >= 2
            && <Credential as FromData>::decodes_to(args[0], v.credential@)
            && <Option<StakingCredential> as FromData>::decodes_to(args[1], v.staking_credential@)
    }

    open spec fn decode_error(d: DataM) -> DataError {
        match d {
            DataM::Constr(tag, args) => if tag != 0 {
                DataError::UnexpectedTag { expected: "Address", got: tag }
            } else {
                if args.len() == 0 {
                    DataError::MissingField { index: 0 }
                } else if !<Credential as FromData>::decodable(args[0]) {
                    <Credential as FromData>::decode_error(args[0])
                } else if args.len() == 1 {
                    DataError::MissingField { index: 1 }
                } else {
                    <Option<StakingCredential> as FromData>::decode_error(args[1])
                }
            },
            _ => DataError::UnexpectedVariant { expected: "Constr" },
        }
    }

    fn from_data(data: &Data) -> (r: Result<Address, DataError>) {
        match data {
            Data::Constr { tag, args } => {
                proof {
                    lemma_datas_of(args@);
                }
                if *tag != 0 {
                    return Err(DataError::UnexpectedTag { expected: "Address", got: *tag });
                }
                if args.len() == 0 {
                    return Err(DataError::MissingField { index: 0 });
                }
                let credential = match <Credential as FromData>::from_data(&args[0]) {
                    Ok(x) => x,
                    Err(e) => {
                        return Err(e);
                    },
                };
                if args.len() <= 1 {
                    return Err(DataError::MissingField { index: 1 });
                }
                let staking_credential = match <Option<StakingCredential> as FromData>::from_data(&args[1]) {
                    Ok(x) => x,
                    Err(e) => {
                        return Err(e);
                    },
                };
                Ok(Address { credential, staking_credential })
            },
            _ => Err(DataError::UnexpectedVariant { expected: "Constr" }),
        }
    }

    proof fn law_roundtrip(v: Address, w: Address) {
        <Credential as FromData>::law_roundtrip(v.credential@, w.credential@);
        <Option<StakingCredential> as FromData>::law_roundtrip(v.staking_credential@, w.staking_credential@);
    }
}

impl FromData for TxOut {
    open spec fn decodable(d: DataM) -> bool {
        d matches DataM::Constr(tag, args) && tag == 0 && args.len() >= 3
            && <Address as FromData>::decodable(args[0])
            && <Value as FromData>::decodable(args[1])
            && <Option<DatumHash> as FromData>::decodable(args[2])
    }

    open spec fn decodes_to(d: DataM, v: TxOut) -> bool {
        d matches DataM::Constr(tag, args) && tag == 0 && args.len() >= 3
            && <Address as FromData>::decodes_to(args[0], v.address@)
            && <Value as FromData>::decodes_to(args[1], v.value@)
            && <Option<DatumHash> as FromData>::decodes_to(args[2], v.datum_hash@)
    }

    open spec fn decode_error(d: DataM) -> DataError {
        match d {
            DataM::Constr(tag, args) => if tag != 0 {
                DataError::UnexpectedTag { expected: "TxOut", got: tag }
            } else {
                if args.len() == 0 {
                    DataError::MissingField { index: 0 }
                } else if !<Address as FromData>::decodable(args[0]) {
                    <Address as FromData>::decode_error(args[0])
                } else if args.len() == 1 {
                    DataError::MissingField { index: 1 }
                } else if !<Value as FromData>::decodable(args[1]) {
                    <Value as FromData>::decode_error(args[1])
                } else if args.len() == 2 {
                    DataError::MissingField { index: 2 }
                } else {
                    <Option<DatumHash> as FromData>::decode_error(args[2])
                }
            },
            _ => DataError::UnexpectedVariant { expected: "Constr" },
        }
    }

    fn from_data(data: &Data) -> (r: Result<TxOut, DataError>) {
        match data {
            Data::Constr { tag, args } => {
                proof {
                    lemma_datas_of(args@);
                }
                if *tag != 0 {
                    return Err(DataError::UnexpectedTag { expected: "TxOut", got: *tag });
                }
                if args.len() == 0 {
                    return Err(DataError::MissingField { index: 0 });
                }
                let address = match <Address as FromData>::from_data(&args[0]) {
                    Ok(x) => x,
                    Err(e) => {
                        return Err(e);
                    },
                };
                if args.len() <= 1 {
                    return Err(DataError::MissingField { index: 1 });
                }
                let value = match <Value as FromData>::from_data(&args[1]) {
                    Ok(x) => x,
                    Err(e) => {
                        return Err(e);
                    },
                };
                if args.len() <= 2 {
                    return Err(DataError::MissingField { index: 2 });
                }
                let datum_hash = match <Option<DatumHash> as FromData>::from_data(&args[2]) {
                    Ok(x) => x,
                    Err(e) => {
                        return Err(e);
                    },
                };
                Ok(TxOut { address, value, datum_hash })
            },
            _ => Err(DataError::UnexpectedVariant { expected: "Constr" }),
        }
    }

    proof fn law_roundtrip(v: TxOut, w: TxOut) {
        <Address as FromData>::law_roundtrip(v.address@, w.address@);
        <Value as FromData>::law_roundtrip(v.value@, w.value@);
        <Option<DatumHash> as FromData>::law_roundtrip(v.datum_hash@, w.datum_hash@);
    }
}

impl FromData for TxInInfo {
    open spec fn decodable(d: DataM) -> bool {
        d matches DataM::Constr(tag, args) && tag == 0 && args.len() >= 2
            && <TxOutRef as FromData>::decodable(args[0])
            && <TxOut as FromData>::decodable(args[1])
    }

    open spec fn decodes_to(d: DataM, v: TxInInfo) -> bool {
        d matches DataM::Constr(tag, args) && tag == 0 && args.len() >= 2
            && <TxOutRef as FromData>::decodes_to(args[0], v.out_ref@)
            && <TxOut as FromData>::decodes_to(args[1], v.resolved@)
    }

    open spec fn decode_error(d: DataM) -> DataError {
        match d {
            DataM::Constr(tag, args) => if tag != 0 {
                DataError::UnexpectedTag { expected: "TxInInfo", got: tag }
            } else {
                if args.len() == 0 {
                    DataError::MissingField { index: 0 }
                } else if !<TxOutRef as FromData>::decodable(args[0]) {
                    <TxOutRef as FromData>::decode_error(args[0])
                } else if args.len() == 1 {
                    DataError::MissingField { index: 1 }
                } else {
                    <TxOut as FromData>::decode_error(args[1])
                }
            },
            _ => DataError::UnexpectedVariant { expected: "Constr" },
        }
    }

    fn from_data(data: &Data) -> (r: Result<TxInInfo, DataError>) {
        match data {
            Data::Constr { tag, args } => {
                proof {
                    lemma_datas_of(args@);
                }
                if *tag != 0 {
                    return Err(DataError::UnexpectedTag { expected: "TxInInfo", got: *tag });
                }
                if args.len() == 0 {
                    return Err(DataError::MissingField { index: 0 });
                }
                let out_ref = match <TxOutRef as FromData>::from_data(&args[0]) {
                    Ok(x) => x,
                    Err(e) => {
                        return Err(e);
                    },
                };
                if args.len() <= 1 {
                    return Err(DataError::MissingField { index: 1 });
                }
                let resolved = match <TxOut as FromData>::from_data(&args[1]) {
                    Ok(x) => x,
                    Err(e) => {
                        return Err(e);
                    },
                };
                Ok(TxInInfo { out_ref, resolved })
            },
            _ => Err(DataError::UnexpectedVariant { expected: "Constr" }),
        }
    }

    proof fn law_roundtrip(v: TxInInfo, w: TxInInfo) {
        <TxOutRef as FromData>::law_roundtrip(v.out_ref@, w.out_ref@);
        <TxOut as FromData>::law_roundtrip(v.resolved@, w.resolved@);
    }
}

impl FromData for ScriptPurpose {
    open spec fn decodable(d: DataM) -> bool {
        match d {
            DataM::Constr(tag, args) => (tag == 0 && args.len() >= 1 && <PolicyId as FromData>::decodable(args[0]))
                || (tag == 1 && args.len() >= 1 && <TxOutRef as FromData>::decodable(args[0]))
                || (tag == 2 && args.len() >= 1 && <StakingCredential as FromData>::decodable(args[0]))
                || (tag == 3 && args.len() >= 1 && <Datum as FromData>::decodable(args[0])),
            _ => false,
        }
    }

    open spec fn decodes_to(d: DataM, v: ScriptPurpose) -> bool {
        match v {
            ScriptPurpose::Minting { policy_id } => d matches DataM::Constr(tag, args)
                && tag == 0
                && args.len() >= 1
                && <PolicyId as FromData>::decodes_to(args[0], policy_id@),
            ScriptPurpose::Spending { tx_out_ref } => d matches DataM::Constr(tag, args)
                && tag == 1
                && args.len() >= 1
                && <TxOutRef as FromData>::decodes_to(args[0], tx_out_ref@),
            ScriptPurpose::Rewarding { staking_credential } => d matches DataM::Constr(tag, args)
                && tag == 2
                && args.len() >= 1
                && <StakingCredential as FromData>::decodes_to(args[0], staking_credential@),
            ScriptPurpose::Certifying { dcert } => d matches DataM::Constr(tag, args)
                && tag == 3
                && args.len() >= 1
                && <Datum as FromData>::decodes_to(args[0], dcert@),
        }
    }

    open spec fn decode_error(d: DataM) -> DataError {
        match d {
            DataM::Constr(tag, args) => if tag == 0 {
                if args.len() == 0 {
                    DataError::MissingField { index: 0 }
                } else {
                    <PolicyId as FromData>::decode_error(args[0])
                }
            } else if tag == 1 {
                if args.len() == 0 {
                    DataError::MissingField { index: 0 }
                } else {
                    <TxOutRef as FromData>::decode_error(args[0])
                }
            } else if tag == 2 {
                if args.len() == 0 {
                    DataError::MissingField { index: 0 }
                } else {
                    <StakingCredential as FromData>::decode_error(args[0])
                }
            } else if tag == 3 {
                if args.len() == 0 {
                    DataError::MissingField { index: 0 }
                } else {
                    <Datum as FromData>::decode_error(args[0])
                }
            } else {
                DataError::UnexpectedTag { expected: "ScriptPurpose", got: tag }
            },
            _ => DataError::UnexpectedVariant { expected: "Constr" },
        }
    }

    fn from_data(data: &Data) -> (r: Result<ScriptPurpose, DataError>) {
        match data {
            Data::Constr { tag, args } => {
                proof {
                    lemma_datas_of(args@);
                }
                if *tag == 0 {
                    if args.len() == 0 {
                        return Err(DataError::MissingField { index: 0 });
                    }
                    let policy_id = match <PolicyId as FromData>::from_data(&args[0]) {
                        Ok(x) => x,
                        Err(e) => {
                            return Err(e);
                        },
                    };
                    Ok(ScriptPurpose::Minting { policy_id })
                } else if *tag == 1 {
                    if args.len() == 0 {
                        return Err(DataError::MissingField { index: 0 });
                    }
                    let tx_out_ref = match <TxOutRef as FromData>::from_data(&args[0]) {
                        Ok(x) => x,
                        Err(e) => {
                            return Err(e);
                        },
                    };
                    Ok(ScriptPurpose::Spending { tx_out_ref })
                } else if *tag == 2 {
                    if args.len() == 0 {
                        return Err(DataError::MissingField { index: 0 });
                    }
                    let staking_credential = match <StakingCredential as FromData>::from_data(&args[0]) {
                        Ok(x) => x,
                        Err(e) => {
                            return Err(e);
                        },
                    };
                    Ok(ScriptPurpose::Rewarding { staking_credential })
                } else if *tag == 3 {
                    if args.len() == 0 {
                        return Err(DataError::MissingField { index: 0 });
                    }
                    let dcert = match <Datum as FromData>::from_data(&args[0]) {
                        Ok(x) => x,
                        Err(e) => {
                            return Err(e);
                        },
                    };
                    Ok(ScriptPurpose::Certifying { dcert })
                } else {
                    Err(DataError::UnexpectedTag { expected: "ScriptPurpose", got: *tag })
                }
            },
            _ => Err(DataError::UnexpectedVariant { expected: "Constr" }),
        }
    }

    proof fn law_roundtrip(v: ScriptPurpose, w: ScriptPurpose) {
        match v {
            ScriptPurpose::Minting { policy_id } => {
                <PolicyId as FromData>::law_roundtrip(policy_id@, policy_id@);
                if let ScriptPurpose::Minting { policy_id: w_policy_id } = w {
                    <PolicyId as FromData>::law_roundtrip(policy_id@, w_policy_id@);
                }
            },
            ScriptPurpose::Spending { tx_out_ref } => {
                <TxOutRef as FromData>::law_roundtrip(tx_out_ref@, tx_out_ref@);
                if let ScriptPurpose::Spending { tx_out_ref: w_tx_out_ref } = w {
                    <TxOutRef as FromData>::law_roundtrip(tx_out_ref@, w_tx_out_ref@);
                }
            },
            ScriptPurpose::Rewarding { staking_credential } => {
                <StakingCredential as FromData>::law_roundtrip(staking_credential@, staking_credential@);
                if let ScriptPurpose::Rewarding { staking_credential: w_staking_credential } = w {
                    <StakingCredential as FromData>::law_roundtrip(staking_credential@, w_staking_credential@);
                }
            },
            ScriptPurpose::Certifying { dcert } => {
                <Datum as FromData>::law_roundtrip(dcert@, dcert@);
                if let ScriptPurpose::Certifying { dcert: w_dcert } = w {
                    <Datum as FromData>::law_roundtrip(dcert@, w_dcert@);
                }
            },
        }
    }
}

impl FromData for TxInfo {
    open spec fn decodable(d: DataM) -> bool {
        d matches DataM::Constr(tag, args) && tag == 0 && args.len() >= 10
            && <List<TxInInfo> as FromData>::decodable(args[0])
            && <List<TxOut> as FromData>::decodable(args[1])
            && <Value as FromData>::decodable(args[2])
            && <Value as FromData>::decodable(args[3])
            && <List<Datum> as FromData>::decodable(args[4])
            && <List<Datum> as FromData>::decodable(args[5])
            && <Datum as FromData>::decodable(args[6])
            && <List<Datum> as FromData>::decodable(args[7])
            && <List<Datum> as FromData>::decodable(args[8])
            && <TxId as FromData>::decodable(args[9])
    }

    open spec fn decodes_to(d: DataM, v: TxInfo) -> bool {
        d matches DataM::Constr(tag, args) && tag == 0 && args.len() >= 10
            && <List<TxInInfo> as FromData>::decodes_to(args[0], v.inputs@)
            && <List<TxOut> as FromData>::decodes_to(args[1], v.outputs@)
            && <Value as FromData>::decodes_to(args[2], v.fee@)
            && <Value as FromData>::decodes_to(args[3], v.mint@)
            && <List<Datum> as FromData>::decodes_to(args[4], v.dcert@)
            && <List<Datum> as FromData>::decodes_to(args[5], v.withdrawals@)
            && <Datum as FromData>::decodes_to(args[6], v.valid_range@)
            && <List<Datum> as FromData>::decodes_to(args[7], v.signatories@)
            && <List<Datum> as FromData>::decodes_to(args[8], v.data@)
            && <TxId as FromData>::decodes_to(args[9], v.id@)
    }

    open spec fn decode_error(d: DataM) -> DataError {
        match d {
            DataM::Constr(tag, args) => if tag != 0 {
                DataError::UnexpectedTag { expected: "TxInfo", got: tag }
            } else {
                if args.len() == 0 {
                    DataError::MissingField { index: 0 }
                } else if !<List<TxInInfo> as FromData>::decodable(args[0]) {
                    <List<TxInInfo> as FromData>::decode_error(args[0])
                } else if args.len() == 1 {
                    DataError::MissingField { index: 1 }
                } else if !<List<TxOut> as FromData>::decodable(args[1]) {
                    <List<TxOut> as FromData>::decode_error(args[1])
                } else if args.len() == 2 {
                    DataError::MissingField { index: 2 }
                } else if !<Value as FromData>::decodable(args[2]) {
                    <Value as FromData>::decode_error(args[2])
                } else if args.len() == 3 {
                    DataError::MissingField { index: 3 }
                } else if !<Value as FromData>::decodable(args[3]) {
                    <Value as FromData>::decode_error(args[3])
                } else if args.len() == 4 {
                    DataError::MissingField { index: 4 }
                } else if !<List<Datum> as FromData>::decodable(args[4]) {
                    <List<Datum> as FromData>::decode_error(args[4])
                } else if args.len() == 5 {
                    DataError::MissingField { index: 5 }
                } else if !<List<Datum> as FromData>::decodable(args[5]) {
                    <List<Datum> as FromData>::decode_error(args[5])
                } else if args.len() == 6 {
                    DataError::MissingField { index: 6 }
                } else if !<Datum as FromData>::decodable(args[6]) {
                    <Datum as FromData>::decode_error(args[6])
                } else if args.len() == 7 {
                    DataError::MissingField { index: 7 }
                } else if !<List<Datum> as FromData>::decodable(args[7]) {
                    <List<Datum> as FromData>::decode_error(args[7])
                } else if args.len() == 8 {
                    DataError::MissingField { index: 8 }
                } else if !<List<Datum> as FromData>::decodable(args[8]) {
                    <List<Datum> as FromData>::decode_error(args[8])
                } else if args.len() == 9 {
                    DataError::MissingField { index: 9 }
                } else {
                    <TxId as FromData>::decode_error(args[9])
                }
            },
            _ => DataError::UnexpectedVariant { expected: "Constr" },
        }
    }

    fn from_data(data: &Data) -> (r: Result<TxInfo, DataError>) {
        match data {
            Data::Constr { tag, args } => {
                proof {
                    lemma_datas_of(args@);
                }
                if *tag != 0 {
                    return Err(DataError::UnexpectedTag { expected: "TxInfo", got: *tag });
                }
                if args.len() == 0 {
                    return Err(DataError::MissingField { index: 0 });
                }
                let inputs = match <List<TxInInfo> as FromData>::from_data(&args[0]) {
                    Ok(x) => x,
                    Err(e) => {
                        return Err(e);
                    },
                };
                if args.len() <= 1 {
                    return Err(DataError::MissingField { index: 1 });
                }
                let outputs = match <List<TxOut> as FromData>::from_data(&args[1]) {
                    Ok(x) => x,
                    Err(e) => {
                        return Err(e);
                    },
                };
                if args.len() <= 2 {
                    return Err(DataError::MissingField { index: 2 });
                }
                let fee = match <Value as FromData>::from_data(&args[2]) {
                    Ok(x) => x,
                    Err(e) => {
                        return Err(e);
                    },
                };
                if args.len() <= 3 {
                    return Err(DataError::MissingField { index: 3 });
                }
                let mint = match <Value as FromData>::from_data(&args[3]) {
                    Ok(x) => x,
                    Err(e) => {
                        return Err(e);
                    },
                };
                if args.len() <= 4 {
                    return Err(DataError::MissingField { index: 4 });
                }
                let dcert = match <List<Datum> as FromData>::from_data(&args[4]) {
                    Ok(x) => x,
                    Err(e) => {
                        return Err(e);
                    },
                };
                if args.len() <= 5 {
                    return Err(DataError::MissingField { index: 5 });
                }
                let withdrawals = match <List<Datum> as FromData>::from_data(&args[5]) {
                    Ok(x) => x,
                    Err(e) => {
                        return Err(e);
                    },
                };
                if args.len() <= 6 {
                    return Err(DataError::MissingField { index: 6 });
                }
                let valid_range = match <Datum as FromData>::from_data(&args[6]) {
                    Ok(x) => x,
                    Err(e) => {
                        return Err(e);
                    },
                };
                if args.len() <= 7 {
                    return Err(DataError::MissingField { index: 7 });
                }
                let signatories = match <List<Datum> as FromData>::from_data(&args[7]) {
                    Ok(x) => x,
                    Err(e) => {
                        return Err(e);
                    },
                };
                if args.len() <= 8 {
                    return Err(DataError::MissingField { index: 8 });
                }
                let data = match <List<Datum> as FromData>::from_data(&args[8]) {
                    Ok(x) => x,
                    Err(e) => {
                        return Err(e);
                    },
                };
                if args.len() <= 9 {
                    return Err(DataError::MissingField { index: 9 });
                }
                let id = match <TxId as FromData>::from_data(&args[9]) {
                    Ok(x) => x,
                    Err(e) => {
                        return Err(e);
                    },
                };
                Ok(TxInfo { inputs, outputs, fee, mint, dcert, withdrawals, valid_range, signatories, data, id })
            },
            _ => Err(DataError::UnexpectedVariant { expected: "Constr" }),
        }
    }

    proof fn law_roundtrip(v: TxInfo, w: TxInfo) {
        <List<TxInInfo> as FromData>::law_roundtrip(v.inputs@, w.inputs@);
        <List<TxOut> as FromData>::law_roundtrip(v.outputs@, w.outputs@);
        <Value as FromData>::law_roundtrip(v.fee@, w.fee@);
        <Value as FromData>::law_roundtrip(v.mint@, w.mint@);
        <List<Datum> as FromData>::law_roundtrip(v.dcert@, w.dcert@);
        <List<Datum> as FromData>::law_roundtrip(v.withdrawals@, w.withdrawals@);
        <Datum as FromData>::law_roundtrip(v.valid_range@, w.valid_range@);
        <List<Datum> as FromData>::law_roundtrip(v.signatories@, w.signatories@);
        <List<Datum> as FromData>::law_roundtrip(v.data@, w.data@);
        <TxId as FromData>::law_roundtrip(v.id@, w.id@);
    }
}

impl FromData for ScriptContext {
    open spec fn decodable(d: DataM) -> bool {
        d matches DataM::Constr(tag, args) && tag == 0 && args.len() >= 2
            && <TxInfo as FromData>::decodable(args[0])
            && <ScriptPurpose as FromData>::decodable(args[1])
    }

    open spec fn decodes_to(d: DataM, v: ScriptContext) -> bool {
        d matches DataM::Constr(tag, args) && tag == 0 && args.len() >= 2
            && <TxInfo as FromData>::decodes_to(args[0], v.tx_info@)
            && <ScriptPurpose as FromData>::decodes_to(args[1], v.purpose@)
    }

    open spec fn decode_error(d: DataM) -> DataError {
        match d {
            DataM::Constr(tag, args) => if tag != 0 {
                DataError::UnexpectedTag { expected: "ScriptContext", got: tag }
            } else {
                if args.len() == 0 {
                    DataError::MissingField { index: 0 }
                } else if !<TxInfo as FromData>::decodable(args[0]) {
                    <TxInfo as FromData>::decode_error(args[0])
                } else if args.len() == 1 {
                    DataError::MissingField { index: 1 }
                } else {
                    <ScriptPurpose as FromData>::decode_error(args[1])
                }
            },
            _ => DataError::UnexpectedVariant { expected: "Constr" },
        }
    }

    fn from_data(data: &Data) -> (r: Result<ScriptContext, DataError>) {
        match data {
            Data::Constr { tag, args } => {
                proof {
                    lemma_datas_of(args@);
                }
                if *tag != 0 {
                    return Err(DataError::UnexpectedTag { expected: "ScriptContext", got: *tag });
                }
                if args.len() == 0 {
                    return Err(DataError::MissingField { index: 0 });
                }
                let tx_info = match <TxInfo as FromData>::from_data(&args[0]) {
                    Ok(x) => x,
                    Err(e) => {
                        return Err(e);
                    },
                };
                if args.len() <= 1 {
                    return Err(DataError::MissingField { index: 1 });
                }
                let purpose = match <ScriptPurpose as FromData>::from_data(&args[1]) {
                    Ok(x) => x,
                    Err(e) => {
                        return Err(e);
                    },
                };
                Ok(ScriptContext { tx_info, purpose })
            },
            _ => Err(DataError::UnexpectedVariant { expected: "Constr" }),
        }
    }

    proof fn law_roundtrip(v: ScriptContext, w: ScriptContext) {
        <TxInfo as FromData>::law_roundtrip(v.tx_info@, w.tx_info@);
        <ScriptPurpose as FromData>::law_roundtrip(v.purpose@, w.purpose@);
    }
}


} // verus!
