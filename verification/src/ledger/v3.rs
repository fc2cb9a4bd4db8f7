//! Plutus V3 ledger API types, with the V2 output types that V3 shares.
use super::v1::{Address, Credential, DatumHash, Interval, Lovelace, PolicyId, PubKeyHash, TxId, TxOutRef, Value};
use crate::data::{Data, DataError, DataM, FromData, ToData, constr_of, lemma_datas_of, views_of};
use crate::integer::Integer;
use crate::list::List;
use crate::option::Option;
use crate::sorted_map::SortedMap;
use crate::derive::{binding, enum_data_decl, enum_decl_spec, struct_data_decl, struct_decl_spec};
use crate::model::{SirM, Ty, decl_of, params_of, tys_of};
use crate::sir::SIR;
use crate::sir_type::{DataDecl, HasSIRType, SIRType, TypeBinding};
use crate::sir_types::{case_type, sum_type};
use crate::text::owned;
use crate::typeclasses::OnchainPartialEq;
use vstd::prelude::*;

verus! {

pub type Datum = Data;

pub type Redeemer = Data;

pub type ColdCommitteeCredential = Credential;

pub type HotCommitteeCredential = Credential;

pub type DRepCredential = Credential;

/// A vote: no, yes or abstain.
#[derive(Debug, PartialEq)]
pub enum Vote {
    No,
    Yes,
    Abstain,
}

/// A delegated representative.
#[derive(Debug, PartialEq)]
pub enum DRep {
    DRep { credential: DRepCredential },
    AlwaysAbstain,
    AlwaysNoConfidence,
}

/// A staking delegation target.
#[derive(Debug, PartialEq)]
pub enum Delegatee {
    Stake { pub_key_hash: PubKeyHash },
    Vote { d_rep: DRep },
    StakeVote { pub_key_hash: PubKeyHash, d_rep: DRep },
}

/// A transaction certificate.
#[derive(Debug, PartialEq)]
pub enum TxCert {
    RegStaking { credential: Credential, deposit: Option<Lovelace> },
    UnRegStaking { credential: Credential, refund: Option<Lovelace> },
    DelegStaking { credential: Credential, delegatee: Delegatee },
    RegDeleg { credential: Credential, delegatee: Delegatee, deposit: Lovelace },
    RegDRep { credential: DRepCredential, deposit: Lovelace },
    UpdateDRep { credential: DRepCredential },
    UnRegDRep { credential: DRepCredential, refund: Lovelace },
    PoolRegister { pool_id: PubKeyHash, pool_vfr: PubKeyHash },
    PoolRetire { pub_key_hash: PubKeyHash, epoch: Integer },
    AuthHotCommittee { cold: ColdCommitteeCredential, hot: HotCommitteeCredential },
    ResignColdCommittee { cold: ColdCommitteeCredential },
}

/// Who votes in governance.
#[derive(Debug, PartialEq)]
pub enum Voter {
    CommitteeVoter { credential: HotCommitteeCredential },
    DRepVoter { credential: DRepCredential },
    StakePoolVoter { pub_key_hash: PubKeyHash },
}

/// A reference to a governance action.
#[derive(Debug, PartialEq)]
pub struct GovernanceActionId {
    pub tx_id: TxId,
    pub gov_action_ix: Integer,
}

/// A protocol version.
#[derive(Debug, PartialEq)]
pub struct ProtocolVersion {
    pub pv_major: Integer,
    pub pv_minor: Integer,
}

/// A governance action.
#[derive(Debug, PartialEq)]
pub enum GovernanceAction {
    ParameterChange { id: Option<GovernanceActionId>, parameters: Datum, constitution_script: Option<crate::ledger::v1::Hash> },
    HardForkInitiation { id: Option<GovernanceActionId>, protocol_version: ProtocolVersion },
    TreasuryWithdrawals { withdrawals: Datum, constitution_script: Option<crate::ledger::v1::Hash> },
    NoConfidence { id: Option<GovernanceActionId> },
    UpdateCommittee { id: Option<GovernanceActionId>, removed_members: List<ColdCommitteeCredential>, added_members: Datum, new_quorum: Datum },
    NewConstitution { id: Option<GovernanceActionId>, constitution: Option<crate::ledger::v1::Hash> },
    InfoAction,
}

/// A governance proposal.
#[derive(Debug, PartialEq)]
pub struct ProposalProcedure {
    pub deposit: Lovelace,
    pub return_address: Credential,
    pub governance_action: GovernanceAction,
}

/// What a script is run for.
#[derive(Debug, PartialEq)]
pub enum ScriptPurpose {
    Minting { policy_id: PolicyId },
    Spending { tx_out_ref: TxOutRef },
    Rewarding { credential: Credential },
    Certifying { index: Integer, cert: TxCert },
    Voting { voter: Voter },
    Proposing { index: Integer, procedure: ProposalProcedure },
}

/// What a script is run for, with what it is run on.
#[derive(Debug, PartialEq)]
pub enum ScriptInfo {
    MintingScript { policy_id: PolicyId },
    SpendingScript { tx_out_ref: TxOutRef, datum: Option<Datum> },
    RewardingScript { credential: Credential },
    CertifyingScript { index: Integer, cert: TxCert },
    VotingScript { voter: Voter },
    ProposingScript { index: Integer, procedure: ProposalProcedure },
}

/// The datum attached to an output.
#[derive(Debug, PartialEq)]
pub enum OutputDatum {
    NoOutputDatum,
    OutputDatumHash { hash: DatumHash },
    OutputDatum { datum: Datum },
}

/// A transaction output.
#[derive(Debug, PartialEq)]
pub struct TxOut {
    pub address: Address,
    pub value: Value,
    pub datum: OutputDatum,
    pub reference_script: Option<crate::ledger::v1::Hash>,
}

/// A transaction input with the output it spends.
#[derive(Debug, PartialEq)]
pub struct TxInInfo {
    pub out_ref: TxOutRef,
    pub resolved: TxOut,
}

/// The transaction that a V3 script sees.
#[derive(Debug, PartialEq)]
pub struct TxInfo {
    pub inputs: List<TxInInfo>,
    pub reference_inputs: List<TxInInfo>,
    pub outputs: List<TxOut>,
    pub fee: Lovelace,
    pub mint: Value,
    pub certificates: List<TxCert>,
    pub withdrawals: SortedMap<Credential, Lovelace>,
    pub valid_range: Interval,
    pub signatories: List<PubKeyHash>,
    pub redeemers: SortedMap<ScriptPurpose, Redeemer>,
    pub data: SortedMap<DatumHash, Datum>,
    pub id: TxId,
    pub votes: SortedMap<Voter, SortedMap<GovernanceActionId, Vote>>,
    pub proposal_procedures: List<ProposalProcedure>,
    pub current_treasury_amount: Option<Lovelace>,
    pub treasury_donation: Option<Lovelace>,
}

/// What a V3 script is given.
#[derive(Debug, PartialEq)]
pub struct ScriptContext {
    pub tx_info: TxInfo,
    pub redeemer: Redeemer,
    pub script_info: ScriptInfo,
}

impl View for Vote {
    type V = Vote;

    open spec fn view(&self) -> Vote {
        *self
    }
}

impl View for DRep {
    type V = DRep;

    open spec fn view(&self) -> DRep {
        *self
    }
}

impl View for Delegatee {
    type V = Delegatee;

    open spec fn view(&self) -> Delegatee {
        *self
    }
}

impl View for TxCert {
    type V = TxCert;

    open spec fn view(&self) -> TxCert {
        *self
    }
}

impl View for Voter {
    type V = Voter;

    open spec fn view(&self) -> Voter {
        *self
    }
}

impl View for GovernanceActionId {
    type V = GovernanceActionId;

    open spec fn view(&self) -> GovernanceActionId {
        *self
    }
}

impl View for ProtocolVersion {
    type V = ProtocolVersion;

    open spec fn view(&self) -> ProtocolVersion {
        *self
    }
}

impl View for GovernanceAction {
    type V = GovernanceAction;

    open spec fn view(&self) -> GovernanceAction {
        *self
    }
}

impl View for ProposalProcedure {
    type V = ProposalProcedure;

    open spec fn view(&self) -> ProposalProcedure {
        *self
    }
}

impl View for ScriptPurpose {
    type V = ScriptPurpose;

    open spec fn view(&self) -> ScriptPurpose {
        *self
    }
}

impl View for ScriptInfo {
    type V = ScriptInfo;

    open spec fn view(&self) -> ScriptInfo {
        *self
    }
}

impl View for OutputDatum {
    type V = OutputDatum;

    open spec fn view(&self) -> OutputDatum {
        *self
    }
}

impl View for TxOut {
    type V = TxOut;

    open spec fn view(&self) -> TxOut {
        *self
    }
}

impl View for TxInInfo {
    type V = TxInInfo;

    open spec fn view(&self) -> TxInInfo {
        *self
    }
}

impl View for TxInfo {
    type V = TxInfo;

    open spec fn view(&self) -> TxInfo {
        *self
    }
}

impl View for ScriptContext {
    type V = ScriptContext;

    open spec fn view(&self) -> ScriptContext {
        *self
    }
}

impl ToData for Vote {
    open spec fn encode(v: Vote) -> DataM {
        match v {
            Vote::No => DataM::Constr(0, Seq::empty()),
            Vote::Yes => DataM::Constr(1, Seq::empty()),
            Vote::Abstain => DataM::Constr(2, Seq::empty()),
        }
    }

    fn to_data(&self) -> (r: Data) {
        match self {
            Vote::No => {
                let args: Vec<Data> = Vec::new();
                let r = constr_of(0, args);
                assert(views_of(args@) =~= Seq::<DataM>::empty());
                r
            },
            Vote::Yes => {
                let args: Vec<Data> = Vec::new();
                let r = constr_of(1, args);
                assert(views_of(args@) =~= Seq::<DataM>::empty());
                r
            },
            Vote::Abstain => {
                let args: Vec<Data> = Vec::new();
                let r = constr_of(2, args);
                assert(views_of(args@) =~= Seq::<DataM>::empty());
                r
            },
        }
    }
}

impl ToData for DRep {
    open spec fn encode(v: DRep) -> DataM {
        match v {
            DRep::DRep { credential } => DataM::Constr(0, seq![
                <DRepCredential as ToData>::encode(credential@),
            ]),
            DRep::AlwaysAbstain => DataM::Constr(1, Seq::empty()),
            DRep::AlwaysNoConfidence => DataM::Constr(2, Seq::empty()),
        }
    }

    fn to_data(&self) -> (r: Data) {
        match self {
            DRep::DRep { credential } => {
                let args = vec![credential.to_data()];
                let r = constr_of(0, args);
                assert(views_of(args@) =~= seq![
                    <DRepCredential as ToData>::encode(credential@),
                ]);
                r
            },
            DRep::AlwaysAbstain => {
                let args: Vec<Data> = Vec::new();
                let r = constr_of(1, args);
                assert(views_of(args@) =~= Seq::<DataM>::empty());
                r
            },
            DRep::AlwaysNoConfidence => {
                let args: Vec<Data> = Vec::new();
                let r = constr_of(2, args);
                assert(views_of(args@) =~= Seq::<DataM>::empty());
                r
            },
        }
    }
}

impl ToData for Delegatee {
    open spec fn encode(v: Delegatee) -> DataM {
        match v {
            Delegatee::Stake { pub_key_hash } => DataM::Constr(0, seq![
                <PubKeyHash as ToData>::encode(pub_key_hash@),
            ]),
            Delegatee::Vote { d_rep } => DataM::Constr(1, seq![
                <DRep as ToData>::encode(d_rep@),
            ]),
            Delegatee::StakeVote { pub_key_hash, d_rep } => DataM::Constr(2, seq![
                <PubKeyHash as ToData>::encode(pub_key_hash@),
                <DRep as ToData>::encode(d_rep@),
            ]),
        }
    }

    fn to_data(&self) -> (r: Data) {
        match self {
            Delegatee::Stake { pub_key_hash } => {
                let args = vec![pub_key_hash.to_data()];
                let r = constr_of(0, args);
                assert(views_of(args@) =~= seq![
                    <PubKeyHash as ToData>::encode(pub_key_hash@),
                ]);
                r
            },
            Delegatee::Vote { d_rep } => {
                let args = vec![d_rep.to_data()];
                let r = constr_of(1, args);
                assert(views_of(args@) =~= seq![
                    <DRep as ToData>::encode(d_rep@),
                ]);
                r
            },
            Delegatee::StakeVote { pub_key_hash, d_rep } => {
                let args = vec![pub_key_hash.to_data(), d_rep.to_data()];
                let r = constr_of(2, args);
                assert(views_of(args@) =~= seq![
                    <PubKeyHash as ToData>::encode(pub_key_hash@),
                    <DRep as ToData>::encode(d_rep@),
                ]);
                r
            },
        }
    }
}

impl ToData for TxCert {
    open spec fn encode(v: TxCert) -> DataM {
        match v {
            TxCert::RegStaking { credential, deposit } => DataM::Constr(0, seq![
                <Credential as ToData>::encode(credential@),
                <Option<Lovelace> as ToData>::encode(deposit@),
            ]),
            TxCert::UnRegStaking { credential, refund } => DataM::Constr(1, seq![
                <Credential as ToData>::encode(credential@),
                <Option<Lovelace> as ToData>::encode(refund@),
            ]),
            TxCert::DelegStaking { credential, delegatee } => DataM::Constr(2, seq![
                <Credential as ToData>::encode(credential@),
                <Delegatee as ToData>::encode(delegatee@),
            ]),
            TxCert::RegDeleg { credential, delegatee, deposit } => DataM::Constr(3, seq![
                <Credential as ToData>::encode(credential@),
                <Delegatee as ToData>::encode(delegatee@),
                <Lovelace as ToData>::encode(deposit@),
            ]),
            TxCert::RegDRep { credential, deposit } => DataM::Constr(4, seq![
                <DRepCredential as ToData>::encode(credential@),
                <Lovelace as ToData>::encode(deposit@),
            ]),
            TxCert::UpdateDRep { credential } => DataM::Constr(5, seq![
                <DRepCredential as ToData>::encode(credential@),
            ]),
            TxCert::UnRegDRep { credential, refund } => DataM::Constr(6, seq![
                <DRepCredential as ToData>::encode(credential@),
                <Lovelace as ToData>::encode(refund@),
            ]),
            TxCert::PoolRegister { pool_id, pool_vfr } => DataM::Constr(7, seq![
                <PubKeyHash as ToData>::encode(pool_id@),
                <PubKeyHash as ToData>::encode(pool_vfr@),
            ]),
            TxCert::PoolRetire { pub_key_hash, epoch } => DataM::Constr(8, seq![
                <PubKeyHash as ToData>::encode(pub_key_hash@),
                <Integer as ToData>::encode(epoch@),
            ]),
            TxCert::AuthHotCommittee { cold, hot } => DataM::Constr(9, seq![
                <ColdCommitteeCredential as ToData>::encode(cold@),
                <HotCommitteeCredential as ToData>::encode(hot@),
            ]),
            TxCert::ResignColdCommittee { cold } => DataM::Constr(10, seq![
                <ColdCommitteeCredential as ToData>::encode(cold@),
            ]),
        }
    }

    fn to_data(&self) -> (r: Data) {
        match self {
            TxCert::RegStaking { credential, deposit } => {
                let args = vec![credential.to_data(), deposit.to_data()];
                let r = constr_of(0, args);
                assert(views_of(args@) =~= seq![
                    <Credential as ToData>::encode(credential@),
                    <Option<Lovelace> as ToData>::encode(deposit@),
                ]);
                r
            },
            TxCert::UnRegStaking { credential, refund } => {
                let args = vec![credential.to_data(), refund.to_data()];
                let r = constr_of(1, args);
                assert(views_of(args@) =~= seq![
                    <Credential as ToData>::encode(credential@),
                    <Option<Lovelace> as ToData>::encode(refund@),
                ]);
                r
            },
            TxCert::DelegStaking { credential, delegatee } => {
                let args = vec![credential.to_data(), delegatee.to_data()];
                let r = constr_of(2, args);
                assert(views_of(args@) =~= seq![
                    <Credential as ToData>::encode(credential@),
                    <Delegatee as ToData>::encode(delegatee@),
                ]);
                r
            },
            TxCert::RegDeleg { credential, delegatee, deposit } => {
                let args = vec![credential.to_data(), delegatee.to_data(), deposit.to_data()];
                let r = constr_of(3, args);
                assert(views_of(args@) =~= seq![
                    <Credential as ToData>::encode(credential@),
                    <Delegatee as ToData>::encode(delegatee@),
                    <Lovelace as ToData>::encode(deposit@),
                ]);
                r
            },
            TxCert::RegDRep { credential, deposit } => {
                let args = vec![credential.to_data(), deposit.to_data()];
                let r = constr_of(4, args);
                assert(views_of(args@) =~= seq![
                    <DRepCredential as ToData>::encode(credential@),
                    <Lovelace as ToData>::encode(deposit@),
                ]);
                r
            },
            TxCert::UpdateDRep { credential } => {
                let args = vec![credential.to_data()];
                let r = constr_of(5, args);
                assert(views_of(args@) =~= seq![
                    <DRepCredential as ToData>::encode(credential@),
                ]);
                r
            },
            TxCert::UnRegDRep { credential, refund } => {
                let args = vec![credential.to_data(), refund.to_data()];
                let r = constr_of(6, args);
                assert(views_of(args@) =~= seq![
                    <DRepCredential as ToData>::encode(credential@),
                    <Lovelace as ToData>::encode(refund@),
                ]);
                r
            },
            TxCert::PoolRegister { pool_id, pool_vfr } => {
                let args = vec![pool_id.to_data(), pool_vfr.to_data()];
                let r = constr_of(7, args);
                assert(views_of(args@) =~= seq![
                    <PubKeyHash as ToData>::encode(pool_id@),
                    <PubKeyHash as ToData>::encode(pool_vfr@),
                ]);
                r
            },
            TxCert::PoolRetire { pub_key_hash, epoch } => {
                let args = vec![pub_key_hash.to_data(), epoch.to_data()];
                let r = constr_of(8, args);
                assert(views_of(args@) =~= seq![
                    <PubKeyHash as ToData>::encode(pub_key_hash@),
                    <Integer as ToData>::encode(epoch@),
                ]);
                r
            },
            TxCert::AuthHotCommittee { cold, hot } => {
                let args = vec![cold.to_data(), hot.to_data()];
                let r = constr_of(9, args);
                assert(views_of(args@) =~= seq![
                    <ColdCommitteeCredential as ToData>::encode(cold@),
                    <HotCommitteeCredential as ToData>::encode(hot@),
                ]);
                r
            },
            TxCert::ResignColdCommittee { cold } => {
                let args = vec![cold.to_data()];
                let r = constr_of(10, args);
                assert(views_of(args@) =~= seq![
                    <ColdCommitteeCredential as ToData>::encode(cold@),
                ]);
                r
            },
        }
    }
}

impl ToData for Voter {
    open spec fn encode(v: Voter) -> DataM {
        match v {
            Voter::CommitteeVoter { credential } => DataM::Constr(0, seq![
                <HotCommitteeCredential as ToData>::encode(credential@),
            ]),
            Voter::DRepVoter { credential } => DataM::Constr(1, seq![
                <DRepCredential as ToData>::encode(credential@),
            ]),
            Voter::StakePoolVoter { pub_key_hash } => DataM::Constr(2, seq![
                <PubKeyHash as ToData>::encode(pub_key_hash@),
            ]),
        }
    }

    fn to_data(&self) -> (r: Data) {
        match self {
            Voter::CommitteeVoter { credential } => {
                let args = vec![credential.to_data()];
                let r = constr_of(0, args);
                assert(views_of(args@) =~= seq![
                    <HotCommitteeCredential as ToData>::encode(credential@),
                ]);
                r
            },
            Voter::DRepVoter { credential } => {
                let args = vec![credential.to_data()];
                let r = constr_of(1, args);
                assert(views_of(args@) =~= seq![
                    <DRepCredential as ToData>::encode(credential@),
                ]);
                r
            },
            Voter::StakePoolVoter { pub_key_hash } => {
                let args = vec![pub_key_hash.to_data()];
                let r = constr_of(2, args);
                assert(views_of(args@) =~= seq![
                    <PubKeyHash as ToData>::encode(pub_key_hash@),
                ]);
                r
            },
        }
    }
}

impl ToData for GovernanceActionId {
    open spec fn encode(v: GovernanceActionId) -> DataM {
        DataM::Constr(0, seq![
            <TxId as ToData>::encode(v.tx_id@),
            <Integer as ToData>::encode(v.gov_action_ix@),
        ])
    }

    fn to_data(&self) -> (r: Data) {
        let args = vec![self.tx_id.to_data(), self.gov_action_ix.to_data()];
        let r = constr_of(0, args);
        assert(views_of(args@) =~= seq![
            <TxId as ToData>::encode(self.tx_id@),
            <Integer as ToData>::encode(self.gov_action_ix@),
        ]);
        r
    }
}

impl ToData for ProtocolVersion {
    open spec fn encode(v: ProtocolVersion) -> DataM {
        DataM::Constr(0, seq![
            <Integer as ToData>::encode(v.pv_major@),
            <Integer as ToData>::encode(v.pv_minor@),
        ])
    }

    fn to_data(&self) -> (r: Data) {
        let args = vec![self.pv_major.to_data(), self.pv_minor.to_data()];
        let r = constr_of(0, args);
        assert(views_of(args@) =~= seq![
            <Integer as ToData>::encode(self.pv_major@),
            <Integer as ToData>::encode(self.pv_minor@),
        ]);
        r
    }
}

impl ToData for GovernanceAction {
    open spec fn encode(v: GovernanceAction) -> DataM {
        match v {
            GovernanceAction::ParameterChange { id, parameters, constitution_script } => DataM::Constr(0, seq![
                <Option<GovernanceActionId> as ToData>::encode(id@),
                <Datum as ToData>::encode(parameters@),
                <Option<crate::ledger::v1::Hash> as ToData>::encode(constitution_script@),
            ]),
            GovernanceAction::HardForkInitiation { id, protocol_version } => DataM::Constr(1, seq![
                <Option<GovernanceActionId> as ToData>::encode(id@),
                <ProtocolVersion as ToData>::encode(protocol_version@),
            ]),
            GovernanceAction::TreasuryWithdrawals { withdrawals, constitution_script } => DataM::Constr(2, seq![
                <Datum as ToData>::encode(withdrawals@),
                <Option<crate::ledger::v1::Hash> as ToData>::encode(constitution_script@),
            ]),
            GovernanceAction::NoConfidence { id } => DataM::Constr(3, seq![
                <Option<GovernanceActionId> as ToData>::encode(id@),
            ]),
            GovernanceAction::UpdateCommittee { id, removed_members, added_members, new_quorum } => DataM::Constr(4, seq![
                <Option<GovernanceActionId> as ToData>::encode(id@),
                <List<ColdCommitteeCredential> as ToData>::encode(removed_members@),
                <Datum as ToData>::encode(added_members@),
                <Datum as ToData>::encode(new_quorum@),
            ]),
            GovernanceAction::NewConstitution { id, constitution } => DataM::Constr(5, seq![
                <Option<GovernanceActionId> as ToData>::encode(id@),
                <Option<crate::ledger::v1::Hash> as ToData>::encode(constitution@),
            ]),
            GovernanceAction::InfoAction => DataM::Constr(6, Seq::empty()),
        }
    }

    fn to_data(&self) -> (r: Data) {
        match self {
            GovernanceAction::ParameterChange { id, parameters, constitution_script } => {
                let args = vec![id.to_data(), parameters.to_data(), constitution_script.to_data()];
                let r = constr_of(0, args);
                assert(views_of(args@) =~= seq![
                    <Option<GovernanceActionId> as ToData>::encode(id@),
                    <Datum as ToData>::encode(parameters@),
                    <Option<crate::ledger::v1::Hash> as ToData>::encode(constitution_script@),
                ]);
                r
            },
            GovernanceAction::HardForkInitiation { id, protocol_version } => {
                let args = vec![id.to_data(), protocol_version.to_data()];
                let r = constr_of(1, args);
                assert(views_of(args@) =~= seq![
                    <Option<GovernanceActionId> as ToData>::encode(id@),
                    <ProtocolVersion as ToData>::encode(protocol_version@),
                ]);
                r
            },
            GovernanceAction::TreasuryWithdrawals { withdrawals, constitution_script } => {
                let args = vec![withdrawals.to_data(), constitution_script.to_data()];
                let r = constr_of(2, args);
                assert(views_of(args@) =~= seq![
                    <Datum as ToData>::encode(withdrawals@),
                    <Option<crate::ledger::v1::Hash> as ToData>::encode(constitution_script@),
                ]);
                r
            },
            GovernanceAction::NoConfidence { id } => {
                let args = vec![id.to_data()];
                let r = constr_of(3, args);
                assert(views_of(args@) =~= seq![
                    <Option<GovernanceActionId> as ToData>::encode(id@),
                ]);
                r
            },
            GovernanceAction::UpdateCommittee { id, removed_members, added_members, new_quorum } => {
                let args = vec![id.to_data(), removed_members.to_data(), added_members.to_data(), new_quorum.to_data()];
                let r = constr_of(4, args);
                assert(views_of(args@) =~= seq![
                    <Option<GovernanceActionId> as ToData>::encode(id@),
                    <List<ColdCommitteeCredential> as ToData>::encode(removed_members@),
                    <Datum as ToData>::encode(added_members@),
                    <Datum as ToData>::encode(new_quorum@),
                ]);
                r
            },
            GovernanceAction::NewConstitution { id, constitution } => {
                let args = vec![id.to_data(), constitution.to_data()];
                let r = constr_of(5, args);
                assert(views_of(args@) =~= seq![
                    <Option<GovernanceActionId> as ToData>::encode(id@),
                    <Option<crate::ledger::v1::Hash> as ToData>::encode(constitution@),
                ]);
                r
            },
            GovernanceAction::InfoAction => {
                let args: Vec<Data> = Vec::new();
                let r = constr_of(6, args);
                assert(views_of(args@) =~= Seq::<DataM>::empty());
                r
            },
        }
    }
}

impl ToData for ProposalProcedure {
    open spec fn encode(v: ProposalProcedure) -> DataM {
        DataM::Constr(0, seq![
            <Lovelace as ToData>::encode(v.deposit@),
            <Credential as ToData>::encode(v.return_address@),
            <GovernanceAction as ToData>::encode(v.governance_action@),
        ])
    }

    fn to_data(&self) -> (r: Data) {
        let args = vec![self.deposit.to_data(), self.return_address.to_data(), self.governance_action.to_data()];
        let r = constr_of(0, args);
        assert(views_of(args@) =~= seq![
            <Lovelace as ToData>::encode(self.deposit@),
            <Credential as ToData>::encode(self.return_address@),
            <GovernanceAction as ToData>::encode(self.governance_action@),
        ]);
        r
    }
}

impl ToData for ScriptPurpose {
    open spec fn encode(v: ScriptPurpose) -> DataM {
        match v {
            ScriptPurpose::Minting { policy_id } => DataM::Constr(0, seq![
                <PolicyId as ToData>::encode(policy_id@),
            ]),
            ScriptPurpose::Spending { tx_out_ref } => DataM::Constr(1, seq![
                <TxOutRef as ToData>::encode(tx_out_ref@),
            ]),
            ScriptPurpose::Rewarding { credential } => DataM::Constr(2, seq![
                <Credential as ToData>::encode(credential@),
            ]),
            ScriptPurpose::Certifying { index, cert } => DataM::Constr(3, seq![
                <Integer as ToData>::encode(index@),
                <TxCert as ToData>::encode(cert@),
            ]),
            ScriptPurpose::Voting { voter } => DataM::Constr(4, seq![
                <Voter as ToData>::encode(voter@),
            ]),
            ScriptPurpose::Proposing { index, procedure } => DataM::Constr(5, seq![
                <Integer as ToData>::encode(index@),
                <ProposalProcedure as ToData>::encode(procedure@),
            ]),
        }
    }

    fn to_data(&self) -> (r: Data) {
        match self {
            ScriptPurpose::Minting { policy_id } => {
                let args = vec![policy_id.to_data()];
                let r = constr_of(0, args);
                assert(views_of(args@) =~= seq![
                    <PolicyId as ToData>::encode(policy_id@),
                ]);
                r
            },
            ScriptPurpose::Spending { tx_out_ref } => {
                let args = vec![tx_out_ref.to_data()];
                let r = constr_of(1, args);
                assert(views_of(args@) =~= seq![
                    <TxOutRef as ToData>::encode(tx_out_ref@),
                ]);
                r
            },
            ScriptPurpose::Rewarding { credential } => {
                let args = vec![credential.to_data()];
                let r = constr_of(2, args);
                assert(views_of(args@) =~= seq![
                    <Credential as ToData>::encode(credential@),
                ]);
                r
            },
            ScriptPurpose::Certifying { index, cert } => {
                let args = vec![index.to_data(), cert.to_data()];
                let r = constr_of(3, args);
                assert(views_of(args@) =~= seq![
                    <Integer as ToData>::encode(index@),
                    <TxCert as ToData>::encode(cert@),
                ]);
                r
            },
            ScriptPurpose::Voting { voter } => {
                let args = vec![voter.to_data()];
                let r = constr_of(4, args);
                assert(views_of(args@) =~= seq![
                    <Voter as ToData>::encode(voter@),
                ]);
                r
            },
            ScriptPurpose::Proposing { index, procedure } => {
                let args = vec![index.to_data(), procedure.to_data()];
                let r = constr_of(5, args);
                assert(views_of(args@) =~= seq![
                    <Integer as ToData>::encode(index@),
                    <ProposalProcedure as ToData>::encode(procedure@),
                ]);
                r
            },
        }
    }
}

impl ToData for ScriptInfo {
    open spec fn encode(v: ScriptInfo) -> DataM {
        match v {
            ScriptInfo::MintingScript { policy_id } => DataM::Constr(0, seq![
                <PolicyId as ToData>::encode(policy_id@),
            ]),
            ScriptInfo::SpendingScript { tx_out_ref, datum } => DataM::Constr(1, seq![
                <TxOutRef as ToData>::encode(tx_out_ref@),
                <Option<Datum> as ToData>::encode(datum@),
            ]),
            ScriptInfo::RewardingScript { credential } => DataM::Constr(2, seq![
                <Credential as ToData>::encode(credential@),
            ]),
            ScriptInfo::CertifyingScript { index, cert } => DataM::Constr(3, seq![
                <Integer as ToData>::encode(index@),
                <TxCert as ToData>::encode(cert@),
            ]),
            ScriptInfo::VotingScript { voter } => DataM::Constr(4, seq![
                <Voter as ToData>::encode(voter@),
            ]),
            ScriptInfo::ProposingScript { index, procedure } => DataM::Constr(5, seq![
                <Integer as ToData>::encode(index@),
                <ProposalProcedure as ToData>::encode(procedure@),
            ]),
        }
    }

    fn to_data(&self) -> (r: Data) {
        match self {
            ScriptInfo::MintingScript { policy_id } => {
                let args = vec![policy_id.to_data()];
                let r = constr_of(0, args);
                assert(views_of(args@) =~= seq![
                    <PolicyId as ToData>::encode(policy_id@),
                ]);
                r
            },
            ScriptInfo::SpendingScript { tx_out_ref, datum } => {
                let args = vec![tx_out_ref.to_data(), datum.to_data()];
                let r = constr_of(1, args);
                assert(views_of(args@) =~= seq![
                    <TxOutRef as ToData>::encode(tx_out_ref@),
                    <Option<Datum> as ToData>::encode(datum@),
                ]);
                r
            },
            ScriptInfo::RewardingScript { credential } => {
                let args = vec![credential.to_data()];
                let r = constr_of(2, args);
                assert(views_of(args@) =~= seq![
                    <Credential as ToData>::encode(credential@),
                ]);
                r
            },
            ScriptInfo::CertifyingScript { index, cert } => {
                let args = vec![index.to_data(), cert.to_data()];
                let r = constr_of(3, args);
                assert(views_of(args@) =~= seq![
                    <Integer as ToData>::encode(index@),
                    <TxCert as ToData>::encode(cert@),
                ]);
                r
            },
            ScriptInfo::VotingScript { voter } => {
                let args = vec![voter.to_data()];
                let r = constr_of(4, args);
                assert(views_of(args@) =~= seq![
                    <Voter as ToData>::encode(voter@),
                ]);
                r
            },
            ScriptInfo::ProposingScript { index, procedure } => {
                let args = vec![index.to_data(), procedure.to_data()];
                let r = constr_of(5, args);
                assert(views_of(args@) =~= seq![
                    <Integer as ToData>::encode(index@),
                    <ProposalProcedure as ToData>::encode(procedure@),
                ]);
                r
            },
        }
    }
}

impl ToData for OutputDatum {
    open spec fn encode(v: OutputDatum) -> DataM {
        match v {
            OutputDatum::NoOutputDatum => DataM::Constr(0, Seq::empty()),
            OutputDatum::OutputDatumHash { hash } => DataM::Constr(1, seq![
                <DatumHash as ToData>::encode(hash@),
            ]),
            OutputDatum::OutputDatum { datum } => DataM::Constr(2, seq![
                <Datum as ToData>::encode(datum@),
            ]),
        }
    }

    fn to_data(&self) -> (r: Data) {
        match self {
            OutputDatum::NoOutputDatum => {
                let args: Vec<Data> = Vec::new();
                let r = constr_of(0, args);
                assert(views_of(args@) =~= Seq::<DataM>::empty());
                r
            },
            OutputDatum::OutputDatumHash { hash } => {
                let args = vec![hash.to_data()];
                let r = constr_of(1, args);
                assert(views_of(args@) =~= seq![
                    <DatumHash as ToData>::encode(hash@),
                ]);
                r
            },
            OutputDatum::OutputDatum { datum } => {
                let args = vec![datum.to_data()];
                let r = constr_of(2, args);
                assert(views_of(args@) =~= seq![
                    <Datum as ToData>::encode(datum@),
                ]);
                r
            },
        }
    }
}

impl ToData for TxOut {
    open spec fn encode(v: TxOut) -> DataM {
        DataM::Constr(0, seq![
            <Address as ToData>::encode(v.address@),
            <Value as ToData>::encode(v.value@),
            <OutputDatum as ToData>::encode(v.datum@),
            <Option<crate::ledger::v1::Hash> as ToData>::encode(v.reference_script@),
        ])
    }

    fn to_data(&self) -> (r: Data) {
        let args = vec![self.address.to_data(), self.value.to_data(), self.datum.to_data(), self.reference_script.to_data()];
        let r = constr_of(0, args);
        assert(views_of(args@) =~= seq![
            <Address as ToData>::encode(self.address@),
            <Value as ToData>::encode(self.value@),
            <OutputDatum as ToData>::encode(self.datum@),
            <Option<crate::ledger::v1::Hash> as ToData>::encode(self.reference_script@),
        ]);
        r
    }
}

impl ToData for TxInInfo {
    open spec fn encode(v: TxInInfo) -> DataM {
        DataM::Constr(0, seq![
            <TxOutRef as ToData>::encode(v.out_ref@),
            <TxOut as ToData>::encode(v.resolved@),
        ])
    }

    fn to_data(&self) -> (r: Data) {
        let args = vec![self.out_ref.to_data(), self.resolved.to_data()];
        let r = constr_of(0, args);
        assert(views_of(args@) =~= seq![
            <TxOutRef as ToData>::encode(self.out_ref@),
            <TxOut as ToData>::encode(self.resolved@),
        ]);
        r
    }
}

impl ToData for TxInfo {
    open spec fn encode(v: TxInfo) -> DataM {
        DataM::Constr(0, seq![
            <List<TxInInfo> as ToData>::encode(v.inputs@),
            <List<TxInInfo> as ToData>::encode(v.reference_inputs@),
            <List<TxOut> as ToData>::encode(v.outputs@),
            <Lovelace as ToData>::encode(v.fee@),
            <Value as ToData>::encode(v.mint@),
            <List<TxCert> as ToData>::encode(v.certificates@),
            <SortedMap<Credential, Lovelace> as ToData>::encode(v.withdrawals@),
            <Interval as ToData>::encode(v.valid_range@),
            <List<PubKeyHash> as ToData>::encode(v.signatories@),
            <SortedMap<ScriptPurpose, Redeemer> as ToData>::encode(v.redeemers@),
            <SortedMap<DatumHash, Datum> as ToData>::encode(v.data@),
            <TxId as ToData>::encode(v.id@),
            <SortedMap<Voter, SortedMap<GovernanceActionId, Vote>> as ToData>::encode(v.votes@),
            <List<ProposalProcedure> as ToData>::encode(v.proposal_procedures@),
            <Option<Lovelace> as ToData>::encode(v.current_treasury_amount@),
            <Option<Lovelace> as ToData>::encode(v.treasury_donation@),
        ])
    }

    fn to_data(&self) -> (r: Data) {
        let args = vec![self.inputs.to_data(), self.reference_inputs.to_data(), self.outputs.to_data(), self.fee.to_data(), self.mint.to_data(), self.certificates.to_data(), self.withdrawals.to_data(), self.valid_range.to_data(), self.signatories.to_data(), self.redeemers.to_data(), self.data.to_data(), self.id.to_data(), self.votes.to_data(), self.proposal_procedures.to_data(), self.current_treasury_amount.to_data(), self.treasury_donation.to_data()];
        let r = constr_of(0, args);
        assert(views_of(args@) =~= seq![
            <List<TxInInfo> as ToData>::encode(self.inputs@),
            <List<TxInInfo> as ToData>::encode(self.reference_inputs@),
            <List<TxOut> as ToData>::encode(self.outputs@),
            <Lovelace as ToData>::encode(self.fee@),
            <Value as ToData>::encode(self.mint@),
            <List<TxCert> as ToData>::encode(self.certificates@),
            <SortedMap<Credential, Lovelace> as ToData>::encode(self.withdrawals@),
            <Interval as ToData>::encode(self.valid_range@),
            <List<PubKeyHash> as ToData>::encode(self.signatories@),
            <SortedMap<ScriptPurpose, Redeemer> as ToData>::encode(self.redeemers@),
            <SortedMap<DatumHash, Datum> as ToData>::encode(self.data@),
            <TxId as ToData>::encode(self.id@),
            <SortedMap<Voter, SortedMap<GovernanceActionId, Vote>> as ToData>::encode(self.votes@),
            <List<ProposalProcedure> as ToData>::encode(self.proposal_procedures@),
            <Option<Lovelace> as ToData>::encode(self.current_treasury_amount@),
            <Option<Lovelace> as ToData>::encode(self.treasury_donation@),
        ]);
        r
    }
}

impl ToData for ScriptContext {
    open spec fn encode(v: ScriptContext) -> DataM {
        DataM::Constr(0, seq![
            <TxInfo as ToData>::encode(v.tx_info@),
            <Redeemer as ToData>::encode(v.redeemer@),
            <ScriptInfo as ToData>::encode(v.script_info@),
        ])
    }

    fn to_data(&self) -> (r: Data) {
        let args = vec![self.tx_info.to_data(), self.redeemer.to_data(), self.script_info.to_data()];
        let r = constr_of(0, args);
        assert(views_of(args@) =~= seq![
            <TxInfo as ToData>::encode(self.tx_info@),
            <Redeemer as ToData>::encode(self.redeemer@),
            <ScriptInfo as ToData>::encode(self.script_info@),
        ]);
        r
    }
}

impl HasSIRType for Vote {
    open spec fn sir_type_spec() -> Ty {
        Ty::SumCaseClass("scalus.cardano.onchain.plutus.v3.Vote"@, Seq::empty())
    }

    fn sir_type() -> (r: SIRType) {
        let args: Vec<SIRType> = Vec::new();
        assert(tys_of(args@) =~= Seq::<Ty>::empty());
        sum_type("scalus.cardano.onchain.plutus.v3.Vote", args)
    }

    fn sir_data_decl() -> (r: std::option::Option<DataDecl>)
        ensures
            r matches std::option::Option::Some(d) && decl_of(d) == enum_decl_spec(
                "scalus.cardano.onchain.plutus.v3.Vote"@,
                seq![
                    ("No"@, Seq::empty()),
                    ("Yes"@, Seq::empty()),
                    ("Abstain"@, Seq::empty()),
                ],
                0,
            ),
    {
        let mut variants: Vec<(String, Vec<TypeBinding>)> = Vec::new();
        let f0: Vec<TypeBinding> = Vec::new();
        assert(params_of(f0@) =~= Seq::<(Seq<char>, Ty)>::empty());
        variants.push((owned("No"), f0));
        let f1: Vec<TypeBinding> = Vec::new();
        assert(params_of(f1@) =~= Seq::<(Seq<char>, Ty)>::empty());
        variants.push((owned("Yes"), f1));
        let f2: Vec<TypeBinding> = Vec::new();
        assert(params_of(f2@) =~= Seq::<(Seq<char>, Ty)>::empty());
        variants.push((owned("Abstain"), f2));
        assert(variants@.map_values(|v: (String, Vec<TypeBinding>)| (v.0@, params_of(v.1@))) =~= seq![
            ("No"@, Seq::empty()),
            ("Yes"@, Seq::empty()),
            ("Abstain"@, Seq::empty()),
        ]);
        std::option::Option::Some(enum_data_decl("scalus.cardano.onchain.plutus.v3.Vote", variants, 0))
    }
}

impl OnchainPartialEq for Vote {
    open spec fn sir_eq_spec() -> SirM {
        <Data as OnchainPartialEq>::sir_eq_spec()
    }

    fn sir_eq() -> (r: SIR) {
        <Data as OnchainPartialEq>::sir_eq()
    }
}

impl HasSIRType for DRep {
    open spec fn sir_type_spec() -> Ty {
        Ty::SumCaseClass("scalus.cardano.onchain.plutus.v3.DRep"@, Seq::empty())
    }

    fn sir_type() -> (r: SIRType) {
        let args: Vec<SIRType> = Vec::new();
        assert(tys_of(args@) =~= Seq::<Ty>::empty());
        sum_type("scalus.cardano.onchain.plutus.v3.DRep", args)
    }

    fn sir_data_decl() -> (r: std::option::Option<DataDecl>)
        ensures
            r matches std::option::Option::Some(d) && decl_of(d) == enum_decl_spec(
                "scalus.cardano.onchain.plutus.v3.DRep"@,
                seq![
                    ("DRep"@, seq![
                        ("credential"@, <Credential as HasSIRType>::sir_type_spec()),
                    ]),
                    ("AlwaysAbstain"@, Seq::empty()),
                    ("AlwaysNoConfidence"@, Seq::empty()),
                ],
                0,
            ),
    {
        let mut variants: Vec<(String, Vec<TypeBinding>)> = Vec::new();
        let mut f0: Vec<TypeBinding> = Vec::new();
        f0.push(binding("credential", <Credential as HasSIRType>::sir_type()));
        assert(params_of(f0@) =~= seq![
            ("credential"@, <Credential as HasSIRType>::sir_type_spec()),
        ]);
        variants.push((owned("DRep"), f0));
        let f1: Vec<TypeBinding> = Vec::new();
        assert(params_of(f1@) =~= Seq::<(Seq<char>, Ty)>::empty());
        variants.push((owned("AlwaysAbstain"), f1));
        let f2: Vec<TypeBinding> = Vec::new();
        assert(params_of(f2@) =~= Seq::<(Seq<char>, Ty)>::empty());
        variants.push((owned("AlwaysNoConfidence"), f2));
        assert(variants@.map_values(|v: (String, Vec<TypeBinding>)| (v.0@, params_of(v.1@))) =~= seq![
            ("DRep"@, seq![
                    ("credential"@, <Credential as HasSIRType>::sir_type_spec()),
                ]),
            ("AlwaysAbstain"@, Seq::empty()),
            ("AlwaysNoConfidence"@, Seq::empty()),
        ]);
        std::option::Option::Some(enum_data_decl("scalus.cardano.onchain.plutus.v3.DRep", variants, 0))
    }
}

impl OnchainPartialEq for DRep {
    open spec fn sir_eq_spec() -> SirM {
        <Data as OnchainPartialEq>::sir_eq_spec()
    }

    fn sir_eq() -> (r: SIR) {
        <Data as OnchainPartialEq>::sir_eq()
    }
}

impl HasSIRType for Delegatee {
    open spec fn sir_type_spec() -> Ty {
        Ty::SumCaseClass("scalus.cardano.onchain.plutus.v3.Delegatee"@, Seq::empty())
    }

    fn sir_type() -> (r: SIRType) {
        let args: Vec<SIRType> = Vec::new();
        assert(tys_of(args@) =~= Seq::<Ty>::empty());
        sum_type("scalus.cardano.onchain.plutus.v3.Delegatee", args)
    }

    fn sir_data_decl() -> (r: std::option::Option<DataDecl>)
        ensures
            r matches std::option::Option::Some(d) && decl_of(d) == enum_decl_spec(
                "scalus.cardano.onchain.plutus.v3.Delegatee"@,
                seq![
                    ("Stake"@, seq![
                        ("pub_key_hash"@, <PubKeyHash as HasSIRType>::sir_type_spec()),
                    ]),
                    ("Vote"@, seq![
                        ("d_rep"@, <DRep as HasSIRType>::sir_type_spec()),
                    ]),
                    ("StakeVote"@, seq![
                        ("pub_key_hash"@, <PubKeyHash as HasSIRType>::sir_type_spec()),
                        ("d_rep"@, <DRep as HasSIRType>::sir_type_spec()),
                    ]),
                ],
                0,
            ),
    {
        let mut variants: Vec<(String, Vec<TypeBinding>)> = Vec::new();
        let mut f0: Vec<TypeBinding> = Vec::new();
        f0.push(binding("pub_key_hash", <PubKeyHash as HasSIRType>::sir_type()));
        assert(params_of(f0@) =~= seq![
            ("pub_key_hash"@, <PubKeyHash as HasSIRType>::sir_type_spec()),
        ]);
        variants.push((owned("Stake"), f0));
        let mut f1: Vec<TypeBinding> = Vec::new();
        f1.push(binding("d_rep", <DRep as HasSIRType>::sir_type()));
        assert(params_of(f1@) =~= seq![
            ("d_rep"@, <DRep as HasSIRType>::sir_type_spec()),
        ]);
        variants.push((owned("Vote"), f1));
        let mut f2: Vec<TypeBinding> = Vec::new();
        f2.push(binding("pub_key_hash", <PubKeyHash as HasSIRType>::sir_type()));
        f2.push(binding("d_rep", <DRep as HasSIRType>::sir_type()));
        assert(params_of(f2@) =~= seq![
            ("pub_key_hash"@, <PubKeyHash as HasSIRType>::sir_type_spec()),
            ("d_rep"@, <DRep as HasSIRType>::sir_type_spec()),
        ]);
        variants.push((owned("StakeVote"), f2));
        assert(variants@.map_values(|v: (String, Vec<TypeBinding>)| (v.0@, params_of(v.1@))) =~= seq![
            ("Stake"@, seq![
                    ("pub_key_hash"@, <PubKeyHash as HasSIRType>::sir_type_spec()),
                ]),
            ("Vote"@, seq![
                    ("d_rep"@, <DRep as HasSIRType>::sir_type_spec()),
                ]),
            ("StakeVote"@, seq![
                    ("pub_key_hash"@, <PubKeyHash as HasSIRType>::sir_type_spec()),
                    ("d_rep"@, <DRep as HasSIRType>::sir_type_spec()),
                ]),
        ]);
        std::option::Option::Some(enum_data_decl("scalus.cardano.onchain.plutus.v3.Delegatee", variants, 0))
    }
}

impl OnchainPartialEq for Delegatee {
    open spec fn sir_eq_spec() -> SirM {
        <Data as OnchainPartialEq>::sir_eq_spec()
    }

    fn sir_eq() -> (r: SIR) {
        <Data as OnchainPartialEq>::sir_eq()
    }
}

impl HasSIRType for TxCert {
    open spec fn sir_type_spec() -> Ty {
        Ty::SumCaseClass("scalus.cardano.onchain.plutus.v3.TxCert"@, Seq::empty())
    }

    fn sir_type() -> (r: SIRType) {
        let args: Vec<SIRType> = Vec::new();
        assert(tys_of(args@) =~= Seq::<Ty>::empty());
        sum_type("scalus.cardano.onchain.plutus.v3.TxCert", args)
    }

    fn sir_data_decl() -> (r: std::option::Option<DataDecl>)
        ensures
            r matches std::option::Option::Some(d) && decl_of(d) == enum_decl_spec(
                "scalus.cardano.onchain.plutus.v3.TxCert"@,
                seq![
                    ("RegStaking"@, seq![
                        ("credential"@, <Credential as HasSIRType>::sir_type_spec()),
                        ("deposit"@, <Option<Integer> as HasSIRType>::sir_type_spec()),
                    ]),
                    ("UnRegStaking"@, seq![
                        ("credential"@, <Credential as HasSIRType>::sir_type_spec()),
                        ("refund"@, <Option<Integer> as HasSIRType>::sir_type_spec()),
                    ]),
                    ("DelegStaking"@, seq![
                        ("credential"@, <Credential as HasSIRType>::sir_type_spec()),
                        ("delegatee"@, <Delegatee as HasSIRType>::sir_type_spec()),
                    ]),
                    ("RegDeleg"@, seq![
                        ("credential"@, <Credential as HasSIRType>::sir_type_spec()),
                        ("delegatee"@, <Delegatee as HasSIRType>::sir_type_spec()),
                        ("deposit"@, <Integer as HasSIRType>::sir_type_spec()),
                    ]),
                    ("RegDRep"@, seq![
                        ("credential"@, <Credential as HasSIRType>::sir_type_spec()),
                        ("deposit"@, <Integer as HasSIRType>::sir_type_spec()),
                    ]),
                    ("UpdateDRep"@, seq![
                        ("credential"@, <Credential as HasSIRType>::sir_type_spec()),
                    ]),
                    ("UnRegDRep"@, seq![
                        ("credential"@, <Credential as HasSIRType>::sir_type_spec()),
                        ("refund"@, <Integer as HasSIRType>::sir_type_spec()),
                    ]),
                    ("PoolRegister"@, seq![
                        ("pool_id"@, <PubKeyHash as HasSIRType>::sir_type_spec()),
                        ("pool_vfr"@, <PubKeyHash as HasSIRType>::sir_type_spec()),
                    ]),
                    ("PoolRetire"@, seq![
                        ("pub_key_hash"@, <PubKeyHash as HasSIRType>::sir_type_spec()),
                        ("epoch"@, <Integer as HasSIRType>::sir_type_spec()),
                    ]),
                    ("AuthHotCommittee"@, seq![
                        ("cold"@, <Credential as HasSIRType>::sir_type_spec()),
                        ("hot"@, <Credential as HasSIRType>::sir_type_spec()),
                    ]),
                    ("ResignColdCommittee"@, seq![
                        ("cold"@, <Credential as HasSIRType>::sir_type_spec()),
                    ]),
                ],
                0,
            ),
    {
        let mut variants: Vec<(String, Vec<TypeBinding>)> = Vec::new();
        let mut f0: Vec<TypeBinding> = Vec::new();
        f0.push(binding("credential", <Credential as HasSIRType>::sir_type()));
        f0.push(binding("deposit", <Option<Integer> as HasSIRType>::sir_type()));
        assert(params_of(f0@) =~= seq![
            ("credential"@, <Credential as HasSIRType>::sir_type_spec()),
            ("deposit"@, <Option<Integer> as HasSIRType>::sir_type_spec()),
        ]);
        variants.push((owned("RegStaking"), f0));
        let mut f1: Vec<TypeBinding> = Vec::new();
        f1.push(binding("credential", <Credential as HasSIRType>::sir_type()));
        f1.push(binding("refund", <Option<Integer> as HasSIRType>::sir_type()));
        assert(params_of(f1@) =~= seq![
            ("credential"@, <Credential as HasSIRType>::sir_type_spec()),
            ("refund"@, <Option<Integer> as HasSIRType>::sir_type_spec()),
        ]);
        variants.push((owned("UnRegStaking"), f1));
        let mut f2: Vec<TypeBinding> = Vec::new();
        f2.push(binding("credential", <Credential as HasSIRType>::sir_type()));
        f2.push(binding("delegatee", <Delegatee as HasSIRType>::sir_type()));
        assert(params_of(f2@) =~= seq![
            ("credential"@, <Credential as HasSIRType>::sir_type_spec()),
            ("delegatee"@, <Delegatee as HasSIRType>::sir_type_spec()),
        ]);
        variants.push((owned("DelegStaking"), f2));
        let mut f3: Vec<TypeBinding> = Vec::new();
        f3.push(binding("credential", <Credential as HasSIRType>::sir_type()));
        f3.push(binding("delegatee", <Delegatee as HasSIRType>::sir_type()));
        f3.push(binding("deposit", <Integer as HasSIRType>::sir_type()));
        assert(params_of(f3@) =~= seq![
            ("credential"@, <Credential as HasSIRType>::sir_type_spec()),
            ("delegatee"@, <Delegatee as HasSIRType>::sir_type_spec()),
            ("deposit"@, <Integer as HasSIRType>::sir_type_spec()),
        ]);
        variants.push((owned("RegDeleg"), f3));
        let mut f4: Vec<TypeBinding> = Vec::new();
        f4.push(binding("credential", <Credential as HasSIRType>::sir_type()));
        f4.push(binding("deposit", <Integer as HasSIRType>::sir_type()));
        assert(params_of(f4@) =~= seq![
            ("credential"@, <Credential as HasSIRType>::sir_type_spec()),
            ("deposit"@, <Integer as HasSIRType>::sir_type_spec()),
        ]);
        variants.push((owned("RegDRep"), f4));
        let mut f5: Vec<TypeBinding> = Vec::new();
        f5.push(binding("credential", <Credential as HasSIRType>::sir_type()));
        assert(params_of(f5@) =~= seq![
            ("credential"@, <Credential as HasSIRType>::sir_type_spec()),
        ]);
        variants.push((owned("UpdateDRep"), f5));
        let mut f6: Vec<TypeBinding> = Vec::new();
        f6.push(binding("credential", <Credential as HasSIRType>::sir_type()));
        f6.push(binding("refund", <Integer as HasSIRType>::sir_type()));
        assert(params_of(f6@) =~= seq![
            ("credential"@, <Credential as HasSIRType>::sir_type_spec()),
            ("refund"@, <Integer as HasSIRType>::sir_type_spec()),
        ]);
        variants.push((owned("UnRegDRep"), f6));
        let mut f7: Vec<TypeBinding> = Vec::new();
        f7.push(binding("pool_id", <PubKeyHash as HasSIRType>::sir_type()));
        f7.push(binding("pool_vfr", <PubKeyHash as HasSIRType>::sir_type()));
        assert(params_of(f7@) =~= seq![
            ("pool_id"@, <PubKeyHash as HasSIRType>::sir_type_spec()),
            ("pool_vfr"@, <PubKeyHash as HasSIRType>::sir_type_spec()),
        ]);
        variants.push((owned("PoolRegister"), f7));
        let mut f8: Vec<TypeBinding> = Vec::new();
        f8.push(binding("pub_key_hash", <PubKeyHash as HasSIRType>::sir_type()));
        f8.push(binding("epoch", <Integer as HasSIRType>::sir_type()));
        assert(params_of(f8@) =~= seq![
            ("pub_key_hash"@, <PubKeyHash as HasSIRType>::sir_type_spec()),
            ("epoch"@, <Integer as HasSIRType>::sir_type_spec()),
        ]);
        variants.push((owned("PoolRetire"), f8));
        let mut f9: Vec<TypeBinding> = Vec::new();
        f9.push(binding("cold", <Credential as HasSIRType>::sir_type()));
        f9.push(binding("hot", <Credential as HasSIRType>::sir_type()));
        assert(params_of(f9@) =~= seq![
            ("cold"@, <Credential as HasSIRType>::sir_type_spec()),
            ("hot"@, <Credential as HasSIRType>::sir_type_spec()),
        ]);
        variants.push((owned("AuthHotCommittee"), f9));
        let mut f10: Vec<TypeBinding> = Vec::new();
        f10.push(binding("cold", <Credential as HasSIRType>::sir_type()));
        assert(params_of(f10@) =~= seq![
            ("cold"@, <Credential as HasSIRType>::sir_type_spec()),
        ]);
        variants.push((owned("ResignColdCommittee"), f10));
        assert(variants@.map_values(|v: (String, Vec<TypeBinding>)| (v.0@, params_of(v.1@))) =~= seq![
            ("RegStaking"@, seq![
                    ("credential"@, <Credential as HasSIRType>::sir_type_spec()),
                    ("deposit"@, <Option<Integer> as HasSIRType>::sir_type_spec()),
                ]),
            ("UnRegStaking"@, seq![
                    ("credential"@, <Credential as HasSIRType>::sir_type_spec()),
                    ("refund"@, <Option<Integer> as HasSIRType>::sir_type_spec()),
                ]),
            ("DelegStaking"@, seq![
                    ("credential"@, <Credential as HasSIRType>::sir_type_spec()),
                    ("delegatee"@, <Delegatee as HasSIRType>::sir_type_spec()),
                ]),
            ("RegDeleg"@, seq![
                    ("credential"@, <Credential as HasSIRType>::sir_type_spec()),
                    ("delegatee"@, <Delegatee as HasSIRType>::sir_type_spec()),
                    ("deposit"@, <Integer as HasSIRType>::sir_type_spec()),
                ]),
            ("RegDRep"@, seq![
                    ("credential"@, <Credential as HasSIRType>::sir_type_spec()),
                    ("deposit"@, <Integer as HasSIRType>::sir_type_spec()),
                ]),
            ("UpdateDRep"@, seq![
                    ("credential"@, <Credential as HasSIRType>::sir_type_spec()),
                ]),
            ("UnRegDRep"@, seq![
                    ("credential"@, <Credential as HasSIRType>::sir_type_spec()),
                    ("refund"@, <Integer as HasSIRType>::sir_type_spec()),
                ]),
            ("PoolRegister"@, seq![
                    ("pool_id"@, <PubKeyHash as HasSIRType>::sir_type_spec()),
                    ("pool_vfr"@, <PubKeyHash as HasSIRType>::sir_type_spec()),
                ]),
            ("PoolRetire"@, seq![
                    ("pub_key_hash"@, <PubKeyHash as HasSIRType>::sir_type_spec()),
                    ("epoch"@, <Integer as HasSIRType>::sir_type_spec()),
                ]),
            ("AuthHotCommittee"@, seq![
                    ("cold"@, <Credential as HasSIRType>::sir_type_spec()),
                    ("hot"@, <Credential as HasSIRType>::sir_type_spec()),
                ]),
            ("ResignColdCommittee"@, seq![
                    ("cold"@, <Credential as HasSIRType>::sir_type_spec()),
                ]),
        ]);
        std::option::Option::Some(enum_data_decl("scalus.cardano.onchain.plutus.v3.TxCert", variants, 0))
    }
}

impl OnchainPartialEq for TxCert {
    open spec fn sir_eq_spec() -> SirM {
        <Data as OnchainPartialEq>::sir_eq_spec()
    }

    fn sir_eq() -> (r: SIR) {
        <Data as OnchainPartialEq>::sir_eq()
    }
}

impl HasSIRType for Voter {
    open spec fn sir_type_spec() -> Ty {
        Ty::SumCaseClass("scalus.cardano.onchain.plutus.v3.Voter"@, Seq::empty())
    }

    fn sir_type() -> (r: SIRType) {
        let args: Vec<SIRType> = Vec::new();
        assert(tys_of(args@) =~= Seq::<Ty>::empty());
        sum_type("scalus.cardano.onchain.plutus.v3.Voter", args)
    }

    fn sir_data_decl() -> (r: std::option::Option<DataDecl>)
        ensures
            r matches std::option::Option::Some(d) && decl_of(d) == enum_decl_spec(
                "scalus.cardano.onchain.plutus.v3.Voter"@,
                seq![
                    ("CommitteeVoter"@, seq![
                        ("credential"@, <Credential as HasSIRType>::sir_type_spec()),
                    ]),
                    ("DRepVoter"@, seq![
                        ("credential"@, <Credential as HasSIRType>::sir_type_spec()),
                    ]),
                    ("StakePoolVoter"@, seq![
                        ("pub_key_hash"@, <PubKeyHash as HasSIRType>::sir_type_spec()),
                    ]),
                ],
                0,
            ),
    {
        let mut variants: Vec<(String, Vec<TypeBinding>)> = Vec::new();
        let mut f0: Vec<TypeBinding> = Vec::new();
        f0.push(binding("credential", <Credential as HasSIRType>::sir_type()));
        assert(params_of(f0@) =~= seq![
            ("credential"@, <Credential as HasSIRType>::sir_type_spec()),
        ]);
        variants.push((owned("CommitteeVoter"), f0));
        let mut f1: Vec<TypeBinding> = Vec::new();
        f1.push(binding("credential", <Credential as HasSIRType>::sir_type()));
        assert(params_of(f1@) =~= seq![
            ("credential"@, <Credential as HasSIRType>::sir_type_spec()),
        ]);
        variants.push((owned("DRepVoter"), f1));
        let mut f2: Vec<TypeBinding> = Vec::new();
        f2.push(binding("pub_key_hash", <PubKeyHash as HasSIRType>::sir_type()));
        assert(params_of(f2@) =~= seq![
            ("pub_key_hash"@, <PubKeyHash as HasSIRType>::sir_type_spec()),
        ]);
        variants.push((owned("StakePoolVoter"), f2));
        assert(variants@.map_values(|v: (String, Vec<TypeBinding>)| (v.0@, params_of(v.1@))) =~= seq![
            ("CommitteeVoter"@, seq![
                    ("credential"@, <Credential as HasSIRType>::sir_type_spec()),
                ]),
            ("DRepVoter"@, seq![
                    ("credential"@, <Credential as HasSIRType>::sir_type_spec()),
                ]),
            ("StakePoolVoter"@, seq![
                    ("pub_key_hash"@, <PubKeyHash as HasSIRType>::sir_type_spec()),
                ]),
        ]);
        std::option::Option::Some(enum_data_decl("scalus.cardano.onchain.plutus.v3.Voter", variants, 0))
    }
}

impl OnchainPartialEq for Voter {
    open spec fn sir_eq_spec() -> SirM {
        <Data as OnchainPartialEq>::sir_eq_spec()
    }

    fn sir_eq() -> (r: SIR) {
        <Data as OnchainPartialEq>::sir_eq()
    }
}

impl HasSIRType for GovernanceActionId {
    open spec fn sir_type_spec() -> Ty {
        Ty::CaseClass("scalus.cardano.onchain.plutus.v3.GovernanceActionId"@, "scalus.cardano.onchain.plutus.v3.GovernanceActionId"@, Seq::empty())
    }

    fn sir_type() -> (r: SIRType) {
        let args: Vec<SIRType> = Vec::new();
        assert(tys_of(args@) =~= Seq::<Ty>::empty());
        case_type("scalus.cardano.onchain.plutus.v3.GovernanceActionId", args)
    }

    fn sir_data_decl() -> (r: std::option::Option<DataDecl>)
        ensures
            r matches std::option::Option::Some(d) && decl_of(d) == struct_decl_spec(
                "scalus.cardano.onchain.plutus.v3.GovernanceActionId"@,
                seq![
                    ("tx_id"@, <TxId as HasSIRType>::sir_type_spec()),
                    ("gov_action_ix"@, <Integer as HasSIRType>::sir_type_spec()),
                ],
                0,
                std::option::Option::None,
            ),
    {
        let mut fields: Vec<TypeBinding> = Vec::new();
        fields.push(binding("tx_id", <TxId as HasSIRType>::sir_type()));
        fields.push(binding("gov_action_ix", <Integer as HasSIRType>::sir_type()));
        assert(params_of(fields@) =~= seq![
            ("tx_id"@, <TxId as HasSIRType>::sir_type_spec()),
            ("gov_action_ix"@, <Integer as HasSIRType>::sir_type_spec()),
        ]);
        std::option::Option::Some(struct_data_decl("scalus.cardano.onchain.plutus.v3.GovernanceActionId", fields, 0, std::option::Option::None))
    }
}

impl OnchainPartialEq for GovernanceActionId {
    open spec fn sir_eq_spec() -> SirM {
        <Data as OnchainPartialEq>::sir_eq_spec()
    }

    fn sir_eq() -> (r: SIR) {
        <Data as OnchainPartialEq>::sir_eq()
    }
}

impl HasSIRType for ProtocolVersion {
    open spec fn sir_type_spec() -> Ty {
        Ty::CaseClass("scalus.cardano.onchain.plutus.v3.ProtocolVersion"@, "scalus.cardano.onchain.plutus.v3.ProtocolVersion"@, Seq::empty())
    }

    fn sir_type() -> (r: SIRType) {
        let args: Vec<SIRType> = Vec::new();
        assert(tys_of(args@) =~= Seq::<Ty>::empty());
        case_type("scalus.cardano.onchain.plutus.v3.ProtocolVersion", args)
    }

    fn sir_data_decl() -> (r: std::option::Option<DataDecl>)
        ensures
            r matches std::option::Option::Some(d) && decl_of(d) == struct_decl_spec(
                "scalus.cardano.onchain.plutus.v3.ProtocolVersion"@,
                seq![
                    ("pv_major"@, <Integer as HasSIRType>::sir_type_spec()),
                    ("pv_minor"@, <Integer as HasSIRType>::sir_type_spec()),
                ],
                0,
                std::option::Option::None,
            ),
    {
        let mut fields: Vec<TypeBinding> = Vec::new();
        fields.push(binding("pv_major", <Integer as HasSIRType>::sir_type()));
        fields.push(binding("pv_minor", <Integer as HasSIRType>::sir_type()));
        assert(params_of(fields@) =~= seq![
            ("pv_major"@, <Integer as HasSIRType>::sir_type_spec()),
            ("pv_minor"@, <Integer as HasSIRType>::sir_type_spec()),
        ]);
        std::option::Option::Some(struct_data_decl("scalus.cardano.onchain.plutus.v3.ProtocolVersion", fields, 0, std::option::Option::None))
    }
}

impl OnchainPartialEq for ProtocolVersion {
    open spec fn sir_eq_spec() -> SirM {
        <Data as OnchainPartialEq>::sir_eq_spec()
    }

    fn sir_eq() -> (r: SIR) {
        <Data as OnchainPartialEq>::sir_eq()
    }
}

impl HasSIRType for GovernanceAction {
    open spec fn sir_type_spec() -> Ty {
        Ty::SumCaseClass("scalus.cardano.onchain.plutus.v3.GovernanceAction"@, Seq::empty())
    }

    fn sir_type() -> (r: SIRType) {
        let args: Vec<SIRType> = Vec::new();
        assert(tys_of(args@) =~= Seq::<Ty>::empty());
        sum_type("scalus.cardano.onchain.plutus.v3.GovernanceAction", args)
    }

    fn sir_data_decl() -> (r: std::option::Option<DataDecl>)
        ensures
            r matches std::option::Option::Some(d) && decl_of(d) == enum_decl_spec(
                "scalus.cardano.onchain.plutus.v3.GovernanceAction"@,
                seq![
                    ("ParameterChange"@, seq![
                        ("id"@, <Option<GovernanceActionId> as HasSIRType>::sir_type_spec()),
                        ("parameters"@, <Data as HasSIRType>::sir_type_spec()),
                        ("constitution_script"@, <Option<Vec<u8>> as HasSIRType>::sir_type_spec()),
                    ]),
                    ("HardForkInitiation"@, seq![
                        ("id"@, <Option<GovernanceActionId> as HasSIRType>::sir_type_spec()),
                        ("protocol_version"@, <ProtocolVersion as HasSIRType>::sir_type_spec()),
                    ]),
                    ("TreasuryWithdrawals"@, seq![
                        ("withdrawals"@, <Data as HasSIRType>::sir_type_spec()),
                        ("constitution_script"@, <Option<Vec<u8>> as HasSIRType>::sir_type_spec()),
                    ]),
                    ("NoConfidence"@, seq![
                        ("id"@, <Option<GovernanceActionId> as HasSIRType>::sir_type_spec()),
                    ]),
                    ("UpdateCommittee"@, seq![
                        ("id"@, <Option<GovernanceActionId> as HasSIRType>::sir_type_spec()),
                        ("removed_members"@, <List<Credential> as HasSIRType>::sir_type_spec()),
                        ("added_members"@, <Data as HasSIRType>::sir_type_spec()),
                        ("new_quorum"@, <Data as HasSIRType>::sir_type_spec()),
                    ]),
                    ("NewConstitution"@, seq![
                        ("id"@, <Option<GovernanceActionId> as HasSIRType>::sir_type_spec()),
                        ("constitution"@, <Option<Vec<u8>> as HasSIRType>::sir_type_spec()),
                    ]),
                    ("InfoAction"@, Seq::empty()),
                ],
                0,
            ),
    {
        let mut variants: Vec<(String, Vec<TypeBinding>)> = Vec::new();
        let mut f0: Vec<TypeBinding> = Vec::new();
        f0.push(binding("id", <Option<GovernanceActionId> as HasSIRType>::sir_type()));
        f0.push(binding("parameters", <Data as HasSIRType>::sir_type()));
        f0.push(binding("constitution_script", <Option<Vec<u8>> as HasSIRType>::sir_type()));
        assert(params_of(f0@) =~= seq![
            ("id"@, <Option<GovernanceActionId> as HasSIRType>::sir_type_spec()),
            ("parameters"@, <Data as HasSIRType>::sir_type_spec()),
            ("constitution_script"@, <Option<Vec<u8>> as HasSIRType>::sir_type_spec()),
        ]);
        variants.push((owned("ParameterChange"), f0));
        let mut f1: Vec<TypeBinding> = Vec::new();
        f1.push(binding("id", <Option<GovernanceActionId> as HasSIRType>::sir_type()));
        f1.push(binding("protocol_version", <ProtocolVersion as HasSIRType>::sir_type()));
        assert(params_of(f1@) =~= seq![
            ("id"@, <Option<GovernanceActionId> as HasSIRType>::sir_type_spec()),
            ("protocol_version"@, <ProtocolVersion as HasSIRType>::sir_type_spec()),
        ]);
        variants.push((owned("HardForkInitiation"), f1));
        let mut f2: Vec<TypeBinding> = Vec::new();
        f2.push(binding("withdrawals", <Data as HasSIRType>::sir_type()));
        f2.push(binding("constitution_script", <Option<Vec<u8>> as HasSIRType>::sir_type()));
        assert(params_of(f2@) =~= seq![
            ("withdrawals"@, <Data as HasSIRType>::sir_type_spec()),
            ("constitution_script"@, <Option<Vec<u8>> as HasSIRType>::sir_type_spec()),
        ]);
        variants.push((owned("TreasuryWithdrawals"), f2));
        let mut f3: Vec<TypeBinding> = Vec::new();
        f3.push(binding("id", <Option<GovernanceActionId> as HasSIRType>::sir_type()));
        assert(params_of(f3@) =~= seq![
            ("id"@, <Option<GovernanceActionId> as HasSIRType>::sir_type_spec()),
        ]);
        variants.push((owned("NoConfidence"), f3));
        let mut f4: Vec<TypeBinding> = Vec::new();
        f4.push(binding("id", <Option<GovernanceActionId> as HasSIRType>::sir_type()));
        f4.push(binding("removed_members", <List<Credential> as HasSIRType>::sir_type()));
        f4.push(binding("added_members", <Data as HasSIRType>::sir_type()));
        f4.push(binding("new_quorum", <Data as HasSIRType>::sir_type()));
        assert(params_of(f4@) =~= seq![
            ("id"@, <Option<GovernanceActionId> as HasSIRType>::sir_type_spec()),
            ("removed_members"@, <List<Credential> as HasSIRType>::sir_type_spec()),
            ("added_members"@, <Data as HasSIRType>::sir_type_spec()),
            ("new_quorum"@, <Data as HasSIRType>::sir_type_spec()),
        ]);
        variants.push((owned("UpdateCommittee"), f4));
        let mut f5: Vec<TypeBinding> = Vec::new();
        f5.push(binding("id", <Option<GovernanceActionId> as HasSIRType>::sir_type()));
        f5.push(binding("constitution", <Option<Vec<u8>> as HasSIRType>::sir_type()));
        assert(params_of(f5@) =~= seq![
            ("id"@, <Option<GovernanceActionId> as HasSIRType>::sir_type_spec()),
            ("constitution"@, <Option<Vec<u8>> as HasSIRType>::sir_type_spec()),
        ]);
        variants.push((owned("NewConstitution"), f5));
        let f6: Vec<TypeBinding> = Vec::new();
        assert(params_of(f6@) =~= Seq::<(Seq<char>, Ty)>::empty());
        variants.push((owned("InfoAction"), f6));
        assert(variants@.map_values(|v: (String, Vec<TypeBinding>)| (v.0@, params_of(v.1@))) =~= seq![
            ("ParameterChange"@, seq![
                    ("id"@, <Option<GovernanceActionId> as HasSIRType>::sir_type_spec()),
                    ("parameters"@, <Data as HasSIRType>::sir_type_spec()),
                    ("constitution_script"@, <Option<Vec<u8>> as HasSIRType>::sir_type_spec()),
                ]),
            ("HardForkInitiation"@, seq![
                    ("id"@, <Option<GovernanceActionId> as HasSIRType>::sir_type_spec()),
                    ("protocol_version"@, <ProtocolVersion as HasSIRType>::sir_type_spec()),
                ]),
            ("TreasuryWithdrawals"@, seq![
                    ("withdrawals"@, <Data as HasSIRType>::sir_type_spec()),
                    ("constitution_script"@, <Option<Vec<u8>> as HasSIRType>::sir_type_spec()),
                ]),
            ("NoConfidence"@, seq![
                    ("id"@, <Option<GovernanceActionId> as HasSIRType>::sir_type_spec()),
                ]),
            ("UpdateCommittee"@, seq![
                    ("id"@, <Option<GovernanceActionId> as HasSIRType>::sir_type_spec()),
                    ("removed_members"@, <List<Credential> as HasSIRType>::sir_type_spec()),
                    ("added_members"@, <Data as HasSIRType>::sir_type_spec()),
                    ("new_quorum"@, <Data as HasSIRType>::sir_type_spec()),
                ]),
            ("NewConstitution"@, seq![
                    ("id"@, <Option<GovernanceActionId> as HasSIRType>::sir_type_spec()),
                    ("constitution"@, <Option<Vec<u8>> as HasSIRType>::sir_type_spec()),
                ]),
            ("InfoAction"@, Seq::empty()),
        ]);
        std::option::Option::Some(enum_data_decl("scalus.cardano.onchain.plutus.v3.GovernanceAction", variants, 0))
    }
}

impl OnchainPartialEq for GovernanceAction {
    open spec fn sir_eq_spec() -> SirM {
        <Data as OnchainPartialEq>::sir_eq_spec()
    }

    fn sir_eq() -> (r: SIR) {
        <Data as OnchainPartialEq>::sir_eq()
    }
}

impl HasSIRType for ProposalProcedure {
    open spec fn sir_type_spec() -> Ty {
        Ty::CaseClass("scalus.cardano.onchain.plutus.v3.ProposalProcedure"@, "scalus.cardano.onchain.plutus.v3.ProposalProcedure"@, Seq::empty())
    }

    fn sir_type() -> (r: SIRType) {
        let args: Vec<SIRType> = Vec::new();
        assert(tys_of(args@) =~= Seq::<Ty>::empty());
        case_type("scalus.cardano.onchain.plutus.v3.ProposalProcedure", args)
    }

    fn sir_data_decl() -> (r: std::option::Option<DataDecl>)
        ensures
            r matches std::option::Option::Some(d) && decl_of(d) == struct_decl_spec(
                "scalus.cardano.onchain.plutus.v3.ProposalProcedure"@,
                seq![
                    ("deposit"@, <Integer as HasSIRType>::sir_type_spec()),
                    ("return_address"@, <Credential as HasSIRType>::sir_type_spec()),
                    ("governance_action"@, <GovernanceAction as HasSIRType>::sir_type_spec()),
                ],
                0,
                std::option::Option::None,
            ),
    {
        let mut fields: Vec<TypeBinding> = Vec::new();
        fields.push(binding("deposit", <Integer as HasSIRType>::sir_type()));
        fields.push(binding("return_address", <Credential as HasSIRType>::sir_type()));
        fields.push(binding("governance_action", <GovernanceAction as HasSIRType>::sir_type()));
        assert(params_of(fields@) =~= seq![
            ("deposit"@, <Integer as HasSIRType>::sir_type_spec()),
            ("return_address"@, <Credential as HasSIRType>::sir_type_spec()),
            ("governance_action"@, <GovernanceAction as HasSIRType>::sir_type_spec()),
        ]);
        std::option::Option::Some(struct_data_decl("scalus.cardano.onchain.plutus.v3.ProposalProcedure", fields, 0, std::option::Option::None))
    }
}

impl OnchainPartialEq for ProposalProcedure {
    open spec fn sir_eq_spec() -> SirM {
        <Data as OnchainPartialEq>::sir_eq_spec()
    }

    fn sir_eq() -> (r: SIR) {
        <Data as OnchainPartialEq>::sir_eq()
    }
}

impl HasSIRType for ScriptPurpose {
    open spec fn sir_type_spec() -> Ty {
        Ty::SumCaseClass("scalus.cardano.onchain.plutus.v3.ScriptPurpose"@, Seq::empty())
    }

    fn sir_type() -> (r: SIRType) {
        let args: Vec<SIRType> = Vec::new();
        assert(tys_of(args@) =~= Seq::<Ty>::empty());
        sum_type("scalus.cardano.onchain.plutus.v3.ScriptPurpose", args)
    }

    fn sir_data_decl() -> (r: std::option::Option<DataDecl>)
        ensures
            r matches std::option::Option::Some(d) && decl_of(d) == enum_decl_spec(
                "scalus.cardano.onchain.plutus.v3.ScriptPurpose"@,
                seq![
                    ("Minting"@, seq![
                        ("policy_id"@, <Vec<u8> as HasSIRType>::sir_type_spec()),
                    ]),
                    ("Spending"@, seq![
                        ("tx_out_ref"@, <TxOutRef as HasSIRType>::sir_type_spec()),
                    ]),
                    ("Rewarding"@, seq![
                        ("credential"@, <Credential as HasSIRType>::sir_type_spec()),
                    ]),
                    ("Certifying"@, seq![
                        ("index"@, <Integer as HasSIRType>::sir_type_spec()),
                        ("cert"@, <TxCert as HasSIRType>::sir_type_spec()),
                    ]),
                    ("Voting"@, seq![
                        ("voter"@, <Voter as HasSIRType>::sir_type_spec()),
                    ]),
                    ("Proposing"@, seq![
                        ("index"@, <Integer as HasSIRType>::sir_type_spec()),
                        ("procedure"@, <ProposalProcedure as HasSIRType>::sir_type_spec()),
                    ]),
                ],
                0,
            ),
    {
        let mut variants: Vec<(String, Vec<TypeBinding>)> = Vec::new();
        let mut f0: Vec<TypeBinding> = Vec::new();
        f0.push(binding("policy_id", <Vec<u8> as HasSIRType>::sir_type()));
        assert(params_of(f0@) =~= seq![
            ("policy_id"@, <Vec<u8> as HasSIRType>::sir_type_spec()),
        ]);
        variants.push((owned("Minting"), f0));
        let mut f1: Vec<TypeBinding> = Vec::new();
        f1.push(binding("tx_out_ref", <TxOutRef as HasSIRType>::sir_type()));
        assert(params_of(f1@) =~= seq![
            ("tx_out_ref"@, <TxOutRef as HasSIRType>::sir_type_spec()),
        ]);
        variants.push((owned("Spending"), f1));
        let mut f2: Vec<TypeBinding> = Vec::new();
        f2.push(binding("credential", <Credential as HasSIRType>::sir_type()));
        assert(params_of(f2@) =~= seq![
            ("credential"@, <Credential as HasSIRType>::sir_type_spec()),
        ]);
        variants.push((owned("Rewarding"), f2));
        let mut f3: Vec<TypeBinding> = Vec::new();
        f3.push(binding("index", <Integer as HasSIRType>::sir_type()));
        f3.push(binding("cert", <TxCert as HasSIRType>::sir_type()));
        assert(params_of(f3@) =~= seq![
            ("index"@, <Integer as HasSIRType>::sir_type_spec()),
            ("cert"@, <TxCert as HasSIRType>::sir_type_spec()),
        ]);
        variants.push((owned("Certifying"), f3));
        let mut f4: Vec<TypeBinding> = Vec::new();
        f4.push(binding("voter", <Voter as HasSIRType>::sir_type()));
        assert(params_of(f4@) =~= seq![
            ("voter"@, <Voter as HasSIRType>::sir_type_spec()),
        ]);
        variants.push((owned("Voting"), f4));
        let mut f5: Vec<TypeBinding> = Vec::new();
        f5.push(binding("index", <Integer as HasSIRType>::sir_type()));
        f5.push(binding("procedure", <ProposalProcedure as HasSIRType>::sir_type()));
        assert(params_of(f5@) =~= seq![
            ("index"@, <Integer as HasSIRType>::sir_type_spec()),
            ("procedure"@, <ProposalProcedure as HasSIRType>::sir_type_spec()),
        ]);
        variants.push((owned("Proposing"), f5));
        assert(variants@.map_values(|v: (String, Vec<TypeBinding>)| (v.0@, params_of(v.1@))) =~= seq![
            ("Minting"@, seq![
                    ("policy_id"@, <Vec<u8> as HasSIRType>::sir_type_spec()),
                ]),
            ("Spending"@, seq![
                    ("tx_out_ref"@, <TxOutRef as HasSIRType>::sir_type_spec()),
                ]),
            ("Rewarding"@, seq![
                    ("credential"@, <Credential as HasSIRType>::sir_type_spec()),
                ]),
            ("Certifying"@, seq![
                    ("index"@, <Integer as HasSIRType>::sir_type_spec()),
                    ("cert"@, <TxCert as HasSIRType>::sir_type_spec()),
                ]),
            ("Voting"@, seq![
                    ("voter"@, <Voter as HasSIRType>::sir_type_spec()),
                ]),
            ("Proposing"@, seq![
                    ("index"@, <Integer as HasSIRType>::sir_type_spec()),
                    ("procedure"@, <ProposalProcedure as HasSIRType>::sir_type_spec()),
                ]),
        ]);
        std::option::Option::Some(enum_data_decl("scalus.cardano.onchain.plutus.v3.ScriptPurpose", variants, 0))
    }
}

impl OnchainPartialEq for ScriptPurpose {
    open spec fn sir_eq_spec() -> SirM {
        <Data as OnchainPartialEq>::sir_eq_spec()
    }

    fn sir_eq() -> (r: SIR) {
        <Data as OnchainPartialEq>::sir_eq()
    }
}

impl HasSIRType for ScriptInfo {
    open spec fn sir_type_spec() -> Ty {
        Ty::SumCaseClass("scalus.cardano.onchain.plutus.v3.ScriptInfo"@, Seq::empty())
    }

    fn sir_type() -> (r: SIRType) {
        let args: Vec<SIRType> = Vec::new();
        assert(tys_of(args@) =~= Seq::<Ty>::empty());
        sum_type("scalus.cardano.onchain.plutus.v3.ScriptInfo", args)
    }

    fn sir_data_decl() -> (r: std::option::Option<DataDecl>)
        ensures
            r matches std::option::Option::Some(d) && decl_of(d) == enum_decl_spec(
                "scalus.cardano.onchain.plutus.v3.ScriptInfo"@,
                seq![
                    ("MintingScript"@, seq![
                        ("policy_id"@, <Vec<u8> as HasSIRType>::sir_type_spec()),
                    ]),
                    ("SpendingScript"@, seq![
                        ("tx_out_ref"@, <TxOutRef as HasSIRType>::sir_type_spec()),
                        ("datum"@, <Option<Data> as HasSIRType>::sir_type_spec()),
                    ]),
                    ("RewardingScript"@, seq![
                        ("credential"@, <Credential as HasSIRType>::sir_type_spec()),
                    ]),
                    ("CertifyingScript"@, seq![
                        ("index"@, <Integer as HasSIRType>::sir_type_spec()),
                        ("cert"@, <TxCert as HasSIRType>::sir_type_spec()),
                    ]),
                    ("VotingScript"@, seq![
                        ("voter"@, <Voter as HasSIRType>::sir_type_spec()),
                    ]),
                    ("ProposingScript"@, seq![
                        ("index"@, <Integer as HasSIRType>::sir_type_spec()),
                        ("procedure"@, <ProposalProcedure as HasSIRType>::sir_type_spec()),
                    ]),
                ],
                0,
            ),
    {
        let mut variants: Vec<(String, Vec<TypeBinding>)> = Vec::new();
        let mut f0: Vec<TypeBinding> = Vec::new();
        f0.push(binding("policy_id", <Vec<u8> as HasSIRType>::sir_type()));
        assert(params_of(f0@) =~= seq![
            ("policy_id"@, <Vec<u8> as HasSIRType>::sir_type_spec()),
        ]);
        variants.push((owned("MintingScript"), f0));
        let mut f1: Vec<TypeBinding> = Vec::new();
        f1.push(binding("tx_out_ref", <TxOutRef as HasSIRType>::sir_type()));
        f1.push(binding("datum", <Option<Data> as HasSIRType>::sir_type()));
        assert(params_of(f1@) =~= seq![
            ("tx_out_ref"@, <TxOutRef as HasSIRType>::sir_type_spec()),
            ("datum"@, <Option<Data> as HasSIRType>::sir_type_spec()),
        ]);
        variants.push((owned("SpendingScript"), f1));
        let mut f2: Vec<TypeBinding> = Vec::new();
        f2.push(binding("credential", <Credential as HasSIRType>::sir_type()));
        assert(params_of(f2@) =~= seq![
            ("credential"@, <Credential as HasSIRType>::sir_type_spec()),
        ]);
        variants.push((owned("RewardingScript"), f2));
        let mut f3: Vec<TypeBinding> = Vec::new();
        f3.push(binding("index", <Integer as HasSIRType>::sir_type()));
        f3.push(binding("cert", <TxCert as HasSIRType>::sir_type()));
        assert(params_of(f3@) =~= seq![
            ("index"@, <Integer as HasSIRType>::sir_type_spec()),
            ("cert"@, <TxCert as HasSIRType>::sir_type_spec()),
        ]);
        variants.push((owned("CertifyingScript"), f3));
        let mut f4: Vec<TypeBinding> = Vec::new();
        f4.push(binding("voter", <Voter as HasSIRType>::sir_type()));
        assert(params_of(f4@) =~= seq![
            ("voter"@, <Voter as HasSIRType>::sir_type_spec()),
        ]);
        variants.push((owned("VotingScript"), f4));
        let mut f5: Vec<TypeBinding> = Vec::new();
        f5.push(binding("index", <Integer as HasSIRType>::sir_type()));
        f5.push(binding("procedure", <ProposalProcedure as HasSIRType>::sir_type()));
        assert(params_of(f5@) =~= seq![
            ("index"@, <Integer as HasSIRType>::sir_type_spec()),
            ("procedure"@, <ProposalProcedure as HasSIRType>::sir_type_spec()),
        ]);
        variants.push((owned("ProposingScript"), f5));
        assert(variants@.map_values(|v: (String, Vec<TypeBinding>)| (v.0@, params_of(v.1@))) =~= seq![
            ("MintingScript"@, seq![
                    ("policy_id"@, <Vec<u8> as HasSIRType>::sir_type_spec()),
                ]),
            ("SpendingScript"@, seq![
                    ("tx_out_ref"@, <TxOutRef as HasSIRType>::sir_type_spec()),
                    ("datum"@, <Option<Data> as HasSIRType>::sir_type_spec()),
                ]),
            ("RewardingScript"@, seq![
                    ("credential"@, <Credential as HasSIRType>::sir_type_spec()),
                ]),
            ("CertifyingScript"@, seq![
                    ("index"@, <Integer as HasSIRType>::sir_type_spec()),
                    ("cert"@, <TxCert as HasSIRType>::sir_type_spec()),
                ]),
            ("VotingScript"@, seq![
                    ("voter"@, <Voter as HasSIRType>::sir_type_spec()),
                ]),
            ("ProposingScript"@, seq![
                    ("index"@, <Integer as HasSIRType>::sir_type_spec()),
                    ("procedure"@, <ProposalProcedure as HasSIRType>::sir_type_spec()),
                ]),
        ]);
        std::option::Option::Some(enum_data_decl("scalus.cardano.onchain.plutus.v3.ScriptInfo", variants, 0))
    }
}

impl OnchainPartialEq for ScriptInfo {
    open spec fn sir_eq_spec() -> SirM {
        <Data as OnchainPartialEq>::sir_eq_spec()
    }

    fn sir_eq() -> (r: SIR) {
        <Data as OnchainPartialEq>::sir_eq()
    }
}

impl HasSIRType for OutputDatum {
    open spec fn sir_type_spec() -> Ty {
        Ty::SumCaseClass("scalus.cardano.onchain.plutus.v2.OutputDatum"@, Seq::empty())
    }

    fn sir_type() -> (r: SIRType) {
        let args: Vec<SIRType> = Vec::new();
        assert(tys_of(args@) =~= Seq::<Ty>::empty());
        sum_type("scalus.cardano.onchain.plutus.v2.OutputDatum", args)
    }

    fn sir_data_decl() -> (r: std::option::Option<DataDecl>)
        ensures
            r matches std::option::Option::Some(d) && decl_of(d) == enum_decl_spec(
                "scalus.cardano.onchain.plutus.v2.OutputDatum"@,
                seq![
                    ("NoOutputDatum"@, Seq::empty()),
                    ("OutputDatumHash"@, seq![
                        ("hash"@, <Vec<u8> as HasSIRType>::sir_type_spec()),
                    ]),
                    ("OutputDatum"@, seq![
                        ("datum"@, <Data as HasSIRType>::sir_type_spec()),
                    ]),
                ],
                0,
            ),
    {
        let mut variants: Vec<(String, Vec<TypeBinding>)> = Vec::new();
        let f0: Vec<TypeBinding> = Vec::new();
        assert(params_of(f0@) =~= Seq::<(Seq<char>, Ty)>::empty());
        variants.push((owned("NoOutputDatum"), f0));
        let mut f1: Vec<TypeBinding> = Vec::new();
        f1.push(binding("hash", <Vec<u8> as HasSIRType>::sir_type()));
        assert(params_of(f1@) =~= seq![
            ("hash"@, <Vec<u8> as HasSIRType>::sir_type_spec()),
        ]);
        variants.push((owned("OutputDatumHash"), f1));
        let mut f2: Vec<TypeBinding> = Vec::new();
        f2.push(binding("datum", <Data as HasSIRType>::sir_type()));
        assert(params_of(f2@) =~= seq![
            ("datum"@, <Data as HasSIRType>::sir_type_spec()),
        ]);
        variants.push((owned("OutputDatum"), f2));
        assert(variants@.map_values(|v: (String, Vec<TypeBinding>)| (v.0@, params_of(v.1@))) =~= seq![
            ("NoOutputDatum"@, Seq::empty()),
            ("OutputDatumHash"@, seq![
                    ("hash"@, <Vec<u8> as HasSIRType>::sir_type_spec()),
                ]),
            ("OutputDatum"@, seq![
                    ("datum"@, <Data as HasSIRType>::sir_type_spec()),
                ]),
        ]);
        std::option::Option::Some(enum_data_decl("scalus.cardano.onchain.plutus.v2.OutputDatum", variants, 0))
    }
}

impl OnchainPartialEq for OutputDatum {
    open spec fn sir_eq_spec() -> SirM {
        <Data as OnchainPartialEq>::sir_eq_spec()
    }

    fn sir_eq() -> (r: SIR) {
        <Data as OnchainPartialEq>::sir_eq()
    }
}

impl HasSIRType for TxOut {
    open spec fn sir_type_spec() -> Ty {
        Ty::CaseClass("scalus.cardano.onchain.plutus.v2.TxOut"@, "scalus.cardano.onchain.plutus.v2.TxOut"@, Seq::empty())
    }

    fn sir_type() -> (r: SIRType) {
        let args: Vec<SIRType> = Vec::new();
        assert(tys_of(args@) =~= Seq::<Ty>::empty());
        case_type("scalus.cardano.onchain.plutus.v2.TxOut", args)
    }

    fn sir_data_decl() -> (r: std::option::Option<DataDecl>)
        ensures
            r matches std::option::Option::Some(d) && decl_of(d) == struct_decl_spec(
                "scalus.cardano.onchain.plutus.v2.TxOut"@,
                seq![
                    ("address"@, <Address as HasSIRType>::sir_type_spec()),
                    ("value"@, <Value as HasSIRType>::sir_type_spec()),
                    ("datum"@, <OutputDatum as HasSIRType>::sir_type_spec()),
                    ("reference_script"@, <Option<Vec<u8>> as HasSIRType>::sir_type_spec()),
                ],
                0,
                std::option::Option::None,
            ),
    {
        let mut fields: Vec<TypeBinding> = Vec::new();
        fields.push(binding("address", <Address as HasSIRType>::sir_type()));
        fields.push(binding("value", <Value as HasSIRType>::sir_type()));
        fields.push(binding("datum", <OutputDatum as HasSIRType>::sir_type()));
        fields.push(binding("reference_script", <Option<Vec<u8>> as HasSIRType>::sir_type()));
        assert(params_of(fields@) =~= seq![
            ("address"@, <Address as HasSIRType>::sir_type_spec()),
            ("value"@, <Value as HasSIRType>::sir_type_spec()),
            ("datum"@, <OutputDatum as HasSIRType>::sir_type_spec()),
            ("reference_script"@, <Option<Vec<u8>> as HasSIRType>::sir_type_spec()),
        ]);
        std::option::Option::Some(struct_data_decl("scalus.cardano.onchain.plutus.v2.TxOut", fields, 0, std::option::Option::None))
    }
}

impl OnchainPartialEq for TxOut {
    open spec fn sir_eq_spec() -> SirM {
        <Data as OnchainPartialEq>::sir_eq_spec()
    }

    fn sir_eq() -> (r: SIR) {
        <Data as OnchainPartialEq>::sir_eq()
    }
}

impl HasSIRType for TxInInfo {
    open spec fn sir_type_spec() -> Ty {
        Ty::CaseClass("scalus.cardano.onchain.plutus.v3.TxInInfo"@, "scalus.cardano.onchain.plutus.v3.TxInInfo"@, Seq::empty())
    }

    fn sir_type() -> (r: SIRType) {
        let args: Vec<SIRType> = Vec::new();
        assert(tys_of(args@) =~= Seq::<Ty>::empty());
        case_type("scalus.cardano.onchain.plutus.v3.TxInInfo", args)
    }

    fn sir_data_decl() -> (r: std::option::Option<DataDecl>)
        ensures
            r matches std::option::Option::Some(d) && decl_of(d) == struct_decl_spec(
                "scalus.cardano.onchain.plutus.v3.TxInInfo"@,
                seq![
                    ("out_ref"@, <TxOutRef as HasSIRType>::sir_type_spec()),
                    ("resolved"@, <TxOut as HasSIRType>::sir_type_spec()),
                ],
                0,
                std::option::Option::None,
            ),
    {
        let mut fields: Vec<TypeBinding> = Vec::new();
        fields.push(binding("out_ref", <TxOutRef as HasSIRType>::sir_type()));
        fields.push(binding("resolved", <TxOut as HasSIRType>::sir_type()));
        assert(params_of(fields@) =~= seq![
            ("out_ref"@, <TxOutRef as HasSIRType>::sir_type_spec()),
            ("resolved"@, <TxOut as HasSIRType>::sir_type_spec()),
        ]);
        std::option::Option::Some(struct_data_decl("scalus.cardano.onchain.plutus.v3.TxInInfo", fields, 0, std::option::Option::None))
    }
}

impl OnchainPartialEq for TxInInfo {
    open spec fn sir_eq_spec() -> SirM {
        <Data as OnchainPartialEq>::sir_eq_spec()
    }

    fn sir_eq() -> (r: SIR) {
        <Data as OnchainPartialEq>::sir_eq()
    }
}

impl HasSIRType for TxInfo {
    open spec fn sir_type_spec() -> Ty {
        Ty::CaseClass("scalus.cardano.onchain.plutus.v3.TxInfo"@, "scalus.cardano.onchain.plutus.v3.TxInfo"@, Seq::empty())
    }

    fn sir_type() -> (r: SIRType) {
        let args: Vec<SIRType> = Vec::new();
        assert(tys_of(args@) =~= Seq::<Ty>::empty());
        case_type("scalus.cardano.onchain.plutus.v3.TxInfo", args)
    }

    fn sir_data_decl() -> (r: std::option::Option<DataDecl>)
        ensures
            r matches std::option::Option::Some(d) && decl_of(d) == struct_decl_spec(
                "scalus.cardano.onchain.plutus.v3.TxInfo"@,
                seq![
                    ("inputs"@, <List<TxInInfo> as HasSIRType>::sir_type_spec()),
                    ("reference_inputs"@, <List<TxInInfo> as HasSIRType>::sir_type_spec()),
                    ("outputs"@, <List<TxOut> as HasSIRType>::sir_type_spec()),
                    ("fee"@, <Integer as HasSIRType>::sir_type_spec()),
                    ("mint"@, <Value as HasSIRType>::sir_type_spec()),
                    ("certificates"@, <List<TxCert> as HasSIRType>::sir_type_spec()),
                    ("withdrawals"@, <SortedMap<Credential, Integer> as HasSIRType>::sir_type_spec()),
                    ("valid_range"@, <Data as HasSIRType>::sir_type_spec()),
                    ("signatories"@, <List<PubKeyHash> as HasSIRType>::sir_type_spec()),
                    ("redeemers"@, <SortedMap<ScriptPurpose, Data> as HasSIRType>::sir_type_spec()),
                    ("data"@, <SortedMap<Vec<u8>, Data> as HasSIRType>::sir_type_spec()),
                    ("id"@, <TxId as HasSIRType>::sir_type_spec()),
                    ("votes"@, <SortedMap<Voter, SortedMap<GovernanceActionId, Vote>> as HasSIRType>::sir_type_spec()),
                    ("proposal_procedures"@, <List<ProposalProcedure> as HasSIRType>::sir_type_spec()),
                    ("current_treasury_amount"@, <Option<Integer> as HasSIRType>::sir_type_spec()),
                    ("treasury_donation"@, <Option<Integer> as HasSIRType>::sir_type_spec()),
                ],
                0,
                std::option::Option::None,
            ),
    {
        let mut fields: Vec<TypeBinding> = Vec::new();
        fields.push(binding("inputs", <List<TxInInfo> as HasSIRType>::sir_type()));
        fields.push(binding("reference_inputs", <List<TxInInfo> as HasSIRType>::sir_type()));
        fields.push(binding("outputs", <List<TxOut> as HasSIRType>::sir_type()));
        fields.push(binding("fee", <Integer as HasSIRType>::sir_type()));
        fields.push(binding("mint", <Value as HasSIRType>::sir_type()));
        fields.push(binding("certificates", <List<TxCert> as HasSIRType>::sir_type()));
        fields.push(binding("withdrawals", <SortedMap<Credential, Integer> as HasSIRType>::sir_type()));
        fields.push(binding("valid_range", <Data as HasSIRType>::sir_type()));
        fields.push(binding("signatories", <List<PubKeyHash> as HasSIRType>::sir_type()));
        fields.push(binding("redeemers", <SortedMap<ScriptPurpose, Data> as HasSIRType>::sir_type()));
        fields.push(binding("data", <SortedMap<Vec<u8>, Data> as HasSIRType>::sir_type()));
        fields.push(binding("id", <TxId as HasSIRType>::sir_type()));
        fields.push(binding("votes", <SortedMap<Voter, SortedMap<GovernanceActionId, Vote>> as HasSIRType>::sir_type()));
        fields.push(binding("proposal_procedures", <List<ProposalProcedure> as HasSIRType>::sir_type()));
        fields.push(binding("current_treasury_amount", <Option<Integer> as HasSIRType>::sir_type()));
        fields.push(binding("treasury_donation", <Option<Integer> as HasSIRType>::sir_type()));
        assert(params_of(fields@) =~= seq![
            ("inputs"@, <List<TxInInfo> as HasSIRType>::sir_type_spec()),
            ("reference_inputs"@, <List<TxInInfo> as HasSIRType>::sir_type_spec()),
            ("outputs"@, <List<TxOut> as HasSIRType>::sir_type_spec()),
            ("fee"@, <Integer as HasSIRType>::sir_type_spec()),
            ("mint"@, <Value as HasSIRType>::sir_type_spec()),
            ("certificates"@, <List<TxCert> as HasSIRType>::sir_type_spec()),
            ("withdrawals"@, <SortedMap<Credential, Integer> as HasSIRType>::sir_type_spec()),
            ("valid_range"@, <Data as HasSIRType>::sir_type_spec()),
            ("signatories"@, <List<PubKeyHash> as HasSIRType>::sir_type_spec()),
            ("redeemers"@, <SortedMap<ScriptPurpose, Data> as HasSIRType>::sir_type_spec()),
            ("data"@, <SortedMap<Vec<u8>, Data> as HasSIRType>::sir_type_spec()),
            ("id"@, <TxId as HasSIRType>::sir_type_spec()),
            ("votes"@, <SortedMap<Voter, SortedMap<GovernanceActionId, Vote>> as HasSIRType>::sir_type_spec()),
            ("proposal_procedures"@, <List<ProposalProcedure> as HasSIRType>::sir_type_spec()),
            ("current_treasury_amount"@, <Option<Integer> as HasSIRType>::sir_type_spec()),
            ("treasury_donation"@, <Option<Integer> as HasSIRType>::sir_type_spec()),
        ]);
        std::option::Option::Some(struct_data_decl("scalus.cardano.onchain.plutus.v3.TxInfo", fields, 0, std::option::Option::None))
    }
}

impl OnchainPartialEq for TxInfo {
    open spec fn sir_eq_spec() -> SirM {
        <Data as OnchainPartialEq>::sir_eq_spec()
    }

    fn sir_eq() -> (r: SIR) {
        <Data as OnchainPartialEq>::sir_eq()
    }
}

impl HasSIRType for ScriptContext {
    open spec fn sir_type_spec() -> Ty {
        Ty::CaseClass("scalus.cardano.onchain.plutus.v3.ScriptContext"@, "scalus.cardano.onchain.plutus.v3.ScriptContext"@, Seq::empty())
    }

    fn sir_type() -> (r: SIRType) {
        let args: Vec<SIRType> = Vec::new();
        assert(tys_of(args@) =~= Seq::<Ty>::empty());
        case_type("scalus.cardano.onchain.plutus.v3.ScriptContext", args)
    }

    fn sir_data_decl() -> (r: std::option::Option<DataDecl>)
        ensures
            r matches std::option::Option::Some(d) && decl_of(d) == struct_decl_spec(
                "scalus.cardano.onchain.plutus.v3.ScriptContext"@,
                seq![
                    ("tx_info"@, <TxInfo as HasSIRType>::sir_type_spec()),
                    ("redeemer"@, <Data as HasSIRType>::sir_type_spec()),
                    ("script_info"@, <ScriptInfo as HasSIRType>::sir_type_spec()),
                ],
                0,
                std::option::Option::None,
            ),
    {
        let mut fields: Vec<TypeBinding> = Vec::new();
        fields.push(binding("tx_info", <TxInfo as HasSIRType>::sir_type()));
        fields.push(binding("redeemer", <Data as HasSIRType>::sir_type()));
        fields.push(binding("script_info", <ScriptInfo as HasSIRType>::sir_type()));
        assert(params_of(fields@) =~= seq![
            ("tx_info"@, <TxInfo as HasSIRType>::sir_type_spec()),
            ("redeemer"@, <Data as HasSIRType>::sir_type_spec()),
            ("script_info"@, <ScriptInfo as HasSIRType>::sir_type_spec()),
        ]);
        std::option::Option::Some(struct_data_decl("scalus.cardano.onchain.plutus.v3.ScriptContext", fields, 0, std::option::Option::None))
    }
}

impl OnchainPartialEq for ScriptContext {
    open spec fn sir_eq_spec() -> SirM {
        <Data as OnchainPartialEq>::sir_eq_spec()
    }

    fn sir_eq() -> (r: SIR) {
        <Data as OnchainPartialEq>::sir_eq()
    }
}

// ---------------------------------------------------------------------------
// Decoding
// ---------------------------------------------------------------------------

impl FromData for Vote {
    open spec fn decodable(d: DataM) -> bool {
        match d {
            DataM::Constr(tag, args) => (tag == 0)
                || (tag == 1)
                || (tag == 2),
            _ => false,
        }
    }

    open spec fn decodes_to(d: DataM, v: Vote) -> bool {
        match v {
            Vote::No => d matches DataM::Constr(tag, _) && tag == 0,
            Vote::Yes => d matches DataM::Constr(tag, _) && tag == 1,
            Vote::Abstain => d matches DataM::Constr(tag, _) && tag == 2,
        }
    }

    open spec fn decode_error(d: DataM) -> DataError {
        match d {
            DataM::Constr(tag, args) => if tag == 0 {
                DataError::UnexpectedTag { expected: "Vote", got: tag }
            } else if tag == 1 {
                DataError::UnexpectedTag { expected: "Vote", got: tag }
            } else if tag == 2 {
                DataError::UnexpectedTag { expected: "Vote", got: tag }
            } else {
                DataError::UnexpectedTag { expected: "Vote", got: tag }
            },
            _ => DataError::UnexpectedVariant { expected: "Constr" },
        }
    }

    fn from_data(data: &Data) -> (r: Result<Vote, DataError>) {
        match data {
            Data::Constr { tag, args } => {
                proof {
                    lemma_datas_of(args@);
                }
                if *tag == 0 {
                    Ok(Vote::No)
                } else if *tag == 1 {
                    Ok(Vote::Yes)
                } else if *tag == 2 {
                    Ok(Vote::Abstain)
                } else {
                    Err(DataError::UnexpectedTag { expected: "Vote", got: *tag })
                }
            },
            _ => Err(DataError::UnexpectedVariant { expected: "Constr" }),
        }
    }

    proof fn law_roundtrip(v: Vote, w: Vote) {
        match v {
            Vote::No => {},
            Vote::Yes => {},
            Vote::Abstain => {},
        }
    }
}

impl FromData for DRep {
    open spec fn decodable(d: DataM) -> bool {
        match d {
            DataM::Constr(tag, args) => (tag == 0 && args.len() >= 1 && <DRepCredential as FromData>::decodable(args[0]))
                || (tag == 1)
                || (tag == 2),
            _ => false,
        }
    }

    open spec fn decodes_to(d: DataM, v: DRep) -> bool {
        match v {
            DRep::DRep { credential } => d matches DataM::Constr(tag, args)
                && tag == 0
                && args.len() >= 1
                && <DRepCredential as FromData>::decodes_to(args[0], credential@),
            DRep::AlwaysAbstain => d matches DataM::Constr(tag, _) && tag == 1,
            DRep::AlwaysNoConfidence => d matches DataM::Constr(tag, _) && tag == 2,
        }
    }

    open spec fn decode_error(d: DataM) -> DataError {
        match d {
            DataM::Constr(tag, args) => if tag == 0 {
                if args.len() == 0 {
                    DataError::MissingField { index: 0 }
                } else {
                    <DRepCredential as FromData>::decode_error(args[0])
                }
            } else if tag == 1 {
                DataError::UnexpectedTag { expected: "DRep", got: tag }
            } else if tag == 2 {
                DataError::UnexpectedTag { expected: "DRep", got: tag }
            } else {
                DataError::UnexpectedTag { expected: "DRep", got: tag }
            },
            _ => DataError::UnexpectedVariant { expected: "Constr" },
        }
    }

    fn from_data(data: &Data) -> (r: Result<DRep, DataError>) {
        match data {
            Data::Constr { tag, args } => {
                proof {
                    lemma_datas_of(args@);
                }
                if *tag == 0 {
                    if args.len() == 0 {
                        return Err(DataError::MissingField { index: 0 });
                    }
                    let credential = match <DRepCredential as FromData>::from_data(&args[0]) {
                        Ok(x) => x,
                        Err(e) => {
                            return Err(e);
                        },
                    };
                    Ok(DRep::DRep { credential })
                } else if *tag == 1 {
                    Ok(DRep::AlwaysAbstain)
                } else if *tag == 2 {
                    Ok(DRep::AlwaysNoConfidence)
                } else {
                    Err(DataError::UnexpectedTag { expected: "DRep", got: *tag })
                }
            },
            _ => Err(DataError::UnexpectedVariant { expected: "Constr" }),
        }
    }

    proof fn law_roundtrip(v: DRep, w: DRep) {
        match v {
            DRep::DRep { credential } => {
                <DRepCredential as FromData>::law_roundtrip(credential@, credential@);
                if let DRep::DRep { credential: w_credential } = w {
                    <DRepCredential as FromData>::law_roundtrip(credential@, w_credential@);
                }
            },
            DRep::AlwaysAbstain => {},
            DRep::AlwaysNoConfidence => {},
        }
    }
}

impl FromData for Delegatee {
    open spec fn decodable(d: DataM) -> bool {
        match d {
            DataM::Constr(tag, args) => (tag == 0 && args.len() >= 1 && <PubKeyHash as FromData>::decodable(args[0]))
                || (tag == 1 && args.len() >= 1 && <DRep as FromData>::decodable(args[0]))
                || (tag == 2 && args.len() >= 2 && <PubKeyHash as FromData>::decodable(args[0]) && <DRep as FromData>::decodable(args[1])),
            _ => false,
        }
    }

    open spec fn decodes_to(d: DataM, v: Delegatee) -> bool {
        match v {
            Delegatee::Stake { pub_key_hash } => d matches DataM::Constr(tag, args)
                && tag == 0
                && args.len() >= 1
                && <PubKeyHash as FromData>::decodes_to(args[0], pub_key_hash@),
            Delegatee::Vote { d_rep } => d matches DataM::Constr(tag, args)
                && tag == 1
                && args.len() >= 1
                && <DRep as FromData>::decodes_to(args[0], d_rep@),
            Delegatee::StakeVote { pub_key_hash, d_rep } => d matches DataM::Constr(tag, args)
                && tag == 2
                && args.len() >= 2
                && <PubKeyHash as FromData>::decodes_to(args[0], pub_key_hash@)
                && <DRep as FromData>::decodes_to(args[1], d_rep@),
        }
    }

    open spec fn decode_error(d: DataM) -> DataError {
        match d {
            DataM::Constr(tag, args) => if tag == 0 {
                if args.len() == 0 {
                    DataError::MissingField { index: 0 }
                } else {
                    <PubKeyHash as FromData>::decode_error(args[0])
                }
            } else if tag == 1 {
                if args.len() == 0 {
                    DataError::MissingField { index: 0 }
                } else {
                    <DRep as FromData>::decode_error(args[0])
                }
            } else if tag == 2 {
                if args.len() == 0 {
                    DataError::MissingField { index: 0 }
                } else if !<PubKeyHash as FromData>::decodable(args[0]) {
                    <PubKeyHash as FromData>::decode_error(args[0])
                } else if args.len() == 1 {
                    DataError::MissingField { index: 1 }
                } else {
                    <DRep as FromData>::decode_error(args[1])
                }
            } else {
                DataError::UnexpectedTag { expected: "Delegatee", got: tag }
            },
            _ => DataError::UnexpectedVariant { expected: "Constr" },
        }
    }

    fn from_data(data: &Data) -> (r: Result<Delegatee, DataError>) {
        match data {
            Data::Constr { tag, args } => {
                proof {
                    lemma_datas_of(args@);
                }
                if *tag == 0 {
                    if args.len() == 0 {
                        return Err(DataError::MissingField { index: 0 });
                    }
                    let pub_key_hash = match <PubKeyHash as FromData>::from_data(&args[0]) {
                        Ok(x) => x,
                        Err(e) => {
                            return Err(e);
                        },
                    };
                    Ok(Delegatee::Stake { pub_key_hash })
                } else if *tag == 1 {
                    if args.len() == 0 {
                        return Err(DataError::MissingField { index: 0 });
                    }
                    let d_rep = match <DRep as FromData>::from_data(&args[0]) {
                        Ok(x) => x,
                        Err(e) => {
                            return Err(e);
                        },
                    };
                    Ok(Delegatee::Vote { d_rep })
                } else if *tag == 2 {
                    if args.len() == 0 {
                        return Err(DataError::MissingField { index: 0 });
                    }
                    let pub_key_hash = match <PubKeyHash as FromData>::from_data(&args[0]) {
                        Ok(x) => x,
                        Err(e) => {
                            return Err(e);
                        },
                    };
                    if args.len() <= 1 {
                        return Err(DataError::MissingField { index: 1 });
                    }
                    let d_rep = match <DRep as FromData>::from_data(&args[1]) {
                        Ok(x) => x,
                        Err(e) => {
                            return Err(e);
                        },
                    };
                    Ok(Delegatee::StakeVote { pub_key_hash, d_rep })
                } else {
                    Err(DataError::UnexpectedTag { expected: "Delegatee", got: *tag })
                }
            },
            _ => Err(DataError::UnexpectedVariant { expected: "Constr" }),
        }
    }

    proof fn law_roundtrip(v: Delegatee, w: Delegatee) {
        match v {
            Delegatee::Stake { pub_key_hash } => {
                <PubKeyHash as FromData>::law_roundtrip(pub_key_hash@, pub_key_hash@);
                if let Delegatee::Stake { pub_key_hash: w_pub_key_hash } = w {
                    <PubKeyHash as FromData>::law_roundtrip(pub_key_hash@, w_pub_key_hash@);
                }
            },
            Delegatee::Vote { d_rep } => {
                <DRep as FromData>::law_roundtrip(d_rep@, d_rep@);
                if let Delegatee::Vote { d_rep: w_d_rep } = w {
                    <DRep as FromData>::law_roundtrip(d_rep@, w_d_rep@);
                }
            },
            Delegatee::StakeVote { pub_key_hash, d_rep } => {
                <PubKeyHash as FromData>::law_roundtrip(pub_key_hash@, pub_key_hash@);
                <DRep as FromData>::law_roundtrip(d_rep@, d_rep@);
                if let Delegatee::StakeVote { pub_key_hash: w_pub_key_hash, d_rep: w_d_rep } = w {
                    <PubKeyHash as FromData>::law_roundtrip(pub_key_hash@, w_pub_key_hash@);
                    <DRep as FromData>::law_roundtrip(d_rep@, w_d_rep@);
                }
            },
        }
    }
}

impl FromData for TxCert {
    open spec fn decodable(d: DataM) -> bool {
        match d {
            DataM::Constr(tag, args) => (tag == 0 && args.len() >= 2 && <Credential as FromData>::decodable(args[0]) && <Option<Lovelace> as FromData>::decodable(args[1]))
                || (tag == 1 && args.len() >= 2 && <Credential as FromData>::decodable(args[0]) && <Option<Lovelace> as FromData>::decodable(args[1]))
                || (tag == 2 && args.len() >= 2 && <Credential as FromData>::decodable(args[0]) && <Delegatee as FromData>::decodable(args[1]))
                || (tag == 3 && args.len() >= 3 && <Credential as FromData>::decodable(args[0]) && <Delegatee as FromData>::decodable(args[1]) && <Lovelace as FromData>::decodable(args[2]))
                || (tag == 4 && args.len() >= 2 && <DRepCredential as FromData>::decodable(args[0]) && <Lovelace as FromData>::decodable(args[1]))
                || (tag == 5 && args.len() >= 1 && <DRepCredential as FromData>::decodable(args[0]))
                || (tag == 6 && args.len() >= 2 && <DRepCredential as FromData>::decodable(args[0]) && <Lovelace as FromData>::decodable(args[1]))
                || (tag == 7 && args.len() >= 2 && <PubKeyHash as FromData>::decodable(args[0]) && <PubKeyHash as FromData>::decodable(args[1]))
                || (tag == 8 && args.len() >= 2 && <PubKeyHash as FromData>::decodable(args[0]) && <Integer as FromData>::decodable(args[1]))
                || (tag == 9 && args.len() >= 2 && <ColdCommitteeCredential as FromData>::decodable(args[0]) && <HotCommitteeCredential as FromData>::decodable(args[1]))
                || (tag == 10 && args.len() >= 1 && <ColdCommitteeCredential as FromData>::decodable(args[0])),
            _ => false,
        }
    }

    open spec fn decodes_to(d: DataM, v: TxCert) -> bool {
        match v {
            TxCert::RegStaking { credential, deposit } => d matches DataM::Constr(tag, args)
                && tag == 0
                && args.len() >= 2
                && <Credential as FromData>::decodes_to(args[0], credential@)
                && <Option<Lovelace> as FromData>::decodes_to(args[1], deposit@),
            TxCert::UnRegStaking { credential, refund } => d matches DataM::Constr(tag, args)
                && tag == 1
                && args.len() >= 2
                && <Credential as FromData>::decodes_to(args[0], credential@)
                && <Option<Lovelace> as FromData>::decodes_to(args[1], refund@),
            TxCert::DelegStaking { credential, delegatee } => d matches DataM::Constr(tag, args)
                && tag == 2
                && args.len() >= 2
                && <Credential as FromData>::decodes_to(args[0], credential@)
                && <Delegatee as FromData>::decodes_to(args[1], delegatee@),
            TxCert::RegDeleg { credential, delegatee, deposit } => d matches DataM::Constr(tag, args)
                && tag == 3
                && args.len() >= 3
                && <Credential as FromData>::decodes_to(args[0], credential@)
                && <Delegatee as FromData>::decodes_to(args[1], delegatee@)
                && <Lovelace as FromData>::decodes_to(args[2], deposit@),
            TxCert::RegDRep { credential, deposit } => d matches DataM::Constr(tag, args)
                && tag == 4
                && args.len() >= 2
                && <DRepCredential as FromData>::decodes_to(args[0], credential@)
                && <Lovelace as FromData>::decodes_to(args[1], deposit@),
            TxCert::UpdateDRep { credential } => d matches DataM::Constr(tag, args)
                && tag == 5
                && args.len() >= 1
                && <DRepCredential as FromData>::decodes_to(args[0], credential@),
            TxCert::UnRegDRep { credential, refund } => d matches DataM::Constr(tag, args)
                && tag == 6
                && args.len() >= 2
                && <DRepCredential as FromData>::decodes_to(args[0], credential@)
                && <Lovelace as FromData>::decodes_to(args[1], refund@),
            TxCert::PoolRegister { pool_id, pool_vfr } => d matches DataM::Constr(tag, args)
                && tag == 7
                && args.len() >= 2
                && <PubKeyHash as FromData>::decodes_to(args[0], pool_id@)
                && <PubKeyHash as FromData>::decodes_to(args[1], pool_vfr@),
            TxCert::PoolRetire { pub_key_hash, epoch } => d matches DataM::Constr(tag, args)
                && tag == 8
                && args.len() >= 2
                && <PubKeyHash as FromData>::decodes_to(args[0], pub_key_hash@)
                && <Integer as FromData>::decodes_to(args[1], epoch@),
            TxCert::AuthHotCommittee { cold, hot } => d matches DataM::Constr(tag, args)
                && tag == 9
                && args.len() >= 2
                && <ColdCommitteeCredential as FromData>::decodes_to(args[0], cold@)
                && <HotCommitteeCredential as FromData>::decodes_to(args[1], hot@),
            TxCert::ResignColdCommittee { cold } => d matches DataM::Constr(tag, args)
                && tag == 10
                && args.len() >= 1
                && <ColdCommitteeCredential as FromData>::decodes_to(args[0], cold@),
        }
    }

    open spec fn decode_error(d: DataM) -> DataError {
        match d {
            DataM::Constr(tag, args) => if tag == 0 {
                if args.len() == 0 {
                    DataError::MissingField { index: 0 }
                } else if !<Credential as FromData>::decodable(args[0]) {
                    <Credential as FromData>::decode_error(args[0])
                } else if args.len() == 1 {
                    DataError::MissingField { index: 1 }
                } else {
                    <Option<Lovelace> as FromData>::decode_error(args[1])
                }
            } else if tag == 1 {
                if args.len() == 0 {
                    DataError::MissingField { index: 0 }
                } else if !<Credential as FromData>::decodable(args[0]) {
                    <Credential as FromData>::decode_error(args[0])
                } else if args.len() == 1 {
                    DataError::MissingField { index: 1 }
                } else {
                    <Option<Lovelace> as FromData>::decode_error(args[1])
                }
            } else if tag == 2 {
                if args.len() == 0 {
                    DataError::MissingField { index: 0 }
                } else if !<Credential as FromData>::decodable(args[0]) {
                    <Credential as FromData>::decode_error(args[0])
                } else if args.len() == 1 {
                    DataError::MissingField { index: 1 }
                } else {
                    <Delegatee as FromData>::decode_error(args[1])
                }
            } else if tag == 3 {
                if args.len() == 0 {
                    DataError::MissingField { index: 0 }
                } else if !<Credential as FromData>::decodable(args[0]) {
                    <Credential as FromData>::decode_error(args[0])
                } else if args.len() == 1 {
                    DataError::MissingField { index: 1 }
                } else if !<Delegatee as FromData>::decodable(args[1]) {
                    <Delegatee as FromData>::decode_error(args[1])
                } else if args.len() == 2 {
                    DataError::MissingField { index: 2 }
                } else {
                    <Lovelace as FromData>::decode_error(args[2])
                }
            } else if tag == 4 {
                if args.len() == 0 {
                    DataError::MissingField { index: 0 }
                } else if !<DRepCredential as FromData>::decodable(args[0]) {
                    <DRepCredential as FromData>::decode_error(args[0])
                } else if args.len() == 1 {
                    DataError::MissingField { index: 1 }
                } else {
                    <Lovelace as FromData>::decode_error(args[1])
                }
            } else if tag == 5 {
                if args.len() == 0 {
                    DataError::MissingField { index: 0 }
                } else {
                    <DRepCredential as FromData>::decode_error(args[0])
                }
            } else if tag == 6 {
                if args.len() == 0 {
                    DataError::MissingField { index: 0 }
                } else if !<DRepCredential as FromData>::decodable(args[0]) {
                    <DRepCredential as FromData>::decode_error(args[0])
                } else if args.len() == 1 {
                    DataError::MissingField { index: 1 }
                } else {
                    <Lovelace as FromData>::decode_error(args[1])
                }
            } else if tag == 7 {
                if args.len() == 0 {
                    DataError::MissingField { index: 0 }
                } else if !<PubKeyHash as FromData>::decodable(args[0]) {
                    <PubKeyHash as FromData>::decode_error(args[0])
                } else if args.len() == 1 {
                    DataError::MissingField { index: 1 }
                } else {
                    <PubKeyHash as FromData>::decode_error(args[1])
                }
            } else if tag == 8 {
                if args.len() == 0 {
                    DataError::MissingField { index: 0 }
                } else if !<PubKeyHash as FromData>::decodable(args[0]) {
                    <PubKeyHash as FromData>::decode_error(args[0])
                } else if args.len() == 1 {
                    DataError::MissingField { index: 1 }
                } else {
                    <Integer as FromData>::decode_error(args[1])
                }
            } else if tag == 9 {
                if args.len() == 0 {
                    DataError::MissingField { index: 0 }
                } else if !<ColdCommitteeCredential as FromData>::decodable(args[0]) {
                    <ColdCommitteeCredential as FromData>::decode_error(args[0])
                } else if args.len() == 1 {
                    DataError::MissingField { index: 1 }
                } else {
                    <HotCommitteeCredential as FromData>::decode_error(args[1])
                }
            } else if tag == 10 {
                if args.len() == 0 {
                    DataError::MissingField { index: 0 }
                } else {
                    <ColdCommitteeCredential as FromData>::decode_error(args[0])
                }
            } else {
                DataError::UnexpectedTag { expected: "TxCert", got: tag }
            },
            _ => DataError::UnexpectedVariant { expected: "Constr" },
        }
    }

    fn from_data(data: &Data) -> (r: Result<TxCert, DataError>) {
        match data {
            Data::Constr { tag, args } => {
                proof {
                    lemma_datas_of(args@);
                }
                if *tag == 0 {
                    if args.len() == 0 {
                        return Err(DataError::MissingField { index: 0 });
                    }
                    let credential = match <Credential as FromData>::from_data(&args[0]) {
                        Ok(x) => x,
                        Err(e) => {
                            return Err(e);
                        },
                    };
                    if args.len() <= 1 {
                        return Err(DataError::MissingField { index: 1 });
                    }
                    let deposit = match <Option<Lovelace> as FromData>::from_data(&args[1]) {
                        Ok(x) => x,
                        Err(e) => {
                            return Err(e);
                        },
                    };
                    Ok(TxCert::RegStaking { credential, deposit })
                } else if *tag == 1 {
                    if args.len() == 0 {
                        return Err(DataError::MissingField { index: 0 });
                    }
                    let credential = match <Credential as FromData>::from_data(&args[0]) {
                        Ok(x) => x,
                        Err(e) => {
                            return Err(e);
                        },
                    };
                    if args.len() <= 1 {
                        return Err(DataError::MissingField { index: 1 });
                    }
                    let refund = match <Option<Lovelace> as FromData>::from_data(&args[1]) {
                        Ok(x) => x,
                        Err(e) => {
                            return Err(e);
                        },
                    };
                    Ok(TxCert::UnRegStaking { credential, refund })
                } else if *tag == 2 {
                    if args.len() == 0 {
                        return Err(DataError::MissingField { index: 0 });
                    }
                    let credential = match <Credential as FromData>::from_data(&args[0]) {
                        Ok(x) => x,
                        Err(e) => {
                            return Err(e);
                        },
                    };
                    if args.len() <= 1 {
                        return Err(DataError::MissingField { index: 1 });
                    }
                    let delegatee = match <Delegatee as FromData>::from_data(&args[1]) {
                        Ok(x) => x,
                        Err(e) => {
                            return Err(e);
                        },
                    };
                    Ok(TxCert::DelegStaking { credential, delegatee })
                } else if *tag == 3 {
                    if args.len() == 0 {
                        return Err(DataError::MissingField { index: 0 });
                    }
                    let credential = match <Credential as FromData>::from_data(&args[0]) {
                        Ok(x) => x,
                        Err(e) => {
                            return Err(e);
                        },
                    };
                    if args.len() <= 1 {
                        return Err(DataError::MissingField { index: 1 });
                    }
                    let delegatee = match <Delegatee as FromData>::from_data(&args[1]) {
                        Ok(x) => x,
                        Err(e) => {
                            return Err(e);
                        },
                    };
                    if args.len() <= 2 {
                        return Err(DataError::MissingField { index: 2 });
                    }
                    let deposit = match <Lovelace as FromData>::from_data(&args[2]) {
                        Ok(x) => x,
                        Err(e) => {
                            return Err(e);
                        },
                    };
                    Ok(TxCert::RegDeleg { credential, delegatee, deposit })
                } else if *tag == 4 {
                    if args.len() == 0 {
                        return Err(DataError::MissingField { index: 0 });
                    }
                    let credential = match <DRepCredential as FromData>::from_data(&args[0]) {
                        Ok(x) => x,
                        Err(e) => {
                            return Err(e);
                        },
                    };
                    if args.len() <= 1 {
                        return Err(DataError::MissingField { index: 1 });
                    }
                    let deposit = match <Lovelace as FromData>::from_data(&args[1]) {
                        Ok(x) => x,
                        Err(e) => {
                            return Err(e);
                        },
                    };
                    Ok(TxCert::RegDRep { credential, deposit })
                } else if *tag == 5 {
                    if args.len() == 0 {
                        return Err(DataError::MissingField { index: 0 });
                    }
                    let credential = match <DRepCredential as FromData>::from_data(&args[0]) {
                        Ok(x) => x,
                        Err(e) => {
                            return Err(e);
                        },
                    };
                    Ok(TxCert::UpdateDRep { credential })
                } else if *tag == 6 {
                    if args.len() == 0 {
                        return Err(DataError::MissingField { index: 0 });
                    }
                    let credential = match <DRepCredential as FromData>::from_data(&args[0]) {
                        Ok(x) => x,
                        Err(e) => {
                            return Err(e);
                        },
                    };
                    if args.len() <= 1 {
                        return Err(DataError::MissingField { index: 1 });
                    }
                    let refund = match <Lovelace as FromData>::from_data(&args[1]) {
                        Ok(x) => x,
                        Err(e) => {
                            return Err(e);
                        },
                    };
                    Ok(TxCert::UnRegDRep { credential, refund })
                } else if *tag == 7 {
                    if args.len() == 0 {
                        return Err(DataError::MissingField { index: 0 });
                    }
                    let pool_id = match <PubKeyHash as FromData>::from_data(&args[0]) {
                        Ok(x) => x,
                        Err(e) => {
                            return Err(e);
                        },
                    };
                    if args.len() <= 1 {
                        return Err(DataError::MissingField { index: 1 });
                    }
                    let pool_vfr = match <PubKeyHash as FromData>::from_data(&args[1]) {
                        Ok(x) => x,
                        Err(e) => {
                            return Err(e);
                        },
                    };
                    Ok(TxCert::PoolRegister { pool_id, pool_vfr })
                } else if *tag == 8 {
                    if args.len() == 0 {
                        return Err(DataError::MissingField { index: 0 });
                    }
                    let pub_key_hash = match <PubKeyHash as FromData>::from_data(&args[0]) {
                        Ok(x) => x,
                        Err(e) => {
                            return Err(e);
                        },
                    };
                    if args.len() <= 1 {
                        return Err(DataError::MissingField { index: 1 });
                    }
                    let epoch = match <Integer as FromData>::from_data(&args[1]) {
                        Ok(x) => x,
                        Err(e) => {
                            return Err(e);
                        },
                    };
                    Ok(TxCert::PoolRetire { pub_key_hash, epoch })
                } else if *tag == 9 {
                    if args.len() == 0 {
                        return Err(DataError::MissingField { index: 0 });
                    }
                    let cold = match <ColdCommitteeCredential as FromData>::from_data(&args[0]) {
                        Ok(x) => x,
                        Err(e) => {
                            return Err(e);
                        },
                    };
                    if args.len() <= 1 {
                        return Err(DataError::MissingField { index: 1 });
                    }
                    let hot = match <HotCommitteeCredential as FromData>::from_data(&args[1]) {
                        Ok(x) => x,
                        Err(e) => {
                            return Err(e);
                        },
                    };
                    Ok(TxCert::AuthHotCommittee { cold, hot })
                } else if *tag == 10 {
                    if args.len() == 0 {
                        return Err(DataError::MissingField { index: 0 });
                    }
                    let cold = match <ColdCommitteeCredential as FromData>::from_data(&args[0]) {
                        Ok(x) => x,
                        Err(e) => {
                            return Err(e);
                        },
                    };
                    Ok(TxCert::ResignColdCommittee { cold })
                } else {
                    Err(DataError::UnexpectedTag { expected: "TxCert", got: *tag })
                }
            },
            _ => Err(DataError::UnexpectedVariant { expected: "Constr" }),
        }
    }

    proof fn law_roundtrip(v: TxCert, w: TxCert) {
        match v {
            TxCert::RegStaking { credential, deposit } => {
                <Credential as FromData>::law_roundtrip(credential@, credential@);
                <Option<Lovelace> as FromData>::law_roundtrip(deposit@, deposit@);
                if let TxCert::RegStaking { credential: w_credential, deposit: w_deposit } = w {
                    <Credential as FromData>::law_roundtrip(credential@, w_credential@);
                    <Option<Lovelace> as FromData>::law_roundtrip(deposit@, w_deposit@);
                }
            },
            TxCert::UnRegStaking { credential, refund } => {
                <Credential as FromData>::law_roundtrip(credential@, credential@);
                <Option<Lovelace> as FromData>::law_roundtrip(refund@, refund@);
                if let TxCert::UnRegStaking { credential: w_credential, refund: w_refund } = w {
                    <Credential as FromData>::law_roundtrip(credential@, w_credential@);
                    <Option<Lovelace> as FromData>::law_roundtrip(refund@, w_refund@);
                }
            },
            TxCert::DelegStaking { credential, delegatee } => {
                <Credential as FromData>::law_roundtrip(credential@, credential@);
                <Delegatee as FromData>::law_roundtrip(delegatee@, delegatee@);
                if let TxCert::DelegStaking { credential: w_credential, delegatee: w_delegatee } = w {
                    <Credential as FromData>::law_roundtrip(credential@, w_credential@);
                    <Delegatee as FromData>::law_roundtrip(delegatee@, w_delegatee@);
                }
            },
            TxCert::RegDeleg { credential, delegatee, deposit } => {
                <Credential as FromData>::law_roundtrip(credential@, credential@);
                <Delegatee as FromData>::law_roundtrip(delegatee@, delegatee@);
                <Lovelace as FromData>::law_roundtrip(deposit@, deposit@);
                if let TxCert::RegDeleg { credential: w_credential, delegatee: w_delegatee, deposit: w_deposit } = w {
                    <Credential as FromData>::law_roundtrip(credential@, w_credential@);
                    <Delegatee as FromData>::law_roundtrip(delegatee@, w_delegatee@);
                    <Lovelace as FromData>::law_roundtrip(deposit@, w_deposit@);
                }
            },
            TxCert::RegDRep { credential, deposit } => {
                <DRepCredential as FromData>::law_roundtrip(credential@, credential@);
                <Lovelace as FromData>::law_roundtrip(deposit@, deposit@);
                if let TxCert::RegDRep { credential: w_credential, deposit: w_deposit } = w {
                    <DRepCredential as FromData>::law_roundtrip(credential@, w_credential@);
                    <Lovelace as FromData>::law_roundtrip(deposit@, w_deposit@);
                }
            },
            TxCert::UpdateDRep { credential } => {
                <DRepCredential as FromData>::law_roundtrip(credential@, credential@);
                if let TxCert::UpdateDRep { credential: w_credential } = w {
                    <DRepCredential as FromData>::law_roundtrip(credential@, w_credential@);
                }
            },
            TxCert::UnRegDRep { credential, refund } => {
                <DRepCredential as FromData>::law_roundtrip(credential@, credential@);
                <Lovelace as FromData>::law_roundtrip(refund@, refund@);
                if let TxCert::UnRegDRep { credential: w_credential, refund: w_refund } = w {
                    <DRepCredential as FromData>::law_roundtrip(credential@, w_credential@);
                    <Lovelace as FromData>::law_roundtrip(refund@, w_refund@);
                }
            },
            TxCert::PoolRegister { pool_id, pool_vfr } => {
                <PubKeyHash as FromData>::law_roundtrip(pool_id@, pool_id@);
                <PubKeyHash as FromData>::law_roundtrip(pool_vfr@, pool_vfr@);
                if let TxCert::PoolRegister { pool_id: w_pool_id, pool_vfr: w_pool_vfr } = w {
                    <PubKeyHash as FromData>::law_roundtrip(pool_id@, w_pool_id@);
                    <PubKeyHash as FromData>::law_roundtrip(pool_vfr@, w_pool_vfr@);
                }
            },
            TxCert::PoolRetire { pub_key_hash, epoch } => {
                <PubKeyHash as FromData>::law_roundtrip(pub_key_hash@, pub_key_hash@);
                <Integer as FromData>::law_roundtrip(epoch@, epoch@);
                if let TxCert::PoolRetire { pub_key_hash: w_pub_key_hash, epoch: w_epoch } = w {
                    <PubKeyHash as FromData>::law_roundtrip(pub_key_hash@, w_pub_key_hash@);
                    <Integer as FromData>::law_roundtrip(epoch@, w_epoch@);
                }
            },
            TxCert::AuthHotCommittee { cold, hot } => {
                <ColdCommitteeCredential as FromData>::law_roundtrip(cold@, cold@);
                <HotCommitteeCredential as FromData>::law_roundtrip(hot@, hot@);
                if let TxCert::AuthHotCommittee { cold: w_cold, hot: w_hot } = w {
                    <ColdCommitteeCredential as FromData>::law_roundtrip(cold@, w_cold@);
                    <HotCommitteeCredential as FromData>::law_roundtrip(hot@, w_hot@);
                }
            },
            TxCert::ResignColdCommittee { cold } => {
                <ColdCommitteeCredential as FromData>::law_roundtrip(cold@, cold@);
                if let TxCert::ResignColdCommittee { cold: w_cold } = w {
                    <ColdCommitteeCredential as FromData>::law_roundtrip(cold@, w_cold@);
                }
            },
        }
    }
}

impl FromData for Voter {
    open spec fn decodable(d: DataM) -> bool {
        match d {
            DataM::Constr(tag, args) => (tag == 0 && args.len() >= 1 && <HotCommitteeCredential as FromData>::decodable(args[0]))
                || (tag == 1 && args.len() >= 1 && <DRepCredential as FromData>::decodable(args[0]))
                || (tag == 2 && args.len() >= 1 && <PubKeyHash as FromData>::decodable(args[0])),
            _ => false,
        }
    }

    open spec fn decodes_to(d: DataM, v: Voter) -> bool {
        match v {
            Voter::CommitteeVoter { credential } => d matches DataM::Constr(tag, args)
                && tag == 0
                && args.len() >= 1
                && <HotCommitteeCredential as FromData>::decodes_to(args[0], credential@),
            Voter::DRepVoter { credential } => d matches DataM::Constr(tag, args)
                && tag == 1
                && args.len() >= 1
                && <DRepCredential as FromData>::decodes_to(args[0], credential@),
            Voter::StakePoolVoter { pub_key_hash } => d matches DataM::Constr(tag, args)
                && tag == 2
                && args.len() >= 1
                && <PubKeyHash as FromData>::decodes_to(args[0], pub_key_hash@),
        }
    }

    open spec fn decode_error(d: DataM) -> DataError {
        match d {
            DataM::Constr(tag, args) => if tag == 0 {
                if args.len() == 0 {
                    DataError::MissingField { index: 0 }
                } else {
                    <HotCommitteeCredential as FromData>::decode_error(args[0])
                }
            } else if tag == 1 {
                if args.len() == 0 {
                    DataError::MissingField { index: 0 }
                } else {
                    <DRepCredential as FromData>::decode_error(args[0])
                }
            } else if tag == 2 {
                if args.len() == 0 {
                    DataError::MissingField { index: 0 }
                } else {
                    <PubKeyHash as FromData>::decode_error(args[0])
                }
            } else {
                DataError::UnexpectedTag { expected: "Voter", got: tag }
            },
            _ => DataError::UnexpectedVariant { expected: "Constr" },
        }
    }

    fn from_data(data: &Data) -> (r: Result<Voter, DataError>) {
        match data {
            Data::Constr { tag, args } => {
                proof {
                    lemma_datas_of(args@);
                }
                if *tag == 0 {
                    if args.len() == 0 {
                        return Err(DataError::MissingField { index: 0 });
                    }
                    let credential = match <HotCommitteeCredential as FromData>::from_data(&args[0]) {
                        Ok(x) => x,
                        Err(e) => {
                            return Err(e);
                        },
                    };
                    Ok(Voter::CommitteeVoter { credential })
                } else if *tag == 1 {
                    if args.len() == 0 {
                        return Err(DataError::MissingField { index: 0 });
                    }
                    let credential = match <DRepCredential as FromData>::from_data(&args[0]) {
                        Ok(x) => x,
                        Err(e) => {
                            return Err(e);
                        },
                    };
                    Ok(Voter::DRepVoter { credential })
                } else if *tag == 2 {
                    if args.len() == 0 {
                        return Err(DataError::MissingField { index: 0 });
                    }
                    let pub_key_hash = match <PubKeyHash as FromData>::from_data(&args[0]) {
                        Ok(x) => x,
                        Err(e) => {
                            return Err(e);
                        },
                    };
                    Ok(Voter::StakePoolVoter { pub_key_hash })
                } else {
                    Err(DataError::UnexpectedTag { expected: "Voter", got: *tag })
                }
            },
            _ => Err(DataError::UnexpectedVariant { expected: "Constr" }),
        }
    }

    proof fn law_roundtrip(v: Voter, w: Voter) {
        match v {
            Voter::CommitteeVoter { credential } => {
                <HotCommitteeCredential as FromData>::law_roundtrip(credential@, credential@);
                if let Voter::CommitteeVoter { credential: w_credential } = w {
                    <HotCommitteeCredential as FromData>::law_roundtrip(credential@, w_credential@);
                }
            },
            Voter::DRepVoter { credential } => {
                <DRepCredential as FromData>::law_roundtrip(credential@, credential@);
                if let Voter::DRepVoter { credential: w_credential } = w {
                    <DRepCredential as FromData>::law_roundtrip(credential@, w_credential@);
                }
            },
            Voter::StakePoolVoter { pub_key_hash } => {
                <PubKeyHash as FromData>::law_roundtrip(pub_key_hash@, pub_key_hash@);
                if let Voter::StakePoolVoter { pub_key_hash: w_pub_key_hash } = w {
                    <PubKeyHash as FromData>::law_roundtrip(pub_key_hash@, w_pub_key_hash@);
                }
            },
        }
    }
}

impl FromData for GovernanceActionId {
    open spec fn decodable(d: DataM) -> bool {
        d matches DataM::Constr(tag, args) && tag == 0 && args.len() >= 2
            && <TxId as FromData>::decodable(args[0])
            && <Integer as FromData>::decodable(args[1])
    }

    open spec fn decodes_to(d: DataM, v: GovernanceActionId) -> bool {
        d matches DataM::Constr(tag, args) && tag == 0 && args.len() >= 2
            && <TxId as FromData>::decodes_to(args[0], v.tx_id@)
            && <Integer as FromData>::decodes_to(args[1], v.gov_action_ix@)
    }

    open spec fn decode_error(d: DataM) -> DataError {
        match d {
            DataM::Constr(tag, args) => if tag != 0 {
                DataError::UnexpectedTag { expected: "GovernanceActionId", got: tag }
            } else {
                if args.len() == 0 {
                    DataError::MissingField { index: 0 }
                } else if !<TxId as FromData>::decodable(args[0]) {
                    <TxId as FromData>::decode_error(args[0])
                } else if args.len() == 1 {
                    DataError::MissingField { index: 1 }
                } else {
                    <Integer as FromData>::decode_error(args[1])
                }
            },
            _ => DataError::UnexpectedVariant { expected: "Constr" },
        }
    }

    fn from_data(data: &Data) -> (r: Result<GovernanceActionId, DataError>) {
        match data {
            Data::Constr { tag, args } => {
                proof {
                    lemma_datas_of(args@);
                }
                if *tag != 0 {
                    return Err(DataError::UnexpectedTag { expected: "GovernanceActionId", got: *tag });
                }
                if args.len() == 0 {
                    return Err(DataError::MissingField { index: 0 });
                }
                let tx_id = match <TxId as FromData>::from_data(&args[0]) {
                    Ok(x) => x,
                    Err(e) => {
                        return Err(e);
                    },
                };
                if args.len() <= 1 {
                    return Err(DataError::MissingField { index: 1 });
                }
                let gov_action_ix = match <Integer as FromData>::from_data(&args[1]) {
                    Ok(x) => x,
                    Err(e) => {
                        return Err(e);
                    },
                };
                Ok(GovernanceActionId { tx_id, gov_action_ix })
            },
            _ => Err(DataError::UnexpectedVariant { expected: "Constr" }),
        }
    }

    proof fn law_roundtrip(v: GovernanceActionId, w: GovernanceActionId) {
        <TxId as FromData>::law_roundtrip(v.tx_id@, w.tx_id@);
        <Integer as FromData>::law_roundtrip(v.gov_action_ix@, w.gov_action_ix@);
    }
}

impl FromData for ProtocolVersion {
    open spec fn decodable(d: DataM) -> bool {
        d matches DataM::Constr(tag, args) && tag == 0 && args.len() >= 2
            && <Integer as FromData>::decodable(args[0])
            && <Integer as FromData>::decodable(args[1])
    }

    open spec fn decodes_to(d: DataM, v: ProtocolVersion) -> bool {
        d matches DataM::Constr(tag, args) && tag == 0 && args.len() >= 2
            && <Integer as FromData>::decodes_to(args[0], v.pv_major@)
            && <Integer as FromData>::decodes_to(args[1], v.pv_minor@)
    }

    open spec fn decode_error(d: DataM) -> DataError {
        match d {
            DataM::Constr(tag, args) => if tag != 0 {
                DataError::UnexpectedTag { expected: "ProtocolVersion", got: tag }
            } else {
                if args.len() == 0 {
                    DataError::MissingField { index: 0 }
                } else if !<Integer as FromData>::decodable(args[0]) {
                    <Integer as FromData>::decode_error(args[0])
                } else if args.len() == 1 {
                    DataError::MissingField { index: 1 }
                } else {
                    <Integer as FromData>::decode_error(args[1])
                }
            },
            _ => DataError::UnexpectedVariant { expected: "Constr" },
        }
    }

    fn from_data(data: &Data) -> (r: Result<ProtocolVersion, DataError>) {
        match data {
            Data::Constr { tag, args } => {
                proof {
                    lemma_datas_of(args@);
                }
                if *tag != 0 {
                    return Err(DataError::UnexpectedTag { expected: "ProtocolVersion", got: *tag });
                }
                if args.len() == 0 {
                    return Err(DataError::MissingField { index: 0 });
                }
                let pv_major = match <Integer as FromData>::from_data(&args[0]) {
                    Ok(x) => x,
                    Err(e) => {
                        return Err(e);
                    },
                };
                if args.len() <= 1 {
                    return Err(DataError::MissingField { index: 1 });
                }
                let pv_minor = match <Integer as FromData>::from_data(&args[1]) {
                    Ok(x) => x,
                    Err(e) => {
                        return Err(e);
                    },
                };
                Ok(ProtocolVersion { pv_major, pv_minor })
            },
            _ => Err(DataError::UnexpectedVariant { expected: "Constr" }),
        }
    }

    proof fn law_roundtrip(v: ProtocolVersion, w: ProtocolVersion) {
        <Integer as FromData>::law_roundtrip(v.pv_major@, w.pv_major@);
        <Integer as FromData>::law_roundtrip(v.pv_minor@, w.pv_minor@);
    }
}

impl FromData for GovernanceAction {
    open spec fn decodable(d: DataM) -> bool {
        match d {
            DataM::Constr(tag, args) => (tag == 0 && args.len() >= 3 && <Option<GovernanceActionId> as FromData>::decodable(args[0]) && <Datum as FromData>::decodable(args[1]) && <Option<crate::ledger::v1::Hash> as FromData>::decodable(args[2]))
                || (tag == 1 && args.len() >= 2 && <Option<GovernanceActionId> as FromData>::decodable(args[0]) && <ProtocolVersion as FromData>::decodable(args[1]))
                || (tag == 2 && args.len() >= 2 && <Datum as FromData>::decodable(args[0]) && <Option<crate::ledger::v1::Hash> as FromData>::decodable(args[1]))
                || (tag == 3 && args.len() >= 1 && <Option<GovernanceActionId> as FromData>::decodable(args[0]))
                || (tag == 4 && args.len() >= 4 && <Option<GovernanceActionId> as FromData>::decodable(args[0]) && <List<ColdCommitteeCredential> as FromData>::decodable(args[1]) && <Datum as FromData>::decodable(args[2]) && <Datum as FromData>::decodable(args[3]))
                || (tag == 5 && args.len() >= 2 && <Option<GovernanceActionId> as FromData>::decodable(args[0]) && <Option<crate::ledger::v1::Hash> as FromData>::decodable(args[1]))
                || (tag == 6),
            _ => false,
        }
    }

    open spec fn decodes_to(d: DataM, v: GovernanceAction) -> bool {
        match v {
            GovernanceAction::ParameterChange { id, parameters, constitution_script } => d matches DataM::Constr(tag, args)
                && tag == 0
                && args.len() >= 3
                && <Option<GovernanceActionId> as FromData>::decodes_to(args[0], id@)
                && <Datum as FromData>::decodes_to(args[1], parameters@)
                && <Option<crate::ledger::v1::Hash> as FromData>::decodes_to(args[2], constitution_script@),
            GovernanceAction::HardForkInitiation { id, protocol_version } => d matches DataM::Constr(tag, args)
                && tag == 1
                && args.len() >= 2
                && <Option<GovernanceActionId> as FromData>::decodes_to(args[0], id@)
                && <ProtocolVersion as FromData>::decodes_to(args[1], protocol_version@),
            GovernanceAction::TreasuryWithdrawals { withdrawals, constitution_script } => d matches DataM::Constr(tag, args)
                && tag == 2
                && args.len() >= 2
                && <Datum as FromData>::decodes_to(args[0], withdrawals@)
                && <Option<crate::ledger::v1::Hash> as FromData>::decodes_to(args[1], constitution_script@),
            GovernanceAction::NoConfidence { id } => d matches DataM::Constr(tag, args)
                && tag == 3
                && args.len() >= 1
                && <Option<GovernanceActionId> as FromData>::decodes_to(args[0], id@),
            GovernanceAction::UpdateCommittee { id, removed_members, added_members, new_quorum } => d matches DataM::Constr(tag, args)
                && tag == 4
                && args.len() >= 4
                && <Option<GovernanceActionId> as FromData>::decodes_to(args[0], id@)
                && <List<ColdCommitteeCredential> as FromData>::decodes_to(args[1], removed_members@)
                && <Datum as FromData>::decodes_to(args[2], added_members@)
                && <Datum as FromData>::decodes_to(args[3], new_quorum@),
            GovernanceAction::NewConstitution { id, constitution } => d matches DataM::Constr(tag, args)
                && tag == 5
                && args.len() >= 2
                && <Option<GovernanceActionId> as FromData>::decodes_to(args[0], id@)
                && <Option<crate::ledger::v1::Hash> as FromData>::decodes_to(args[1], constitution@),
            GovernanceAction::InfoAction => d matches DataM::Constr(tag, _) && tag == 6,
        }
    }

    open spec fn decode_error(d: DataM) -> DataError {
        match d {
            DataM::Constr(tag, args) => if tag == 0 {
                if args.len() == 0 {
                    DataError::MissingField { index: 0 }
                } else if !<Option<GovernanceActionId> as FromData>::decodable(args[0]) {
                    <Option<GovernanceActionId> as FromData>::decode_error(args[0])
                } else if args.len() == 1 {
                    DataError::MissingField { index: 1 }
                } else if !<Datum as FromData>::decodable(args[1]) {
                    <Datum as FromData>::decode_error(args[1])
                } else if args.len() == 2 {
                    DataError::MissingField { index: 2 }
                } else {
                    <Option<crate::ledger::v1::Hash> as FromData>::decode_error(args[2])
                }
            } else if tag == 1 {
                if args.len() == 0 {
                    DataError::MissingField { index: 0 }
                } else if !<Option<GovernanceActionId> as FromData>::decodable(args[0]) {
                    <Option<GovernanceActionId> as FromData>::decode_error(args[0])
                } else if args.len() == 1 {
                    DataError::MissingField { index: 1 }
                } else {
                    <ProtocolVersion as FromData>::decode_error(args[1])
                }
            } else if tag == 2 {
                if args.len() == 0 {
                    DataError::MissingField { index: 0 }
                } else if !<Datum as FromData>::decodable(args[0]) {
                    <Datum as FromData>::decode_error(args[0])
                } else if args.len() == 1 {
                    DataError::MissingField { index: 1 }
                } else {
                    <Option<crate::ledger::v1::Hash> as FromData>::decode_error(args[1])
                }
            } else if tag == 3 {
                if args.len() == 0 {
                    DataError::MissingField { index: 0 }
                } else {
                    <Option<GovernanceActionId> as FromData>::decode_error(args[0])
                }
            } else if tag == 4 {
                if args.len() == 0 {
                    DataError::MissingField { index: 0 }
                } else if !<Option<GovernanceActionId> as FromData>::decodable(args[0]) {
                    <Option<GovernanceActionId> as FromData>::decode_error(args[0])
                } else if args.len() == 1 {
                    DataError::MissingField { index: 1 }
                } else if !<List<ColdCommitteeCredential> as FromData>::decodable(args[1]) {
                    <List<ColdCommitteeCredential> as FromData>::decode_error(args[1])
                } else if args.len() == 2 {
                    DataError::MissingField { index: 2 }
                } else if !<Datum as FromData>::decodable(args[2]) {
                    <Datum as FromData>::decode_error(args[2])
                } else if args.len() == 3 {
                    DataError::MissingField { index: 3 }
                } else {
                    <Datum as FromData>::decode_error(args[3])
                }
            } else if tag == 5 {
                if args.len() == 0 {
                    DataError::MissingField { index: 0 }
                } else if !<Option<GovernanceActionId> as FromData>::decodable(args[0]) {
                    <Option<GovernanceActionId> as FromData>::decode_error(args[0])
                } else if args.len() == 1 {
                    DataError::MissingField { index: 1 }
                } else {
                    <Option<crate::ledger::v1::Hash> as FromData>::decode_error(args[1])
                }
            } else if tag == 6 {
                DataError::UnexpectedTag { expected: "GovernanceAction", got: tag }
            } else {
                DataError::UnexpectedTag { expected: "GovernanceAction", got: tag }
            },
            _ => DataError::UnexpectedVariant { expected: "Constr" },
        }
    }

    fn from_data(data: &Data) -> (r: Result<GovernanceAction, DataError>) {
        match data {
            Data::Constr { tag, args } => {
                proof {
                    lemma_datas_of(args@);
                }
                if *tag == 0 {
                    if args.len() == 0 {
                        return Err(DataError::MissingField { index: 0 });
                    }
                    let id = match <Option<GovernanceActionId> as FromData>::from_data(&args[0]) {
                        Ok(x) => x,
                        Err(e) => {
                            return Err(e);
                        },
                    };
                    if args.len() <= 1 {
                        return Err(DataError::MissingField { index: 1 });
                    }
                    let parameters = match <Datum as FromData>::from_data(&args[1]) {
                        Ok(x) => x,
                        Err(e) => {
                            return Err(e);
                        },
                    };
                    if args.len() <= 2 {
                        return Err(DataError::MissingField { index: 2 });
                    }
                    let constitution_script = match <Option<crate::ledger::v1::Hash> as FromData>::from_data(&args[2]) {
                        Ok(x) => x,
                        Err(e) => {
                            return Err(e);
                        },
                    };
                    Ok(GovernanceAction::ParameterChange { id, parameters, constitution_script })
                } else if *tag == 1 {
                    if args.len() == 0 {
                        return Err(DataError::MissingField { index: 0 });
                    }
                    let id = match <Option<GovernanceActionId> as FromData>::from_data(&args[0]) {
                        Ok(x) => x,
                        Err(e) => {
                            return Err(e);
                        },
                    };
                    if args.len() <= 1 {
                        return Err(DataError::MissingField { index: 1 });
                    }
                    let protocol_version = match <ProtocolVersion as FromData>::from_data(&args[1]) {
                        Ok(x) => x,
                        Err(e) => {
                            return Err(e);
                        },
                    };
                    Ok(GovernanceAction::HardForkInitiation { id, protocol_version })
                } else if *tag == 2 {
                    if args.len() == 0 {
                        return Err(DataError::MissingField { index: 0 });
                    }
                    let withdrawals = match <Datum as FromData>::from_data(&args[0]) {
                        Ok(x) => x,
                        Err(e) => {
                            return Err(e);
                        },
                    };
                    if args.len() <= 1 {
                        return Err(DataError::MissingField { index: 1 });
                    }
                    let constitution_script = match <Option<crate::ledger::v1::Hash> as FromData>::from_data(&args[1]) {
                        Ok(x) => x,
                        Err(e) => {
                            return Err(e);
                        },
                    };
                    Ok(GovernanceAction::TreasuryWithdrawals { withdrawals, constitution_script })
                } else if *tag == 3 {
                    if args.len() == 0 {
                        return Err(DataError::MissingField { index: 0 });
                    }
                    let id = match <Option<GovernanceActionId> as FromData>::from_data(&args[0]) {
                        Ok(x) => x,
                        Err(e) => {
                            return Err(e);
                        },
                    };
                    Ok(GovernanceAction::NoConfidence { id })
                } else if *tag == 4 {
                    if args.len() == 0 {
                        return Err(DataError::MissingField { index: 0 });
                    }
                    let id = match <Option<GovernanceActionId> as FromData>::from_data(&args[0]) {
                        Ok(x) => x,
                        Err(e) => {
                            return Err(e);
                        },
                    };
                    if args.len() <= 1 {
                        return Err(DataError::MissingField { index: 1 });
                    }
                    let removed_members = match <List<ColdCommitteeCredential> as FromData>::from_data(&args[1]) {
                        Ok(x) => x,
                        Err(e) => {
                            return Err(e);
                        },
                    };
                    if args.len() <= 2 {
                        return Err(DataError::MissingField { index: 2 });
                    }
                    let added_members = match <Datum as FromData>::from_data(&args[2]) {
                        Ok(x) => x,
                        Err(e) => {
                            return Err(e);
                        },
                    };
                    if args.len() <= 3 {
                        return Err(DataError::MissingField { index: 3 });
                    }
                    let new_quorum = match <Datum as FromData>::from_data(&args[3]) {
                        Ok(x) => x,
                        Err(e) => {
                            return Err(e);
                        },
                    };
                    Ok(GovernanceAction::UpdateCommittee { id, removed_members, added_members, new_quorum })
                } else if *tag == 5 {
                    if args.len() == 0 {
                        return Err(DataError::MissingField { index: 0 });
                    }
                    let id = match <Option<GovernanceActionId> as FromData>::from_data(&args[0]) {
                        Ok(x) => x,
                        Err(e) => {
                            return Err(e);
                        },
                    };
                    if args.len() <= 1 {
                        return Err(DataError::MissingField { index: 1 });
                    }
                    let constitution = match <Option<crate::ledger::v1::Hash> as FromData>::from_data(&args[1]) {
                        Ok(x) => x,
                        Err(e) => {
                            return Err(e);
                        },
                    };
                    Ok(GovernanceAction::NewConstitution { id, constitution })
                } else if *tag == 6 {
                    Ok(GovernanceAction::InfoAction)
                } else {
                    Err(DataError::UnexpectedTag { expected: "GovernanceAction", got: *tag })
                }
            },
            _ => Err(DataError::UnexpectedVariant { expected: "Constr" }),
        }
    }

    proof fn law_roundtrip(v: GovernanceAction, w: GovernanceAction) {
        match v {
            GovernanceAction::ParameterChange { id, parameters, constitution_script } => {
                <Option<GovernanceActionId> as FromData>::law_roundtrip(id@, id@);
                <Datum as FromData>::law_roundtrip(parameters@, parameters@);
                <Option<crate::ledger::v1::Hash> as FromData>::law_roundtrip(constitution_script@, constitution_script@);
                if let GovernanceAction::ParameterChange { id: w_id, parameters: w_parameters, constitution_script: w_constitution_script } = w {
                    <Option<GovernanceActionId> as FromData>::law_roundtrip(id@, w_id@);
                    <Datum as FromData>::law_roundtrip(parameters@, w_parameters@);
                    <Option<crate::ledger::v1::Hash> as FromData>::law_roundtrip(constitution_script@, w_constitution_script@);
                }
            },
            GovernanceAction::HardForkInitiation { id, protocol_version } => {
                <Option<GovernanceActionId> as FromData>::law_roundtrip(id@, id@);
                <ProtocolVersion as FromData>::law_roundtrip(protocol_version@, protocol_version@);
                if let GovernanceAction::HardForkInitiation { id: w_id, protocol_version: w_protocol_version } = w {
                    <Option<GovernanceActionId> as FromData>::law_roundtrip(id@, w_id@);
                    <ProtocolVersion as FromData>::law_roundtrip(protocol_version@, w_protocol_version@);
                }
            },
            GovernanceAction::TreasuryWithdrawals { withdrawals, constitution_script } => {
                <Datum as FromData>::law_roundtrip(withdrawals@, withdrawals@);
                <Option<crate::ledger::v1::Hash> as FromData>::law_roundtrip(constitution_script@, constitution_script@);
                if let GovernanceAction::TreasuryWithdrawals { withdrawals: w_withdrawals, constitution_script: w_constitution_script } = w {
                    <Datum as FromData>::law_roundtrip(withdrawals@, w_withdrawals@);
                    <Option<crate::ledger::v1::Hash> as FromData>::law_roundtrip(constitution_script@, w_constitution_script@);
                }
            },
            GovernanceAction::NoConfidence { id } => {
                <Option<GovernanceActionId> as FromData>::law_roundtrip(id@, id@);
                if let GovernanceAction::NoConfidence { id: w_id } = w {
                    <Option<GovernanceActionId> as FromData>::law_roundtrip(id@, w_id@);
                }
            },
            GovernanceAction::UpdateCommittee { id, removed_members, added_members, new_quorum } => {
                <Option<GovernanceActionId> as FromData>::law_roundtrip(id@, id@);
                <List<ColdCommitteeCredential> as FromData>::law_roundtrip(removed_members@, removed_members@);
                <Datum as FromData>::law_roundtrip(added_members@, added_members@);
                <Datum as FromData>::law_roundtrip(new_quorum@, new_quorum@);
                if let GovernanceAction::UpdateCommittee { id: w_id, removed_members: w_removed_members, added_members: w_added_members, new_quorum: w_new_quorum } = w {
                    <Option<GovernanceActionId> as FromData>::law_roundtrip(id@, w_id@);
                    <List<ColdCommitteeCredential> as FromData>::law_roundtrip(removed_members@, w_removed_members@);
                    <Datum as FromData>::law_roundtrip(added_members@, w_added_members@);
                    <Datum as FromData>::law_roundtrip(new_quorum@, w_new_quorum@);
                }
            },
            GovernanceAction::NewConstitution { id, constitution } => {
                <Option<GovernanceActionId> as FromData>::law_roundtrip(id@, id@);
                <Option<crate::ledger::v1::Hash> as FromData>::law_roundtrip(constitution@, constitution@);
                if let GovernanceAction::NewConstitution { id: w_id, constitution: w_constitution } = w {
                    <Option<GovernanceActionId> as FromData>::law_roundtrip(id@, w_id@);
                    <Option<crate::ledger::v1::Hash> as FromData>::law_roundtrip(constitution@, w_constitution@);
                }
            },
            GovernanceAction::InfoAction => {},
        }
    }
}

impl FromData for ProposalProcedure {
    open spec fn decodable(d: DataM) -> bool {
        d matches DataM::Constr(tag, args) && tag == 0 && args.len() >= 3
            && <Lovelace as FromData>::decodable(args[0])
            && <Credential as FromData>::decodable(args[1])
            && <GovernanceAction as FromData>::decodable(args[2])
    }

    open spec fn decodes_to(d: DataM, v: ProposalProcedure) -> bool {
        d matches DataM::Constr(tag, args) && tag == 0 && args.len() >= 3
            && <Lovelace as FromData>::decodes_to(args[0], v.deposit@)
            && <Credential as FromData>::decodes_to(args[1], v.return_address@)
            && <GovernanceAction as FromData>::decodes_to(args[2], v.governance_action@)
    }

    open spec fn decode_error(d: DataM) -> DataError {
        match d {
            DataM::Constr(tag, args) => if tag != 0 {
                DataError::UnexpectedTag { expected: "ProposalProcedure", got: tag }
            } else {
                if args.len() == 0 {
                    DataError::MissingField { index: 0 }
                } else if !<Lovelace as FromData>::decodable(args[0]) {
                    <Lovelace as FromData>::decode_error(args[0])
                } else if args.len() == 1 {
                    DataError::MissingField { index: 1 }
                } else if !<Credential as FromData>::decodable(args[1]) {
                    <Credential as FromData>::decode_error(args[1])
                } else if args.len() == 2 {
                    DataError::MissingField { index: 2 }
                } else {
                    <GovernanceAction as FromData>::decode_error(args[2])
                }
            },
            _ => DataError::UnexpectedVariant { expected: "Constr" },
        }
    }

    fn from_data(data: &Data) -> (r: Result<ProposalProcedure, DataError>) {
        match data {
            Data::Constr { tag, args } => {
                proof {
                    lemma_datas_of(args@);
                }
                if *tag != 0 {
                    return Err(DataError::UnexpectedTag { expected: "ProposalProcedure", got: *tag });
                }
                if args.len() == 0 {
                    return Err(DataError::MissingField { index: 0 });
                }
                let deposit = match <Lovelace as FromData>::from_data(&args[0]) {
                    Ok(x) => x,
                    Err(e) => {
                        return Err(e);
                    },
                };
                if args.len() <= 1 {
                    return Err(DataError::MissingField { index: 1 });
                }
                let return_address = match <Credential as FromData>::from_data(&args[1]) {
                    Ok(x) => x,
                    Err(e) => {
                        return Err(e);
                    },
                };
                if args.len() <= 2 {
                    return Err(DataError::MissingField { index: 2 });
                }
                let governance_action = match <GovernanceAction as FromData>::from_data(&args[2]) {
                    Ok(x) => x,
                    Err(e) => {
                        return Err(e);
                    },
                };
                Ok(ProposalProcedure { deposit, return_address, governance_action })
            },
            _ => Err(DataError::UnexpectedVariant { expected: "Constr" }),
        }
    }

    proof fn law_roundtrip(v: ProposalProcedure, w: ProposalProcedure) {
        <Lovelace as FromData>::law_roundtrip(v.deposit@, w.deposit@);
        <Credential as FromData>::law_roundtrip(v.return_address@, w.return_address@);
        <GovernanceAction as FromData>::law_roundtrip(v.governance_action@, w.governance_action@);
    }
}

impl FromData for ScriptPurpose {
    open spec fn decodable(d: DataM) -> bool {
        match d {
            DataM::Constr(tag, args) => (tag == 0 && args.len() >= 1 && <PolicyId as FromData>::decodable(args[0]))
                || (tag == 1 && args.len() >= 1 && <TxOutRef as FromData>::decodable(args[0]))
                || (tag == 2 && args.len() >= 1 && <Credential as FromData>::decodable(args[0]))
                || (tag == 3 && args.len() >= 2 && <Integer as FromData>::decodable(args[0]) && <TxCert as FromData>::decodable(args[1]))
                || (tag == 4 && args.len() >= 1 && <Voter as FromData>::decodable(args[0]))
                || (tag == 5 && args.len() >= 2 && <Integer as FromData>::decodable(args[0]) && <ProposalProcedure as FromData>::decodable(args[1])),
            _ => false,
        }
    }

    open spec fn decodes_to(d: DataM, v: ScriptPurpose) -> bool {
        match v {
            ScriptPurpose::Minting { policy_id } => d matches DataM::Constr(tag, args)
                && tag == 0
                && args.len() >= 1
                && <PolicyId as FromData>::decodes_to(args[0], policy_id@),
            ScriptPurpose::Spending { tx_out_ref } => d matches DataM::Constr(tag, args)
                && tag == 1
                && args.len() >= 1
                && <TxOutRef as FromData>::decodes_to(args[0], tx_out_ref@),
            ScriptPurpose::Rewarding { credential } => d matches DataM::Constr(tag, args)
                && tag == 2
                && args.len() >= 1
                && <Credential as FromData>::decodes_to(args[0], credential@),
            ScriptPurpose::Certifying { index, cert } => d matches DataM::Constr(tag, args)
                && tag == 3
                && args.len() >= 2
                && <Integer as FromData>::decodes_to(args[0], index@)
                && <TxCert as FromData>::decodes_to(args[1], cert@),
            ScriptPurpose::Voting { voter } => d matches DataM::Constr(tag, args)
                && tag == 4
                && args.len() >= 1
                && <Voter as FromData>::decodes_to(args[0], voter@),
            ScriptPurpose::Proposing { index, procedure } => d matches DataM::Constr(tag, args)
                && tag == 5
                && args.len() >= 2
                && <Integer as FromData>::decodes_to(args[0], index@)
                && <ProposalProcedure as FromData>::decodes_to(args[1], procedure@),
        }
    }

    open spec fn decode_error(d: DataM) -> DataError {
        match d {
            DataM::Constr(tag, args) => if tag == 0 {
                if args.len() == 0 {
                    DataError::MissingField { index: 0 }
                } else {
                    <PolicyId as FromData>::decode_error(args[0])
                }
            } else if tag == 1 {
                if args.len() == 0 {
                    DataError::MissingField { index: 0 }
                } else {
                    <TxOutRef as FromData>::decode_error(args[0])
                }
            } else if tag == 2 {
                if args.len() == 0 {
                    DataError::MissingField { index: 0 }
                } else {
                    <Credential as FromData>::decode_error(args[0])
                }
            } else if tag == 3 {
                if args.len() == 0 {
                    DataError::MissingField { index: 0 }
                } else if !<Integer as FromData>::decodable(args[0]) {
                    <Integer as FromData>::decode_error(args[0])
                } else if args.len() == 1 {
                    DataError::MissingField { index: 1 }
                } else {
                    <TxCert as FromData>::decode_error(args[1])
                }
            } else if tag == 4 {
                if args.len() == 0 {
                    DataError::MissingField { index: 0 }
                } else {
                    <Voter as FromData>::decode_error(args[0])
                }
            } else if tag == 5 {
                if args.len() == 0 {
                    DataError::MissingField { index: 0 }
                } else if !<Integer as FromData>::decodable(args[0]) {
                    <Integer as FromData>::decode_error(args[0])
                } else if args.len() == 1 {
                    DataError::MissingField { index: 1 }
                } else {
                    <ProposalProcedure as FromData>::decode_error(args[1])
                }
            } else {
                DataError::UnexpectedTag { expected: "ScriptPurpose", got: tag }
            },
            _ => DataError::UnexpectedVariant { expected: "Constr" },
        }
    }

    fn from_data(data: &Data) -> (r: Result<ScriptPurpose, DataError>) {
        match data {
            Data::Constr { tag, args } => {
                proof {
                    lemma_datas_of(args@);
                }
                if *tag == 0 {
                    if args.len() == 0 {
                        return Err(DataError::MissingField { index: 0 });
                    }
                    let policy_id = match <PolicyId as FromData>::from_data(&args[0]) {
                        Ok(x) => x,
                        Err(e) => {
                            return Err(e);
                        },
                    };
                    Ok(ScriptPurpose::Minting { policy_id })
                } else if *tag == 1 {
                    if args.len() == 0 {
                        return Err(DataError::MissingField { index: 0 });
                    }
                    let tx_out_ref = match <TxOutRef as FromData>::from_data(&args[0]) {
                        Ok(x) => x,
                        Err(e) => {
                            return Err(e);
                        },
                    };
                    Ok(ScriptPurpose::Spending { tx_out_ref })
                } else if *tag == 2 {
                    if args.len() == 0 {
                        return Err(DataError::MissingField { index: 0 });
                    }
                    let credential = match <Credential as FromData>::from_data(&args[0]) {
                        Ok(x) => x,
                        Err(e) => {
                            return Err(e);
                        },
                    };
                    Ok(ScriptPurpose::Rewarding { credential })
                } else if *tag == 3 {
                    if args.len() == 0 {
                        return Err(DataError::MissingField { index: 0 });
                    }
                    let index = match <Integer as FromData>::from_data(&args[0]) {
                        Ok(x) => x,
                        Err(e) => {
                            return Err(e);
                        },
                    };
                    if args.len() <= 1 {
                        return Err(DataError::MissingField { index: 1 });
                    }
                    let cert = match <TxCert as FromData>::from_data(&args[1]) {
                        Ok(x) => x,
                        Err(e) => {
                            return Err(e);
                        },
                    };
                    Ok(ScriptPurpose::Certifying { index, cert })
                } else if *tag == 4 {
                    if args.len() == 0 {
                        return Err(DataError::MissingField { index: 0 });
                    }
                    let voter = match <Voter as FromData>::from_data(&args[0]) {
                        Ok(x) => x,
                        Err(e) => {
                            return Err(e);
                        },
                    };
                    Ok(ScriptPurpose::Voting { voter })
                } else if *tag == 5 {
                    if args.len() == 0 {
                        return Err(DataError::MissingField { index: 0 });
                    }
                    let index = match <Integer as FromData>::from_data(&args[0]) {
                        Ok(x) => x,
                        Err(e) => {
                            return Err(e);
                        },
                    };
                    if args.len() <= 1 {
                        return Err(DataError::MissingField { index: 1 });
                    }
                    let procedure = match <ProposalProcedure as FromData>::from_data(&args[1]) {
                        Ok(x) => x,
                        Err(e) => {
                            return Err(e);
                        },
                    };
                    Ok(ScriptPurpose::Proposing { index, procedure })
                } else {
                    Err(DataError::UnexpectedTag { expected: "ScriptPurpose", got: *tag })
                }
            },
            _ => Err(DataError::UnexpectedVariant { expected: "Constr" }),
        }
    }

    proof fn law_roundtrip(v: ScriptPurpose, w: ScriptPurpose) {
        match v {
            ScriptPurpose::Minting { policy_id } => {
                <PolicyId as FromData>::law_roundtrip(policy_id@, policy_id@);
                if let ScriptPurpose::Minting { policy_id: w_policy_id } = w {
                    <PolicyId as FromData>::law_roundtrip(policy_id@, w_policy_id@);
                }
            },
            ScriptPurpose::Spending { tx_out_ref } => {
                <TxOutRef as FromData>::law_roundtrip(tx_out_ref@, tx_out_ref@);
                if let ScriptPurpose::Spending { tx_out_ref: w_tx_out_ref } = w {
                    <TxOutRef as FromData>::law_roundtrip(tx_out_ref@, w_tx_out_ref@);
                }
            },
            ScriptPurpose::Rewarding { credential } => {
                <Credential as FromData>::law_roundtrip(credential@, credential@);
                if let ScriptPurpose::Rewarding { credential: w_credential } = w {
                    <Credential as FromData>::law_roundtrip(credential@, w_credential@);
                }
            },
            ScriptPurpose::Certifying { index, cert } => {
                <Integer as FromData>::law_roundtrip(index@, index@);
                <TxCert as FromData>::law_roundtrip(cert@, cert@);
                if let ScriptPurpose::Certifying { index: w_index, cert: w_cert } = w {
                    <Integer as FromData>::law_roundtrip(index@, w_index@);
                    <TxCert as FromData>::law_roundtrip(cert@, w_cert@);
                }
            },
            ScriptPurpose::Voting { voter } => {
                <Voter as FromData>::law_roundtrip(voter@, voter@);
                if let ScriptPurpose::Voting { voter: w_voter } = w {
                    <Voter as FromData>::law_roundtrip(voter@, w_voter@);
                }
            },
            ScriptPurpose::Proposing { index, procedure } => {
                <Integer as FromData>::law_roundtrip(index@, index@);
                <ProposalProcedure as FromData>::law_roundtrip(procedure@, procedure@);
                if let ScriptPurpose::Proposing { index: w_index, procedure: w_procedure } = w {
                    <Integer as FromData>::law_roundtrip(index@, w_index@);
                    <ProposalProcedure as FromData>::law_roundtrip(procedure@, w_procedure@);
                }
            },
        }
    }
}

impl FromData for ScriptInfo {
    open spec fn decodable(d: DataM) -> bool {
        match d {
            DataM::Constr(tag, args) => (tag == 0 && args.len() >= 1 && <PolicyId as FromData>::decodable(args[0]))
                || (tag == 1 && args.len() >= 2 && <TxOutRef as FromData>::decodable(args[0]) && <Option<Datum> as FromData>::decodable(args[1]))
                || (tag == 2 && args.len() >= 1 && <Credential as FromData>::decodable(args[0]))
                || (tag == 3 && args.len() >= 2 && <Integer as FromData>::decodable(args[0]) && <TxCert as FromData>::decodable(args[1]))
                || (tag == 4 && args.len() >= 1 && <Voter as FromData>::decodable(args[0]))
                || (tag == 5 && args.len() >= 2 && <Integer as FromData>::decodable(args[0]) && <ProposalProcedure as FromData>::decodable(args[1])),
            _ => false,
        }
    }

    open spec fn decodes_to(d: DataM, v: ScriptInfo) -> bool {
        match v {
            ScriptInfo::MintingScript { policy_id } => d matches DataM::Constr(tag, args)
                && tag == 0
                && args.len() >= 1
                && <PolicyId as FromData>::decodes_to(args[0], policy_id@),
            ScriptInfo::SpendingScript { tx_out_ref, datum } => d matches DataM::Constr(tag, args)
                && tag == 1
                && args.len() >= 2
                && <TxOutRef as FromData>::decodes_to(args[0], tx_out_ref@)
                && <Option<Datum> as FromData>::decodes_to(args[1], datum@),
            ScriptInfo::RewardingScript { credential } => d matches DataM::Constr(tag, args)
                && tag == 2
                && args.len() >= 1
                && <Credential as FromData>::decodes_to(args[0], credential@),
            ScriptInfo::CertifyingScript { index, cert } => d matches DataM::Constr(tag, args)
                && tag == 3
                && args.len() >= 2
                && <Integer as FromData>::decodes_to(args[0], index@)
                && <TxCert as FromData>::decodes_to(args[1], cert@),
            ScriptInfo::VotingScript { voter } => d matches DataM::Constr(tag, args)
                && tag == 4
                && args.len() >= 1
                && <Voter as FromData>::decodes_to(args[0], voter@),
            ScriptInfo::ProposingScript { index, procedure } => d matches DataM::Constr(tag, args)
                && tag == 5
                && args.len() >= 2
                && <Integer as FromData>::decodes_to(args[0], index@)
                && <ProposalProcedure as FromData>::decodes_to(args[1], procedure@),
        }
    }

    open spec fn decode_error(d: DataM) -> DataError {
        match d {
            DataM::Constr(tag, args) => if tag == 0 {
                if args.len() == 0 {
                    DataError::MissingField { index: 0 }
                } else {
                    <PolicyId as FromData>::decode_error(args[0])
                }
            } else if tag == 1 {
                if args.len() == 0 {
                    DataError::MissingField { index: 0 }
                } else if !<TxOutRef as FromData>::decodable(args[0]) {
                    <TxOutRef as FromData>::decode_error(args[0])
                } else if args.len() == 1 {
                    DataError::MissingField { index: 1 }
                } else {
                    <Option<Datum> as FromData>::decode_error(args[1])
                }
            } else if tag == 2 {
                if args.len() == 0 {
                    DataError::MissingField { index: 0 }
                } else {
                    <Credential as FromData>::decode_error(args[0])
                }
            } else if tag == 3 {
                if args.len() == 0 {
                    DataError::MissingField { index: 0 }
                } else if !<Integer as FromData>::decodable(args[0]) {
                    <Integer as FromData>::decode_error(args[0])
                } else if args.len() == 1 {
                    DataError::MissingField { index: 1 }
                } else {
                    <TxCert as FromData>::decode_error(args[1])
                }
            } else if tag == 4 {
                if args.len() == 0 {
                    DataError::MissingField { index: 0 }
                } else {
                    <Voter as FromData>::decode_error(args[0])
                }
            } else if tag == 5 {
                if args.len() == 0 {
                    DataError::MissingField { index: 0 }
                } else if !<Integer as FromData>::decodable(args[0]) {
                    <Integer as FromData>::decode_error(args[0])
                } else if args.len() == 1 {
                    DataError::MissingField { index: 1 }
                } else {
                    <ProposalProcedure as FromData>::decode_error(args[1])
                }
            } else {
                DataError::UnexpectedTag { expected: "ScriptInfo", got: tag }
            },
            _ => DataError::UnexpectedVariant { expected: "Constr" },
        }
    }

    fn from_data(data: &Data) -> (r: Result<ScriptInfo, DataError>) {
        match data {
            Data::Constr { tag, args } => {
                proof {
                    lemma_datas_of(args@);
                }
                if *tag == 0 {
                    if args.len() == 0 {
                        return Err(DataError::MissingField { index: 0 });
                    }
                    let policy_id = match <PolicyId as FromData>::from_data(&args[0]) {
                        Ok(x) => x,
                        Err(e) => {
                            return Err(e);
                        },
                    };
                    Ok(ScriptInfo::MintingScript { policy_id })
                } else if *tag == 1 {
                    if args.len() == 0 {
                        return Err(DataError::MissingField { index: 0 });
                    }
                    let tx_out_ref = match <TxOutRef as FromData>::from_data(&args[0]) {
                        Ok(x) => x,
                        Err(e) => {
                            return Err(e);
                        },
                    };
                    if args.len() <= 1 {
                        return Err(DataError::MissingField { index: 1 });
                    }
                    let datum = match <Option<Datum> as FromData>::from_data(&args[1]) {
                        Ok(x) => x,
                        Err(e) => {
                            return Err(e);
                        },
                    };
                    Ok(ScriptInfo::SpendingScript { tx_out_ref, datum })
                } else if *tag == 2 {
                    if args.len() == 0 {
                        return Err(DataError::MissingField { index: 0 });
                    }
                    let credential = match <Credential as FromData>::from_data(&args[0]) {
                        Ok(x) => x,
                        Err(e) => {
                            return Err(e);
                        },
                    };
                    Ok(ScriptInfo::RewardingScript { credential })
                } else if *tag == 3 {
                    if args.len() == 0 {
                        return Err(DataError::MissingField { index: 0 });
                    }
                    let index = match <Integer as FromData>::from_data(&args[0]) {
                        Ok(x) => x,
                        Err(e) => {
                            return Err(e);
                        },
                    };
                    if args.len() <= 1 {
                        return Err(DataError::MissingField { index: 1 });
                    }
                    let cert = match <TxCert as FromData>::from_data(&args[1]) {
                        Ok(x) => x,
                        Err(e) => {
                            return Err(e);
                        },
                    };
                    Ok(ScriptInfo::CertifyingScript { index, cert })
                } else if *tag == 4 {
                    if args.len() == 0 {
                        return Err(DataError::MissingField { index: 0 });
                    }
                    let voter = match <Voter as FromData>::from_data(&args[0]) {
                        Ok(x) => x,
                        Err(e) => {
                            return Err(e);
                        },
                    };
                    Ok(ScriptInfo::VotingScript { voter })
                } else if *tag == 5 {
                    if args.len() == 0 {
                        return Err(DataError::MissingField { index: 0 });
                    }
                    let index = match <Integer as FromData>::from_data(&args[0]) {
                        Ok(x) => x,
                        Err(e) => {
                            return Err(e);
                        },
                    };
                    if args.len() <= 1 {
                        return Err(DataError::MissingField { index: 1 });
                    }
                    let procedure = match <ProposalProcedure as FromData>::from_data(&args[1]) {
                        Ok(x) => x,
                        Err(e) => {
                            return Err(e);
                        },
                    };
                    Ok(ScriptInfo::ProposingScript { index, procedure })
                } else {
                    Err(DataError::UnexpectedTag { expected: "ScriptInfo", got: *tag })
                }
            },
            _ => Err(DataError::UnexpectedVariant { expected: "Constr" }),
        }
    }

    proof fn law_roundtrip(v: ScriptInfo, w: ScriptInfo) {
        match v {
            ScriptInfo::MintingScript { policy_id } => {
                <PolicyId as FromData>::law_roundtrip(policy_id@, policy_id@);
                if let ScriptInfo::MintingScript { policy_id: w_policy_id } = w {
                    <PolicyId as FromData>::law_roundtrip(policy_id@, w_policy_id@);
                }
            },
            ScriptInfo::SpendingScript { tx_out_ref, datum } => {
                <TxOutRef as FromData>::law_roundtrip(tx_out_ref@, tx_out_ref@);
                <Option<Datum> as FromData>::law_roundtrip(datum@, datum@);
                if let ScriptInfo::SpendingScript { tx_out_ref: w_tx_out_ref, datum: w_datum } = w {
                    <TxOutRef as FromData>::law_roundtrip(tx_out_ref@, w_tx_out_ref@);
                    <Option<Datum> as FromData>::law_roundtrip(datum@, w_datum@);
                }
            },
            ScriptInfo::RewardingScript { credential } => {
                <Credential as FromData>::law_roundtrip(credential@, credential@);
                if let ScriptInfo::RewardingScript { credential: w_credential } = w {
                    <Credential as FromData>::law_roundtrip(credential@, w_credential@);
                }
            },
            ScriptInfo::CertifyingScript { index, cert } => {
                <Integer as FromData>::law_roundtrip(index@, index@);
                <TxCert as FromData>::law_roundtrip(cert@, cert@);
                if let ScriptInfo::CertifyingScript { index: w_index, cert: w_cert } = w {
                    <Integer as FromData>::law_roundtrip(index@, w_index@);
                    <TxCert as FromData>::law_roundtrip(cert@, w_cert@);
                }
            },
            ScriptInfo::VotingScript { voter } => {
                <Voter as FromData>::law_roundtrip(voter@, voter@);
                if let ScriptInfo::VotingScript { voter: w_voter } = w {
                    <Voter as FromData>::law_roundtrip(voter@, w_voter@);
                }
            },
            ScriptInfo::ProposingScript { index, procedure } => {
                <Integer as FromData>::law_roundtrip(index@, index@);
                <ProposalProcedure as FromData>::law_roundtrip(procedure@, procedure@);
                if let ScriptInfo::ProposingScript { index: w_index, procedure: w_procedure } = w {
                    <Integer as FromData>::law_roundtrip(index@, w_index@);
                    <ProposalProcedure as FromData>::law_roundtrip(procedure@, w_procedure@);
                }
            },
        }
    }
}

impl FromData for OutputDatum {
    open spec fn decodable(d: DataM) -> bool {
        match d {
            DataM::Constr(tag, args) => (tag == 0)
                || (tag == 1 && args.len() >= 1 && <DatumHash as FromData>::decodable(args[0]))
                || (tag == 2 && args.len() >= 1 && <Datum as FromData>::decodable(args[0])),
            _ => false,
        }
    }

    open spec fn decodes_to(d: DataM, v: OutputDatum) -> bool {
        match v {
            OutputDatum::NoOutputDatum => d matches DataM::Constr(tag, _) && tag == 0,
            OutputDatum::OutputDatumHash { hash } => d matches DataM::Constr(tag, args)
                && tag == 1
                && args.len() >= 1
                && <DatumHash as FromData>::decodes_to(args[0], hash@),
            OutputDatum::OutputDatum { datum } => d matches DataM::Constr(tag, args)
                && tag == 2
                && args.len() >= 1
                && <Datum as FromData>::decodes_to(args[0], datum@),
        }
    }

    open spec fn decode_error(d: DataM) -> DataError {
        match d {
            DataM::Constr(tag, args) => if tag == 0 {
                DataError::UnexpectedTag { expected: "OutputDatum", got: tag }
            } else if tag == 1 {
                if args.len() == 0 {
                    DataError::MissingField { index: 0 }
                } else {
                    <DatumHash as FromData>::decode_error(args[0])
                }
            } else if tag == 2 {
                if args.len() == 0 {
                    DataError::MissingField { index: 0 }
                } else {
                    <Datum as FromData>::decode_error(args[0])
                }
            } else {
                DataError::UnexpectedTag { expected: "OutputDatum", got: tag }
            },
            _ => DataError::UnexpectedVariant { expected: "Constr" },
        }
    }

    fn from_data(data: &Data) -> (r: Result<OutputDatum, DataError>) {
        match data {
            Data::Constr { tag, args } => {
                proof {
                    lemma_datas_of(args@);
                }
                if *tag == 0 {
                    Ok(OutputDatum::NoOutputDatum)
                } else if *tag == 1 {
                    if args.len() == 0 {
                        return Err(DataError::MissingField { index: 0 });
                    }
                    let hash = match <DatumHash as FromData>::from_data(&args[0]) {
                        Ok(x) => x,
                        Err(e) => {
                            return Err(e);
                        },
                    };
                    Ok(OutputDatum::OutputDatumHash { hash })
                } else if *tag == 2 {
                    if args.len() == 0 {
                        return Err(DataError::MissingField { index: 0 });
                    }
                    let datum = match <Datum as FromData>::from_data(&args[0]) {
                        Ok(x) => x,
                        Err(e) => {
                            return Err(e);
                        },
                    };
                    Ok(OutputDatum::OutputDatum { datum })
                } else {
                    Err(DataError::UnexpectedTag { expected: "OutputDatum", got: *tag })
                }
            },
            _ => Err(DataError::UnexpectedVariant { expected: "Constr" }),
        }
    }

    proof fn law_roundtrip(v: OutputDatum, w: OutputDatum) {
        match v {
            OutputDatum::NoOutputDatum => {},
            OutputDatum::OutputDatumHash { hash } => {
                <DatumHash as FromData>::law_roundtrip(hash@, hash@);
                if let OutputDatum::OutputDatumHash { hash: w_hash } = w {
                    <DatumHash as FromData>::law_roundtrip(hash@, w_hash@);
                }
            },
            OutputDatum::OutputDatum { datum } => {
                <Datum as FromData>::law_roundtrip(datum@, datum@);
                if let OutputDatum::OutputDatum { datum: w_datum } = w {
                    <Datum as FromData>::law_roundtrip(datum@, w_datum@);
                }
            },
        }
    }
}

impl FromData for TxOut {
    open spec fn decodable(d: DataM) -> bool {
        d matches DataM::Constr(tag, args) && tag == 0 && args.len() >= 4
            && <Address as FromData>::decodable(args[0])
            && <Value as FromData>::decodable(args[1])
            && <OutputDatum as FromData>::decodable(args[2])
            && <Option<crate::ledger::v1::Hash> as FromData>::decodable(args[3])
    }

    open spec fn decodes_to(d: DataM, v: TxOut) -> bool {
        d matches DataM::Constr(tag, args) && tag == 0 && args.len() >= 4
            && <Address as FromData>::decodes_to(args[0], v.address@)
            && <Value as FromData>::decodes_to(args[1], v.value@)
            && <OutputDatum as FromData>::decodes_to(args[2], v.datum@)
            && <Option<crate::ledger::v1::Hash> as FromData>::decodes_to(args[3], v.reference_script@)
    }

    open spec fn decode_error(d: DataM) -> DataError {
        match d {
            DataM::Constr(tag, args) => if tag != 0 {
                DataError::UnexpectedTag { expected: "TxOut", got: tag }
            } else {
                if args.len() == 0 {
                    DataError::MissingField { index: 0 }
                } else if !<Address as FromData>::decodable(args[0]) {
                    <Address as FromData>::decode_error(args[0])
                } else if args.len() == 1 {
                    DataError::MissingField { index: 1 }
                } else if !<Value as FromData>::decodable(args[1]) {
                    <Value as FromData>::decode_error(args[1])
                } else if args.len() == 2 {
                    DataError::MissingField { index: 2 }
                } else if !<OutputDatum as FromData>::decodable(args[2]) {
                    <OutputDatum as FromData>::decode_error(args[2])
                } else if args.len() == 3 {
                    DataError::MissingField { index: 3 }
                } else {
                    <Option<crate::ledger::v1::Hash> as FromData>::decode_error(args[3])
                }
            },
            _ => DataError::UnexpectedVariant { expected: "Constr" },
        }
    }

    fn from_data(data: &Data) -> (r: Result<TxOut, DataError>) {
        match data {
            Data::Constr { tag, args } => {
                proof {
                    lemma_datas_of(args@);
                }
                if *tag != 0 {
                    return Err(DataError::UnexpectedTag { expected: "TxOut", got: *tag });
                }
                if args.len() == 0 {
                    return Err(DataError::MissingField { index: 0 });
                }
                let address = match <Address as FromData>::from_data(&args[0]) {
                    Ok(x) => x,
                    Err(e) => {
                        return Err(e);
                    },
                };
                if args.len() <= 1 {
                    return Err(DataError::MissingField { index: 1 });
                }
                let value = match <Value as FromData>::from_data(&args[1]) {
                    Ok(x) => x,
                    Err(e) => {
                        return Err(e);
                    },
                };
                if args.len() <= 2 {
                    return Err(DataError::MissingField { index: 2 });
                }
                let datum = match <OutputDatum as FromData>::from_data(&args[2]) {
                    Ok(x) => x,
                    Err(e) => {
                        return Err(e);
                    },
                };
                if args.len() <= 3 {
                    return Err(DataError::MissingField { index: 3 });
                }
                let reference_script = match <Option<crate::ledger::v1::Hash> as FromData>::from_data(&args[3]) {
                    Ok(x) => x,
                    Err(e) => {
                        return Err(e);
                    },
                };
                Ok(TxOut { address, value, datum, reference_script })
            },
            _ => Err(DataError::UnexpectedVariant { expected: "Constr" }),
        }
    }

    proof fn law_roundtrip(v: TxOut, w: TxOut) {
        <Address as FromData>::law_roundtrip(v.address@, w.address@);
        <Value as FromData>::law_roundtrip(v.value@, w.value@);
        <OutputDatum as FromData>::law_roundtrip(v.datum@, w.datum@);
        <Option<crate::ledger::v1::Hash> as FromData>::law_roundtrip(v.reference_script@, w.reference_script@);
    }
}

impl FromData for TxInInfo {
    open spec fn decodable(d: DataM) -> bool {
        d matches DataM::Constr(tag, args) && tag == 0 && args.len() >= 2
            && <TxOutRef as FromData>::decodable(args[0])
            && <TxOut as FromData>::decodable(args[1])
    }

    open spec fn decodes_to(d: DataM, v: TxInInfo) -> bool {
        d matches DataM::Constr(tag, args) && tag == 0 && args.len() >= 2
            && <TxOutRef as FromData>::decodes_to(args[0], v.out_ref@)
            && <TxOut as FromData>::decodes_to(args[1], v.resolved@)
    }

    open spec fn decode_error(d: DataM) -> DataError {
        match d {
            DataM::Constr(tag, args) => if tag != 0 {
                DataError::UnexpectedTag { expected: "TxInInfo", got: tag }
            } else {
                if args.len() == 0 {
                    DataError::MissingField { index: 0 }
                } else if !<TxOutRef as FromData>::decodable(args[0]) {
                    <TxOutRef as FromData>::decode_error(args[0])
                } else if args.len() == 1 {
                    DataError::MissingField { index: 1 }
                } else {
                    <TxOut as FromData>::decode_error(args[1])
                }
            },
            _ => DataError::UnexpectedVariant { expected: "Constr" },
        }
    }

    fn from_data(data: &Data) -> (r: Result<TxInInfo, DataError>) {
        match data {
            Data::Constr { tag, args } => {
                proof {
                    lemma_datas_of(args@);
                }
                if *tag != 0 {
                    return Err(DataError::UnexpectedTag { expected: "TxInInfo", got: *tag });
                }
                if args.len() == 0 {
                    return Err(DataError::MissingField { index: 0 });
                }
                let out_ref = match <TxOutRef as FromData>::from_data(&args[0]) {
                    Ok(x) => x,
                    Err(e) => {
                        return Err(e);
                    },
                };
                if args.len() <= 1 {
                    return Err(DataError::MissingField { index: 1 });
                }
                let resolved = match <TxOut as FromData>::from_data(&args[1]) {
                    Ok(x) => x,
                    Err(e) => {
                        return Err(e);
                    },
                };
                Ok(TxInInfo { out_ref, resolved })
            },
            _ => Err(DataError::UnexpectedVariant { expected: "Constr" }),
        }
    }

    proof fn law_roundtrip(v: TxInInfo, w: TxInInfo) {
        <TxOutRef as FromData>::law_roundtrip(v.out_ref@, w.out_ref@);
        <TxOut as FromData>::law_roundtrip(v.resolved@, w.resolved@);
    }
}

impl FromData for TxInfo {
    open spec fn decodable(d: DataM) -> bool {
        d matches DataM::Constr(tag, args) && tag == 0 && args.len() >= 16
            && <List<TxInInfo> as FromData>::decodable(args[0])
            && <List<TxInInfo> as FromData>::decodable(args[1])
            && <List<TxOut> as FromData>::decodable(args[2])
            && <Lovelace as FromData>::decodable(args[3])
            && <Value as FromData>::decodable(args[4])
            && <List<TxCert> as FromData>::decodable(args[5])
            && <SortedMap<Credential, Lovelace> as FromData>::decodable(args[6])
            && <Interval as FromData>::decodable(args[7])
            && <List<PubKeyHash> as FromData>::decodable(args[8])
            && <SortedMap<ScriptPurpose, Redeemer> as FromData>::decodable(args[9])
            && <SortedMap<DatumHash, Datum> as FromData>::decodable(args[10])
            && <TxId as FromData>::decodable(args[11])
            && <SortedMap<Voter, SortedMap<GovernanceActionId, Vote>> as FromData>::decodable(args[12])
            && <List<ProposalProcedure> as FromData>::decodable(args[13])
            && <Option<Lovelace> as FromData>::decodable(args[14])
            && <Option<Lovelace> as FromData>::decodable(args[15])
    }

    open spec fn decodes_to(d: DataM, v: TxInfo) -> bool {
        d matches DataM::Constr(tag, args) && tag == 0 && args.len() >= 16
            && <List<TxInInfo> as FromData>::decodes_to(args[0], v.inputs@)
            && <List<TxInInfo> as FromData>::decodes_to(args[1], v.reference_inputs@)
            && <List<TxOut> as FromData>::decodes_to(args[2], v.outputs@)
            && <Lovelace as FromData>::decodes_to(args[3], v.fee@)
            && <Value as FromData>::decodes_to(args[4], v.mint@)
            && <List<TxCert> as FromData>::decodes_to(args[5], v.certificates@)
            && <SortedMap<Credential, Lovelace> as FromData>::decodes_to(args[6], v.withdrawals@)
            && <Interval as FromData>::decodes_to(args[7], v.valid_range@)
            && <List<PubKeyHash> as FromData>::decodes_to(args[8], v.signatories@)
            && <SortedMap<ScriptPurpose, Redeemer> as FromData>::decodes_to(args[9], v.redeemers@)
            && <SortedMap<DatumHash, Datum> as FromData>::decodes_to(args[10], v.data@)
            && <TxId as FromData>::decodes_to(args[11], v.id@)
            && <SortedMap<Voter, SortedMap<GovernanceActionId, Vote>> as FromData>::decodes_to(args[12], v.votes@)
            && <List<ProposalProcedure> as FromData>::decodes_to(args[13], v.proposal_procedures@)
            && <Option<Lovelace> as FromData>::decodes_to(args[14], v.current_treasury_amount@)
            && <Option<Lovelace> as FromData>::decodes_to(args[15], v.treasury_donation@)
    }

    open spec fn decode_error(d: DataM) -> DataError {
        match d {
            DataM::Constr(tag, args) => if tag != 0 {
                DataError::UnexpectedTag { expected: "TxInfo", got: tag }
            } else {
                if args.len() == 0 {
                    DataError::MissingField { index: 0 }
                } else if !<List<TxInInfo> as FromData>::decodable(args[0]) {
                    <List<TxInInfo> as FromData>::decode_error(args[0])
                } else if args.len() == 1 {
                    DataError::MissingField { index: 1 }
                } else if !<List<TxInInfo> as FromData>::decodable(args[1]) {
                    <List<TxInInfo> as FromData>::decode_error(args[1])
                } else if args.len() == 2 {
                    DataError::MissingField { index: 2 }
                } else if !<List<TxOut> as FromData>::decodable(args[2]) {
                    <List<TxOut> as FromData>::decode_error(args[2])
                } else if args.len() == 3 {
                    DataError::MissingField { index: 3 }
                } else if !<Lovelace as FromData>::decodable(args[3]) {
                    <Lovelace as FromData>::decode_error(args[3])
                } else if args.len() == 4 {
                    DataError::MissingField { index: 4 }
                } else if !<Value as FromData>::decodable(args[4]) {
                    <Value as FromData>::decode_error(args[4])
                } else if args.len() == 5 {
                    DataError::MissingField { index: 5 }
                } else if !<List<TxCert> as FromData>::decodable(args[5]) {
                    <List<TxCert> as FromData>::decode_error(args[5])
                } else if args.len() == 6 {
                    DataError::MissingField { index: 6 }
                } else if !<SortedMap<Credential, Lovelace> as FromData>::decodable(args[6]) {
                    <SortedMap<Credential, Lovelace> as FromData>::decode_error(args[6])
                } else if args.len() == 7 {
                    DataError::MissingField { index: 7 }
                } else if !<Interval as FromData>::decodable(args[7]) {
                    <Interval as FromData>::decode_error(args[7])
                } else if args.len() == 8 {
                    DataError::MissingField { index: 8 }
                } else if !<List<PubKeyHash> as FromData>::decodable(args[8]) {
                    <List<PubKeyHash> as FromData>::decode_error(args[8])
                } else if args.len() == 9 {
                    DataError::MissingField { index: 9 }
                } else if !<SortedMap<ScriptPurpose, Redeemer> as FromData>::decodable(args[9]) {
                    <SortedMap<ScriptPurpose, Redeemer> as FromData>::decode_error(args[9])
                } else if args.len() == 10 {
                    DataError::MissingField { index: 10 }
                } else if !<SortedMap<DatumHash, Datum> as FromData>::decodable(args[10]) {
                    <SortedMap<DatumHash, Datum> as FromData>::decode_error(args[10])
                } else if args.len() == 11 {
                    DataError::MissingField { index: 11 }
                } else if !<TxId as FromData>::decodable(args[11]) {
                    <TxId as FromData>::decode_error(args[11])
                } else if args.len() == 12 {
                    DataError::MissingField { index: 12 }
                } else if !<SortedMap<Voter, SortedMap<GovernanceActionId, Vote>> as FromData>::decodable(args[12]) {
                    <SortedMap<Voter, SortedMap<GovernanceActionId, Vote>> as FromData>::decode_error(args[12])
                } else if args.len() == 13 {
                    DataError::MissingField { index: 13 }
                } else if !<List<ProposalProcedure> as FromData>::decodable(args[13]) {
                    <List<ProposalProcedure> as FromData>::decode_error(args[13])
                } else if args.len() == 14 {
                    DataError::MissingField { index: 14 }
                } else if !<Option<Lovelace> as FromData>::decodable(args[14]) {
                    <Option<Lovelace> as FromData>::decode_error(args[14])
                } else if args.len() == 15 {
                    DataError::MissingField { index: 15 }
                } else {
                    <Option<Lovelace> as FromData>::decode_error(args[15])
                }
            },
            _ => DataError::UnexpectedVariant { expected: "Constr" },
        }
    }

    fn from_data(data: &Data) -> (r: Result<TxInfo, DataError>) {
        match data {
            Data::Constr { tag, args } => {
                proof {
                    lemma_datas_of(args@);
                }
                if *tag != 0 {
                    return Err(DataError::UnexpectedTag { expected: "TxInfo", got: *tag });
                }
                if args.len() == 0 {
                    return Err(DataError::MissingField { index: 0 });
                }
                let inputs = match <List<TxInInfo> as FromData>::from_data(&args[0]) {
                    Ok(x) => x,
                    Err(e) => {
                        return Err(e);
                    },
                };
                if args.len() <= 1 {
                    return Err(DataError::MissingField { index: 1 });
                }
                let reference_inputs = match <List<TxInInfo> as FromData>::from_data(&args[1]) {
                    Ok(x) => x,
                    Err(e) => {
                        return Err(e);
                    },
                };
                if args.len() <= 2 {
                    return Err(DataError::MissingField { index: 2 });
                }
                let outputs = match <List<TxOut> as FromData>::from_data(&args[2]) {
                    Ok(x) => x,
                    Err(e) => {
                        return Err(e);
                    },
                };
                if args.len() <= 3 {
                    return Err(DataError::MissingField { index: 3 });
                }
                let fee = match <Lovelace as FromData>::from_data(&args[3]) {
                    Ok(x) => x,
                    Err(e) => {
                        return Err(e);
                    },
                };
                if args.len() <= 4 {
                    return Err(DataError::MissingField { index: 4 });
                }
                let mint = match <Value as FromData>::from_data(&args[4]) {
                    Ok(x) => x,
                    Err(e) => {
                        return Err(e);
                    },
                };
                if args.len() <= 5 {
                    return Err(DataError::MissingField { index: 5 });
                }
                let certificates = match <List<TxCert> as FromData>::from_data(&args[5]) {
                    Ok(x) => x,
                    Err(e) => {
                        return Err(e);
                    },
                };
                if args.len() <= 6 {
                    return Err(DataError::MissingField { index: 6 });
                }
                let withdrawals = match <SortedMap<Credential, Lovelace> as FromData>::from_data(&args[6]) {
                    Ok(x) => x,
                    Err(e) => {
                        return Err(e);
                    },
                };
                if args.len() <= 7 {
                    return Err(DataError::MissingField { index: 7 });
                }
                let valid_range = match <Interval as FromData>::from_data(&args[7]) {
                    Ok(x) => x,
                    Err(e) => {
                        return Err(e);
                    },
                };
                if args.len() <= 8 {
                    return Err(DataError::MissingField { index: 8 });
                }
                let signatories = match <List<PubKeyHash> as FromData>::from_data(&args[8]) {
                    Ok(x) => x,
                    Err(e) => {
                        return Err(e);
                    },
                };
                if args.len() <= 9 {
                    return Err(DataError::MissingField { index: 9 });
                }
                let redeemers = match <SortedMap<ScriptPurpose, Redeemer> as FromData>::from_data(&args[9]) {
                    Ok(x) => x,
                    Err(e) => {
                        return Err(e);
                    },
                };
                if args.len() <= 10 {
                    return Err(DataError::MissingField { index: 10 });
                }
                let data = match <SortedMap<DatumHash, Datum> as FromData>::from_data(&args[10]) {
                    Ok(x) => x,
                    Err(e) => {
                        return Err(e);
                    },
                };
                if args.len() <= 11 {
                    return Err(DataError::MissingField { index: 11 });
                }
                let id = match <TxId as FromData>::from_data(&args[11]) {
                    Ok(x) => x,
                    Err(e) => {
                        return Err(e);
                    },
                };
                if args.len() <= 12 {
                    return Err(DataError::MissingField { index: 12 });
                }
                let votes = match <SortedMap<Voter, SortedMap<GovernanceActionId, Vote>> as FromData>::from_data(&args[12]) {
                    Ok(x) => x,
                    Err(e) => {
                        return Err(e);
                    },
                };
                if args.len() <= 13 {
                    return Err(DataError::MissingField { index: 13 });
                }
                let proposal_procedures = match <List<ProposalProcedure> as FromData>::from_data(&args[13]) {
                    Ok(x) => x,
                    Err(e) => {
                        return Err(e);
                    },
                };
                if args.len() <= 14 {
                    return Err(DataError::MissingField { index: 14 });
                }
                let current_treasury_amount = match <Option<Lovelace> as FromData>::from_data(&args[14]) {
                    Ok(x) => x,
                    Err(e) => {
                        return Err(e);
                    },
                };
                if args.len() <= 15 {
                    return Err(DataError::MissingField { index: 15 });
                }
                let treasury_donation = match <Option<Lovelace> as FromData>::from_data(&args[15]) {
                    Ok(x) => x,
                    Err(e) => {
                        return Err(e);
                    },
                };
                Ok(TxInfo { inputs, reference_inputs, outputs, fee, mint, certificates, withdrawals, valid_range, signatories, redeemers, data, id, votes, proposal_procedures, current_treasury_amount, treasury_donation })
            },
            _ => Err(DataError::UnexpectedVariant { expected: "Constr" }),
        }
    }

    proof fn law_roundtrip(v: TxInfo, w: TxInfo) {
        <List<TxInInfo> as FromData>::law_roundtrip(v.inputs@, w.inputs@);
        <List<TxInInfo> as FromData>::law_roundtrip(v.reference_inputs@, w.reference_inputs@);
        <List<TxOut> as FromData>::law_roundtrip(v.outputs@, w.outputs@);
        <Lovelace as FromData>::law_roundtrip(v.fee@, w.fee@);
        <Value as FromData>::law_roundtrip(v.mint@, w.mint@);
        <List<TxCert> as FromData>::law_roundtrip(v.certificates@, w.certificates@);
        <SortedMap<Credential, Lovelace> as FromData>::law_roundtrip(v.withdrawals@, w.withdrawals@);
        <Interval as FromData>::law_roundtrip(v.valid_range@, w.valid_range@);
        <List<PubKeyHash> as FromData>::law_roundtrip(v.signatories@, w.signatories@);
        <SortedMap<ScriptPurpose, Redeemer> as FromData>::law_roundtrip(v.redeemers@, w.redeemers@);
        <SortedMap<DatumHash, Datum> as FromData>::law_roundtrip(v.data@, w.data@);
        <TxId as FromData>::law_roundtrip(v.id@, w.id@);
        <SortedMap<Voter, SortedMap<GovernanceActionId, Vote>> as FromData>::law_roundtrip(v.votes@, w.votes@);
        <List<ProposalProcedure> as FromData>::law_roundtrip(v.proposal_procedures@, w.proposal_procedures@);
        <Option<Lovelace> as FromData>::law_roundtrip(v.current_treasury_amount@, w.current_treasury_amount@);
        <Option<Lovelace> as FromData>::law_roundtrip(v.treasury_donation@, w.treasury_donation@);
    }
}

impl FromData for ScriptContext {
    open spec fn decodable(d: DataM) -> bool {
        d matches DataM::Constr(tag, args) && tag == 0 && args.len() >= 3
            && <TxInfo as FromData>::decodable(args[0])
            && <Redeemer as FromData>::decodable(args[1])
            && <ScriptInfo as FromData>::decodable(args[2])
    }

    open spec fn decodes_to(d: DataM, v: ScriptContext) -> bool {
        d matches DataM::Constr(tag, args) && tag == 0 && args.len() >= 3
            && <TxInfo as FromData>::decodes_to(args[0], v.tx_info@)
            && <Redeemer as FromData>::decodes_to(args[1], v.redeemer@)
            && <ScriptInfo as FromData>::decodes_to(args[2], v.script_info@)
    }

    open spec fn decode_error(d: DataM) -> DataError {
        match d {
            DataM::Constr(tag, args) => if tag != 0 {
                DataError::UnexpectedTag { expected: "ScriptContext", got: tag }
            } else {
                if args.len() == 0 {
                    DataError::MissingField { index: 0 }
                } else if !<TxInfo as FromData>::decodable(args[0]) {
                    <TxInfo as FromData>::decode_error(args[0])
                } else if args.len() == 1 {
                    DataError::MissingField { index: 1 }
                } else if !<Redeemer as FromData>::decodable(args[1]) {
                    <Redeemer as FromData>::decode_error(args[1])
                } else if args.len() == 2 {
                    DataError::MissingField { index: 2 }
                } else {
                    <ScriptInfo as FromData>::decode_error(args[2])
                }
            },
            _ => DataError::UnexpectedVariant { expected: "Constr" },
        }
    }

    fn from_data(data: &Data) -> (r: Result<ScriptContext, DataError>) {
        match data {
            Data::Constr { tag, args } => {
                proof {
                    lemma_datas_of(args@);
                }
                if *tag != 0 {
                    return Err(DataError::UnexpectedTag { expected: "ScriptContext", got: *tag });
                }
                if args.len() == 0 {
                    return Err(DataError::MissingField { index: 0 });
                }
                let tx_info = match <TxInfo as FromData>::from_data(&args[0]) {
                    Ok(x) => x,
                    Err(e) => {
                        return Err(e);
                    },
                };
                if args.len() <= 1 {
                    return Err(DataError::MissingField { index: 1 });
                }
                let redeemer = match <Redeemer as FromData>::from_data(&args[1]) {
                    Ok(x) => x,
                    Err(e) => {
                        return Err(e);
                    },
                };
                if args.len() <= 2 {
                    return Err(DataError::MissingField { index: 2 });
                }
                let script_info = match <ScriptInfo as FromData>::from_data(&args[2]) {
                    Ok(x) => x,
                    Err(e) => {
                        return Err(e);
                    },
                };
                Ok(ScriptContext { tx_info, redeemer, script_info })
            },
            _ => Err(DataError::UnexpectedVariant { expected: "Constr" }),
        }
    }

    proof fn law_roundtrip(v: ScriptContext, w: ScriptContext) {
        <TxInfo as FromData>::law_roundtrip(v.tx_info@, w.tx_info@);
        <Redeemer as FromData>::law_roundtrip(v.redeemer@, w.redeemer@);
        <ScriptInfo as FromData>::law_roundtrip(v.script_info@, w.script_info@);
    }
}


} // verus!
