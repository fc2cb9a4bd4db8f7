//! The SIR types, data declarations and on-chain equality of the prelude
//! types, as `#[derive(ToData)]` declares them for the backend's names.
use crate::assoc_map::AssocMap;
use crate::data::Data;
use crate::derive::{binding, enum_data_decl, enum_decl_spec, struct_data_decl, struct_decl_spec, tv_letter, type_var};
use crate::list::List;
use crate::model::{SirM, Ty, decl_of, params_of, tys_of};
use crate::option::Option;
use crate::order::Order;
use crate::pair::Pair;
use crate::sir::SIR;
use crate::sir_type::{DataDecl, HasSIRType, SIRType, TypeBinding};
use crate::sorted_map::SortedMap;
use crate::text::owned;
use crate::typeclasses::OnchainPartialEq;
use vstd::prelude::*;

verus! {


broadcast use {vstd::std_specs::vec::group_vec_axioms, crate::model::group_model_seqs};

/// The type variable of the first generic parameter.
pub open spec fn tv_a() -> Ty {
    Ty::TypeVar(tv_letter(0), std::option::Option::Some(1), false)
}

/// The type variable of the second generic parameter.
pub open spec fn tv_b() -> Ty {
    Ty::TypeVar(tv_letter(1), std::option::Option::Some(2), false)
}

/// A sum type of the backend applied to type arguments.
pub(crate) fn sum_type(name: &str, args: Vec<SIRType>) -> (r: SIRType)
    ensures
        crate::model::ty_of(r) == Ty::SumCaseClass(name@, tys_of(args@)),
{
    SIRType::SumCaseClass { decl_name: owned(name), type_args: args }
}

/// A record type of the backend applied to type arguments.
pub(crate) fn case_type(name: &str, args: Vec<SIRType>) -> (r: SIRType)
    ensures
        crate::model::ty_of(r) == Ty::CaseClass(name@, name@, tys_of(args@)),
{
    SIRType::CaseClass { constr_name: owned(name), decl_name: owned(name), type_args: args }
}

/// One type argument.
fn one_arg(t: SIRType) -> (r: Vec<SIRType>)
    ensures
        tys_of(r@) == seq![crate::model::ty_of(t)],
{
    let mut v: Vec<SIRType> = Vec::new();
    v.push(t);
    proof {
        crate::model::lemma_tys_of(v@);
    }
    assert(tys_of(v@) =~= seq![crate::model::ty_of(v@[0])]);
    v
}

/// Two type arguments.
fn two_args(t: SIRType, u: SIRType) -> (r: Vec<SIRType>)
    ensures
        tys_of(r@) == seq![crate::model::ty_of(t), crate::model::ty_of(u)],
{
    let mut v: Vec<SIRType> = Vec::new();
    v.push(t);
    v.push(u);
    proof {
        crate::model::lemma_tys_of(v@);
    }
    assert(tys_of(v@) =~= seq![crate::model::ty_of(v@[0]), crate::model::ty_of(v@[1])]);
    v
}

impl HasSIRType for Order {
    open spec fn sir_type_spec() -> Ty {
        Ty::SumCaseClass("scalus.cardano.onchain.plutus.prelude.Order"@, Seq::empty())
    }

    fn sir_type() -> (r: SIRType) {
        let args: Vec<SIRType> = Vec::new();
        assert(tys_of(args@) =~= Seq::<Ty>::empty());
        sum_type("scalus.cardano.onchain.plutus.prelude.Order", args)
    }

    fn sir_data_decl() -> (r: std::option::Option<DataDecl>)
        ensures
            r matches std::option::Option::Some(d) && decl_of(d) == enum_decl_spec(
                "scalus.cardano.onchain.plutus.prelude.Order"@,
                seq![
                    ("Less"@, Seq::empty()),
                    ("Equal"@, Seq::empty()),
                    ("Greater"@, Seq::empty()),
                ],
                0,
            ),
    {
        let mut variants: Vec<(String, Vec<TypeBinding>)> = Vec::new();
        let f0: Vec<TypeBinding> = Vec::new();
        assert(params_of(f0@) =~= Seq::<(Seq<char>, Ty)>::empty());
        variants.push((owned("Less"), f0));
        let f1: Vec<TypeBinding> = Vec::new();
        assert(params_of(f1@) =~= Seq::<(Seq<char>, Ty)>::empty());
        variants.push((owned("Equal"), f1));
        let f2: Vec<TypeBinding> = Vec::new();
        assert(params_of(f2@) =~= Seq::<(Seq<char>, Ty)>::empty());
        variants.push((owned("Greater"), f2));
        assert(variants@.map_values(|v: (String, Vec<TypeBinding>)| (v.0@, params_of(v.1@))) =~= seq![
            ("Less"@, Seq::empty()),
            ("Equal"@, Seq::empty()),
            ("Greater"@, Seq::empty()),
        ]);
        std::option::Option::Some(enum_data_decl("scalus.cardano.onchain.plutus.prelude.Order", variants, 0))
    }
}

impl OnchainPartialEq for Order {
    open spec fn sir_eq_spec() -> SirM {
        <Data as OnchainPartialEq>::sir_eq_spec()
    }

    fn sir_eq() -> (r: SIR) {
        <Data as OnchainPartialEq>::sir_eq()
    }
}

impl<T: HasSIRType> HasSIRType for Option<T> {
    open spec fn sir_type_spec() -> Ty {
        Ty::SumCaseClass("scalus.cardano.onchain.plutus.prelude.Option"@, seq![T::sir_type_spec()])
    }

    fn sir_type() -> (r: SIRType) {
        sum_type("scalus.cardano.onchain.plutus.prelude.Option", one_arg(T::sir_type()))
    }

    fn sir_data_decl() -> (r: std::option::Option<DataDecl>)
        ensures
            r matches std::option::Option::Some(d) && decl_of(d) == enum_decl_spec(
                "scalus.cardano.onchain.plutus.prelude.Option"@,
                seq![
                    ("Some"@, seq![
                        ("value"@, tv_a()),
                    ]),
                    ("None"@, Seq::empty()),
                ],
                1,
            ),
    {
        let mut variants: Vec<(String, Vec<TypeBinding>)> = Vec::new();
        let mut f0: Vec<TypeBinding> = Vec::new();
        f0.push(binding("value", type_var(0)));
        assert(params_of(f0@) =~= seq![
            ("value"@, tv_a()),
        ]);
        variants.push((owned("Some"), f0));
        let f1: Vec<TypeBinding> = Vec::new();
        assert(params_of(f1@) =~= Seq::<(Seq<char>, Ty)>::empty());
        variants.push((owned("None"), f1));
        assert(variants@.map_values(|v: (String, Vec<TypeBinding>)| (v.0@, params_of(v.1@))) =~= seq![
            ("Some"@, seq![
                    ("value"@, tv_a()),
                ]),
            ("None"@, Seq::empty()),
        ]);
        std::option::Option::Some(enum_data_decl("scalus.cardano.onchain.plutus.prelude.Option", variants, 1))
    }
}

impl<T: OnchainPartialEq> OnchainPartialEq for Option<T> {
    open spec fn sir_eq_spec() -> SirM {
        <Data as OnchainPartialEq>::sir_eq_spec()
    }

    fn sir_eq() -> (r: SIR) {
        <Data as OnchainPartialEq>::sir_eq()
    }
}

impl<A: HasSIRType, B: HasSIRType> HasSIRType for Pair<A, B> {
    open spec fn sir_type_spec() -> Ty {
        Ty::CaseClass("scalus.uplc.builtin.BuiltinPair"@, "scalus.uplc.builtin.BuiltinPair"@, seq![A::sir_type_spec(), B::sir_type_spec()])
    }

    fn sir_type() -> (r: SIRType) {
        case_type("scalus.uplc.builtin.BuiltinPair", two_args(A::sir_type(), B::sir_type()))
    }

    fn sir_data_decl() -> (r: std::option::Option<DataDecl>)
        ensures
            r matches std::option::Option::Some(d) && decl_of(d) == struct_decl_spec(
                "scalus.uplc.builtin.BuiltinPair"@,
                seq![
                    ("fst"@, tv_a()),
                    ("snd"@, tv_b()),
                ],
                2,
                std::option::Option::None,
            ),
    {
        let mut fields: Vec<TypeBinding> = Vec::new();
        fields.push(binding("fst", type_var(0)));
        fields.push(binding("snd", type_var(1)));
        assert(params_of(fields@) =~= seq![
            ("fst"@, tv_a()),
            ("snd"@, tv_b()),
        ]);
        std::option::Option::Some(struct_data_decl("scalus.uplc.builtin.BuiltinPair", fields, 2, std::option::Option::None))
    }
}

impl<A: OnchainPartialEq, B: OnchainPartialEq> OnchainPartialEq for Pair<A, B> {
    open spec fn sir_eq_spec() -> SirM {
        <Data as OnchainPartialEq>::sir_eq_spec()
    }

    fn sir_eq() -> (r: SIR) {
        <Data as OnchainPartialEq>::sir_eq()
    }
}

impl<T: HasSIRType> HasSIRType for List<T> {
    open spec fn sir_type_spec() -> Ty {
        Ty::SumCaseClass("scalus.cardano.onchain.plutus.prelude.List"@, seq![T::sir_type_spec()])
    }

    fn sir_type() -> (r: SIRType) {
        sum_type("scalus.cardano.onchain.plutus.prelude.List", one_arg(T::sir_type()))
    }

    fn sir_data_decl() -> (r: std::option::Option<DataDecl>)
        ensures
            r matches std::option::Option::Some(d) && decl_of(d) == enum_decl_spec(
                "scalus.cardano.onchain.plutus.prelude.List"@,
                seq![
                    ("Nil"@, Seq::empty()),
                    ("Cons"@, seq![
                        ("head"@, tv_a()),
                        ("tail"@, <List<T> as HasSIRType>::sir_type_spec()),
                    ]),
                ],
                1,
            ),
    {
        let mut variants: Vec<(String, Vec<TypeBinding>)> = Vec::new();
        let f0: Vec<TypeBinding> = Vec::new();
        assert(params_of(f0@) =~= Seq::<(Seq<char>, Ty)>::empty());
        variants.push((owned("Nil"), f0));
        let mut f1: Vec<TypeBinding> = Vec::new();
        f1.push(binding("head", type_var(0)));
        f1.push(binding("tail", <List<T> as HasSIRType>::sir_type()));
        assert(params_of(f1@) =~= seq![
            ("head"@, tv_a()),
            ("tail"@, <List<T> as HasSIRType>::sir_type_spec()),
        ]);
        variants.push((owned("Cons"), f1));
        assert(variants@.map_values(|v: (String, Vec<TypeBinding>)| (v.0@, params_of(v.1@))) =~= seq![
            ("Nil"@, Seq::empty()),
            ("Cons"@, seq![
                    ("head"@, tv_a()),
                    ("tail"@, <List<T> as HasSIRType>::sir_type_spec()),
                ]),
        ]);
        std::option::Option::Some(enum_data_decl("scalus.cardano.onchain.plutus.prelude.List", variants, 1))
    }
}

impl<T: OnchainPartialEq> OnchainPartialEq for List<T> {
    open spec fn sir_eq_spec() -> SirM {
        <Data as OnchainPartialEq>::sir_eq_spec()
    }

    fn sir_eq() -> (r: SIR) {
        <Data as OnchainPartialEq>::sir_eq()
    }
}

impl<K: HasSIRType, V: HasSIRType> HasSIRType for AssocMap<K, V> {
    open spec fn sir_type_spec() -> Ty {
        Ty::CaseClass("scalus.cardano.onchain.plutus.prelude.AssocMap"@, "scalus.cardano.onchain.plutus.prelude.AssocMap"@, seq![K::sir_type_spec(), V::sir_type_spec()])
    }

    fn sir_type() -> (r: SIRType) {
        case_type("scalus.cardano.onchain.plutus.prelude.AssocMap", two_args(K::sir_type(), V::sir_type()))
    }

    fn sir_data_decl() -> (r: std::option::Option<DataDecl>)
        ensures
            r matches std::option::Option::Some(d) && decl_of(d) == struct_decl_spec(
                "scalus.cardano.onchain.plutus.prelude.AssocMap"@,
                seq![
                    ("inner"@, <List<Pair<K, V>> as HasSIRType>::sir_type_spec()),
                ],
                2,
                std::option::Option::Some("map"@),
            ),
    {
        let mut fields: Vec<TypeBinding> = Vec::new();
        fields.push(binding("inner", <List<Pair<K, V>> as HasSIRType>::sir_type()));
        assert(params_of(fields@) =~= seq![
            ("inner"@, <List<Pair<K, V>> as HasSIRType>::sir_type_spec()),
        ]);
        std::option::Option::Some(struct_data_decl("scalus.cardano.onchain.plutus.prelude.AssocMap", fields, 2, std::option::Option::Some("map")))
    }
}

impl<K: OnchainPartialEq, V: OnchainPartialEq> OnchainPartialEq for AssocMap<K, V> {
    open spec fn sir_eq_spec() -> SirM {
        <Data as OnchainPartialEq>::sir_eq_spec()
    }

    fn sir_eq() -> (r: SIR) {
        <Data as OnchainPartialEq>::sir_eq()
    }
}

impl<K: HasSIRType, V: HasSIRType> HasSIRType for SortedMap<K, V> {
    open spec fn sir_type_spec() -> Ty {
        Ty::CaseClass("scalus.cardano.onchain.plutus.prelude.SortedMap"@, "scalus.cardano.onchain.plutus.prelude.SortedMap"@, seq![K::sir_type_spec(), V::sir_type_spec()])
    }

    fn sir_type() -> (r: SIRType) {
        case_type("scalus.cardano.onchain.plutus.prelude.SortedMap", two_args(K::sir_type(), V::sir_type()))
    }

    fn sir_data_decl() -> (r: std::option::Option<DataDecl>)
        ensures
            r matches std::option::Option::Some(d) && decl_of(d) == struct_decl_spec(
                "scalus.cardano.onchain.plutus.prelude.SortedMap"@,
                seq![
                    ("inner"@, <List<Pair<K, V>> as HasSIRType>::sir_type_spec()),
                ],
                2,
                std::option::Option::Some("map"@),
            ),
    {
        let mut fields: Vec<TypeBinding> = Vec::new();
        fields.push(binding("inner", <List<Pair<K, V>> as HasSIRType>::sir_type()));
        assert(params_of(fields@) =~= seq![
            ("inner"@, <List<Pair<K, V>> as HasSIRType>::sir_type_spec()),
        ]);
        std::option::Option::Some(struct_data_decl("scalus.cardano.onchain.plutus.prelude.SortedMap", fields, 2, std::option::Option::Some("map")))
    }
}

impl<K: OnchainPartialEq, V: OnchainPartialEq> OnchainPartialEq for SortedMap<K, V> {
    open spec fn sir_eq_spec() -> SirM {
        <Data as OnchainPartialEq>::sir_eq_spec()
    }

    fn sir_eq() -> (r: SIR) {
        <Data as OnchainPartialEq>::sir_eq()
    }
}

} // verus!
