//! On-chain typeclasses. A functional typeclass is a one-method typeclass
//! that becomes an extra function argument in SIR: `PartialEq` maps to the
//! on-chain `Eq` (`(A, A) -> Boolean`), `PartialOrd` to the on-chain `Ord`
//! (`(A, A) -> Order`).
use crate::data::Data;
use crate::default_fun::{DefaultFun, bytes_test_meaning, int_test_meaning};
use crate::integer::Integer;
use crate::model::{SirM, Ty, sir_of};
use crate::module::{AnnotationsDecl, empty_anns};
use crate::sir::SIR;
use crate::sir_type::SIRType;
use vstd::prelude::*;

verus! {

broadcast use crate::model::group_model_seqs;

/// How a trait bound maps to SIR.
#[derive(Debug, PartialEq)]
pub struct FunctionalTypeclassInfo {
    /// The Rust trait name, such as `PartialEq`.
    pub rust_trait_name: &'static str,
    /// The name of the typeclass in the backend's prelude.
    pub scalus_name: &'static str,
    /// The trait method that gives the SIR of an instance.
    pub method_name: &'static str,
}

/// A registered typeclass.
#[derive(Debug, PartialEq)]
pub struct TypeclassEntry {
    pub info: FunctionalTypeclassInfo,
}

/// The typeclasses known to the compiler: the built-in `PartialEq` and
/// `PartialOrd`, then the ones that users registered, in order.
pub fn typeclass_registry(user: Vec<FunctionalTypeclassInfo>) -> (r: Vec<FunctionalTypeclassInfo>)
    ensures
        r@.len() == user@.len() + 2,
        r@[0].rust_trait_name@ == "PartialEq"@,
        r@[0].scalus_name@ == "scalus.cardano.onchain.plutus.prelude.Eq"@,
        r@[0].method_name@ == "sir_eq"@,
        r@[1].rust_trait_name@ == "PartialOrd"@,
        r@[1].scalus_name@ == "scalus.cardano.onchain.plutus.prelude.Ord"@,
        r@[1].method_name@ == "sir_ord"@,
        forall|i: int| 0 <= i < user@.len() ==> #[trigger] r@[i + 2] == user@[i],
{
    let mut result: Vec<FunctionalTypeclassInfo> = Vec::new();
    result.push(
        FunctionalTypeclassInfo {
            rust_trait_name: "PartialEq",
            scalus_name: "scalus.cardano.onchain.plutus.prelude.Eq",
            method_name: "sir_eq",
        },
    );
    result.push(
        FunctionalTypeclassInfo {
            rust_trait_name: "PartialOrd",
            scalus_name: "scalus.cardano.onchain.plutus.prelude.Ord",
            method_name: "sir_ord",
        },
    );
    for e in it: user.into_iter()
        invariant
            result@.len() == it.index() + 2,
            result@[0].rust_trait_name@ == "PartialEq"@,
            result@[0].scalus_name@ == "scalus.cardano.onchain.plutus.prelude.Eq"@,
            result@[0].method_name@ == "sir_eq"@,
            result@[1].rust_trait_name@ == "PartialOrd"@,
            result@[1].scalus_name@ == "scalus.cardano.onchain.plutus.prelude.Ord"@,
            result@[1].method_name@ == "sir_ord"@,
            forall|i: int| 0 <= i < it.index() ==> #[trigger] result@[i + 2] == it.seq()[i],
    {
        result.push(e);
    }
    result
}

/// The builtin `fun` at type `operand -> operand -> Boolean`.
pub open spec fn binary_builtin(fun: DefaultFun, operand: Ty) -> SirM {
    SirM::Builtin(
        fun,
        Ty::Fun(Box::new(operand), Box::new(Ty::Fun(Box::new(operand), Box::new(Ty::Boolean)))),
        empty_anns(),
    )
}

/// Build the builtin `fun` at type `operand -> operand -> Boolean`.
fn make_binary_builtin(fun: DefaultFun, operand_tp: SIRType) -> (r: SIR)
    ensures
        sir_of(r) == binary_builtin(fun, crate::model::ty_of(operand_tp)),
{
    let ghost o = crate::model::ty_of(operand_tp);
    let d = operand_tp.duplicate();
    assert(crate::model::ty_of(d) == o);
    let b = SIRType::Boolean;
    assert(crate::model::ty_of(b) == Ty::Boolean);
    let inner = SIRType::Fun { from: Box::new(d), to: Box::new(b) };
    assert(crate::model::ty_of(inner) == Ty::Fun(Box::new(o), Box::new(Ty::Boolean)));
    let tp = SIRType::Fun { from: Box::new(operand_tp), to: Box::new(inner) };
    assert(crate::model::ty_of(tp) == Ty::Fun(Box::new(o), Box::new(Ty::Fun(Box::new(o), Box::new(Ty::Boolean)))));
    SIR::Builtin { builtin_fun: fun, tp, anns: AnnotationsDecl::empty() }
}

/// On-chain equality: the SIR of a function of type `T -> T -> Boolean`.
pub trait OnchainPartialEq {
    /// The model of the equality function.
    spec fn sir_eq_spec() -> SirM;

    /// The SIR of the equality function.
    fn sir_eq() -> (r: SIR)
        ensures
            sir_of(r) == Self::sir_eq_spec(),
    ;
}

/// On-chain ordering: the SIR of a comparison function of type
/// `T -> T -> Order`.
pub trait OnchainPartialOrd {
    /// The model of the comparison function.
    spec fn sir_ord_spec() -> SirM;

    /// The SIR of the comparison function.
    fn sir_ord() -> (r: SIR)
        ensures
            sir_of(r) == Self::sir_ord_spec(),
    ;
}

impl OnchainPartialEq for Integer {
    open spec fn sir_eq_spec() -> SirM {
        binary_builtin(DefaultFun::EqualsInteger, Ty::Integer)
    }

    fn sir_eq() -> (r: SIR) {
        make_binary_builtin(DefaultFun::EqualsInteger, SIRType::Integer)
    }
}

impl OnchainPartialEq for Vec<u8> {
    open spec fn sir_eq_spec() -> SirM {
        binary_builtin(DefaultFun::EqualsByteString, Ty::ByteString)
    }

    fn sir_eq() -> (r: SIR) {
        make_binary_builtin(DefaultFun::EqualsByteString, SIRType::ByteString)
    }
}

impl OnchainPartialEq for Data {
    open spec fn sir_eq_spec() -> SirM {
        binary_builtin(DefaultFun::EqualsData, Ty::Data)
    }

    fn sir_eq() -> (r: SIR) {
        make_binary_builtin(DefaultFun::EqualsData, SIRType::Data)
    }
}

impl OnchainPartialEq for bool {
    /// Booleans are compared as Data.
    open spec fn sir_eq_spec() -> SirM {
        binary_builtin(DefaultFun::EqualsData, Ty::Boolean)
    }

    fn sir_eq() -> (r: SIR) {
        make_binary_builtin(DefaultFun::EqualsData, SIRType::Boolean)
    }
}

impl OnchainPartialEq for String {
    open spec fn sir_eq_spec() -> SirM {
        binary_builtin(DefaultFun::EqualsString, Ty::String)
    }

    fn sir_eq() -> (r: SIR) {
        make_binary_builtin(DefaultFun::EqualsString, SIRType::String)
    }
}

// ---------------------------------------------------------------------------
// Comparisons that give an `Order`
// ---------------------------------------------------------------------------

/// The name of the on-chain `Order` type.
pub open spec fn order_name() -> Seq<char> {
    "scalus.cardano.onchain.plutus.prelude.Order"@
}

/// The on-chain `Order` type.
pub open spec fn order_ty() -> Ty {
    Ty::SumCaseClass(order_name(), Seq::empty())
}

/// The data declaration of `Order`: `Less`, `Equal`, `Greater`.
pub open spec fn order_decl() -> crate::model::DeclM {
    crate::derive::enum_decl_spec(
        order_name(),
        seq![("Less"@, Seq::empty()), ("Equal"@, Seq::empty()), ("Greater"@, Seq::empty())],
        0,
    )
}

/// The `Order` value of a constructor, by its short name.
pub open spec fn order_value(v: Seq<char>) -> SirM {
    SirM::Constr(crate::derive::variant_name(order_name(), v), order_decl(), Seq::empty(), order_ty(), empty_anns())
}

/// A variable of the comparison.
pub open spec fn side_var(name: Seq<char>, t: Ty) -> SirM {
    SirM::Var(name, t, empty_anns())
}

/// A builtin of type `a -> a -> Boolean` applied to two terms of type `a`.
pub open spec fn test_of(fun: DefaultFun, a: Ty, x: SirM, y: SirM) -> SirM {
    SirM::Apply(
        Box::new(SirM::Apply(
            Box::new(binary_builtin(fun, a)),
            Box::new(x),
            Ty::Fun(Box::new(a), Box::new(Ty::Boolean)),
            empty_anns(),
        )),
        Box::new(y),
        Ty::Boolean,
        empty_anns(),
    )
}

/// The comparison `\lhs rhs -> if lt then Less else if eq then Equal else
/// Greater` over operands of type `a`, where `lt` and `eq` test `lhs` and
/// `rhs`.
pub open spec fn compare_spec(a: Ty, lt: SirM, eq: SirM) -> SirM {
    SirM::LamAbs(
        Box::new(side_var("lhs"@, a)),
        Box::new(SirM::LamAbs(
            Box::new(side_var("rhs"@, a)),
            Box::new(SirM::IfThenElse(
                Box::new(lt),
                Box::new(order_value("Less"@)),
                Box::new(SirM::IfThenElse(
                    Box::new(eq),
                    Box::new(order_value("Equal"@)),
                    Box::new(order_value("Greater"@)),
                    order_ty(),
                    empty_anns(),
                )),
                order_ty(),
                empty_anns(),
            )),
            Seq::empty(),
            empty_anns(),
        )),
        Seq::empty(),
        empty_anns(),
    )
}

/// The comparison of operands of type `a` by a less-than and an equality
/// builtin.
pub open spec fn builtin_compare(a: Ty, lt: DefaultFun, eq: DefaultFun) -> SirM {
    compare_spec(
        a,
        test_of(lt, a, side_var("lhs"@, a), side_var("rhs"@, a)),
        test_of(eq, a, side_var("lhs"@, a), side_var("rhs"@, a)),
    )
}

/// `serialiseData` applied to a term.
pub open spec fn serialised(x: SirM) -> SirM {
    SirM::Apply(
        Box::new(SirM::Builtin(
            DefaultFun::SerialiseData,
            Ty::Fun(Box::new(Ty::Data), Box::new(Ty::ByteString)),
            empty_anns(),
        )),
        Box::new(x),
        Ty::ByteString,
        empty_anns(),
    )
}

/// The comparison of `Data`: by the bytes that `serialiseData` gives, equal
/// where `equalsData` says so.
pub open spec fn data_compare() -> SirM {
    compare_spec(
        Ty::Data,
        test_of(
            DefaultFun::LessThanByteString,
            Ty::ByteString,
            serialised(side_var("lhs"@, Ty::Data)),
            serialised(side_var("rhs"@, Ty::Data)),
        ),
        test_of(DefaultFun::EqualsData, Ty::Data, side_var("lhs"@, Ty::Data), side_var("rhs"@, Ty::Data)),
    )
}

/// A comparison built by `compare_spec` has type `a -> a -> Order`.
pub proof fn law_compare_type(a: Ty, lt: SirM, eq: SirM)
    ensures
        crate::typing::sir_ty(compare_spec(a, lt, eq)) == Ty::Fun(
            Box::new(a),
            Box::new(Ty::Fun(Box::new(a), Box::new(order_ty()))),
        ),
{
    reveal_with_fuel(crate::typing::sir_ty, 3);
}

/// The builtin that a branch condition `f lhs rhs` of a comparison applies
/// to the two compared values, where the condition is such a test.
pub open spec fn side_test(t: SirM) -> Option<DefaultFun> {
    match t {
        SirM::Apply(g, y, _, _) => match *g {
            SirM::Apply(b, x, _, _) => match (*b, *x, *y) {
                (SirM::Builtin(f, _, _), SirM::Var(xn, _, _), SirM::Var(yn, _, _)) => if xn == "lhs"@ && yn
                    == "rhs"@ {
                    Some(f)
                } else {
                    None
                },
                _ => None,
            },
            _ => None,
        },
        _ => None,
    }
}

/// The result that a comparison `\lhs rhs -> if t1 then v1 else if t2 then
/// v2 else v3` gives, where each test `f lhs rhs` answers `answer(f)`; none
/// where the term has another shape or a test has no answer.
pub open spec fn compare_result(term: SirM, answer: spec_fn(DefaultFun) -> Option<bool>) -> Option<SirM> {
    match term {
        SirM::LamAbs(p, body, _, _) => match *body {
            SirM::LamAbs(q, inner, _, _) => match (*p, *q, *inner) {
                (SirM::Var(pn, _, _), SirM::Var(qn, _, _), SirM::IfThenElse(t1, v1, rest, _, _)) => if pn == "lhs"@
                    && qn == "rhs"@ {
                    match side_test(*t1) {
                        Some(f1) => match answer(f1) {
                            Some(true) => Some(*v1),
                            Some(false) => match *rest {
                                SirM::IfThenElse(t2, v2, v3, _, _) => match side_test(*t2) {
                                    Some(f2) => match answer(f2) {
                                        Some(true) => Some(*v2),
                                        Some(false) => Some(*v3),
                                        None => None,
                                    },
                                    None => None,
                                },
                                _ => None,
                            },
                            None => None,
                        },
                        None => None,
                    }
                } else {
                    None
                },
                _ => None,
            },
            _ => None,
        },
        _ => None,
    }
}

/// The on-chain equality of integers and of byte strings is a builtin of
/// type `T -> T -> Boolean` that answers, for any two values, whether they are
/// equal.
pub proof fn law_equality_terms(x: int, y: int, bx: Seq<u8>, by: Seq<u8>)
    ensures
        <Integer as OnchainPartialEq>::sir_eq_spec() matches SirM::Builtin(f, t, _) && int_test_meaning(f, x, y)
            == Some(x == y) && t == Ty::Fun(
            Box::new(Ty::Integer),
            Box::new(Ty::Fun(Box::new(Ty::Integer), Box::new(Ty::Boolean))),
        ),
        <Vec<u8> as OnchainPartialEq>::sir_eq_spec() matches SirM::Builtin(g, u, _) && bytes_test_meaning(g, bx, by)
            == Some(bx == by) && u == Ty::Fun(
            Box::new(Ty::ByteString),
            Box::new(Ty::Fun(Box::new(Ty::ByteString), Box::new(Ty::Boolean))),
        ),
{
}

/// No byte string is less than itself.
pub proof fn lemma_bytes_lt_irreflexive(x: Seq<u8>)
    ensures
        !crate::builtins::bytes_lt(x, x),
{
    if crate::builtins::bytes_lt(x, x) {
        let k = choose|k: int|
            0 <= k <= x.len() && k <= x.len() && x.subrange(0, k) == x.subrange(0, k) && (if k == x.len() {
                k < x.len()
            } else {
                k < x.len() && x[k] < x[k]
            });
        assert(false);
    }
}

/// The on-chain ordering of byte strings, applied to `x` and `y`, gives
/// `Less` exactly when `x` comes before `y` lexicographically, `Equal` exactly
/// when they are the same bytes, and `Greater` otherwise: its first test is
/// `lessThanByteString lhs rhs`, its second `equalsByteString lhs rhs`.
pub proof fn law_bytes_order(x: Seq<u8>, y: Seq<u8>)
    ensures
        ({
            let out = compare_result(
                <Vec<u8> as OnchainPartialOrd>::sir_ord_spec(),
                |f: DefaultFun| bytes_test_meaning(f, x, y),
            );
            &&& crate::builtins::bytes_lt(x, y) ==> out == Some(order_value("Less"@))
            &&& x == y ==> out == Some(order_value("Equal"@))
            &&& !crate::builtins::bytes_lt(x, y) && x != y ==> out == Some(order_value("Greater"@))
        }),
{
    reveal_strlit("lhs");
    reveal_strlit("rhs");
    lemma_bytes_lt_irreflexive(x);
}

/// The on-chain ordering of integers, applied to `x` and `y`, gives `Less`
/// exactly when `x < y`, `Equal` when `x == y`, and `Greater` when `x > y`.
pub proof fn law_integer_order(x: int, y: int)
    ensures
        ({
            let out = compare_result(
                <Integer as OnchainPartialOrd>::sir_ord_spec(),
                |f: DefaultFun| int_test_meaning(f, x, y),
            );
            &&& x < y ==> out == Some(order_value("Less"@))
            &&& x == y ==> out == Some(order_value("Equal"@))
            &&& x > y ==> out == Some(order_value("Greater"@))
        }),
{
    reveal_strlit("lhs");
    reveal_strlit("rhs");
}

/// A variable of the comparison.
fn make_var(name: &str, t: SIRType) -> (r: SIR)
    ensures
        sir_of(r) == side_var(name@, crate::model::ty_of(t)),
{
    SIR::Var { name: crate::text::owned(name), tp: t, anns: AnnotationsDecl::empty() }
}

/// An `Order` value, by the short name of its constructor.
fn make_order_value(v: &str) -> (r: SIR)
    ensures
        sir_of(r) == order_value(v@),
{
    let decl = match <crate::order::Order as crate::sir_type::HasSIRType>::sir_data_decl() {
        std::option::Option::Some(d) => d,
        std::option::Option::None => vstd::pervasive::unreached(),
    };
    let tp = <crate::order::Order as crate::sir_type::HasSIRType>::sir_type();
    let mut name = crate::text::owned("scalus.cardano.onchain.plutus.prelude.Order$.");
    crate::text::push_str(&mut name, v);
    proof {
        reveal_strlit("scalus.cardano.onchain.plutus.prelude.Order");
        reveal_strlit("scalus.cardano.onchain.plutus.prelude.Order$.");
        reveal_strlit("$.");
        assert(order_name().contains('.')) by {
            assert(order_name()[6] == '.');
        }
        assert(name@ =~= crate::derive::variant_name(order_name(), v@));
    }
    let args: Vec<SIR> = Vec::new();
    assert(crate::model::sirs_of(args@) =~= Seq::<SirM>::empty());
    SIR::Constr { name, data: decl, args, tp, anns: AnnotationsDecl::empty() }
}

/// A builtin test applied to two terms of type `a`.
fn make_test(fun: DefaultFun, a: SIRType, x: SIR, y: SIR) -> (r: SIR)
    ensures
        sir_of(r) == test_of(fun, crate::model::ty_of(a), sir_of(x), sir_of(y)),
{
    proof {
        reveal_with_fuel(sir_of, 3);
        reveal_with_fuel(crate::model::ty_of, 3);
    }
    let ghost at = crate::model::ty_of(a);
    let a2 = a.duplicate();
    let f = make_binary_builtin(fun, a);
    let inner = SIR::Apply {
        f: Box::new(f),
        arg: Box::new(x),
        tp: SIRType::Fun { from: Box::new(a2), to: Box::new(SIRType::Boolean) },
        anns: AnnotationsDecl::empty(),
    };
    SIR::Apply { f: Box::new(inner), arg: Box::new(y), tp: SIRType::Boolean, anns: AnnotationsDecl::empty() }
}

/// `serialiseData` applied to a term.
fn make_serialised(x: SIR) -> (r: SIR)
    ensures
        sir_of(r) == serialised(sir_of(x)),
{
    proof {
        reveal_with_fuel(sir_of, 3);
        reveal_with_fuel(crate::model::ty_of, 3);
    }
    let b = SIR::Builtin {
        builtin_fun: DefaultFun::SerialiseData,
        tp: SIRType::Fun { from: Box::new(SIRType::Data), to: Box::new(SIRType::ByteString) },
        anns: AnnotationsDecl::empty(),
    };
    SIR::Apply { f: Box::new(b), arg: Box::new(x), tp: SIRType::ByteString, anns: AnnotationsDecl::empty() }
}

/// The comparison `\lhs rhs -> if lt then Less else if eq then Equal else
/// Greater` over operands of type `a`.
fn make_compare(a: SIRType, lt: SIR, eq: SIR) -> (r: SIR)
    ensures
        sir_of(r) == compare_spec(crate::model::ty_of(a), sir_of(lt), sir_of(eq)),
{
    let ghost at = crate::model::ty_of(a);
    let ghost ltm = sir_of(lt);
    let ghost eqm = sir_of(eq);
    let order = <crate::order::Order as crate::sir_type::HasSIRType>::sir_type();
    let order2 = <crate::order::Order as crate::sir_type::HasSIRType>::sir_type();
    let inner_if = SIR::IfThenElse {
        cond: Box::new(eq),
        t: Box::new(make_order_value("Equal")),
        f: Box::new(make_order_value("Greater")),
        tp: order,
        anns: AnnotationsDecl::empty(),
    };
    assert(sir_of(inner_if) == SirM::IfThenElse(
        Box::new(eqm),
        Box::new(order_value("Equal"@)),
        Box::new(order_value("Greater"@)),
        order_ty(),
        empty_anns(),
    ));
    let outer_if = SIR::IfThenElse {
        cond: Box::new(lt),
        t: Box::new(make_order_value("Less")),
        f: Box::new(inner_if),
        tp: order2,
        anns: AnnotationsDecl::empty(),
    };
    let ghost body = sir_of(outer_if);
    let a2 = a.duplicate();
    let rhs = make_var("rhs", a2);
    let lhs = make_var("lhs", a);
    let no_tvs: Vec<crate::sir_type::TypeVar> = Vec::new();
    let no_tvs2: Vec<crate::sir_type::TypeVar> = Vec::new();
    assert(crate::model::tvs_of(no_tvs@) =~= Seq::<crate::model::TvM>::empty());
    assert(crate::model::tvs_of(no_tvs2@) =~= Seq::<crate::model::TvM>::empty());
    let inner = SIR::LamAbs {
        param: Box::new(rhs),
        term: Box::new(outer_if),
        type_params: no_tvs,
        anns: AnnotationsDecl::empty(),
    };
    assert(sir_of(inner) == SirM::LamAbs(Box::new(side_var("rhs"@, at)), Box::new(body), Seq::empty(), empty_anns()));
    SIR::LamAbs { param: Box::new(lhs), term: Box::new(inner), type_params: no_tvs2, anns: AnnotationsDecl::empty() }
}

/// The comparison by a less-than and an equality builtin.
fn make_builtin_compare(a: SIRType, lt: DefaultFun, eq: DefaultFun) -> (r: SIR)
    ensures
        sir_of(r) == builtin_compare(crate::model::ty_of(a), lt, eq),
{
    let lt_test = make_test(lt, a.duplicate(), make_var("lhs", a.duplicate()), make_var("rhs", a.duplicate()));
    let eq_test = make_test(eq, a.duplicate(), make_var("lhs", a.duplicate()), make_var("rhs", a.duplicate()));
    make_compare(a, lt_test, eq_test)
}

impl OnchainPartialOrd for Integer {
    /// `lessThanInteger`, then `equalsInteger`.
    open spec fn sir_ord_spec() -> SirM {
        builtin_compare(Ty::Integer, DefaultFun::LessThanInteger, DefaultFun::EqualsInteger)
    }

    fn sir_ord() -> (r: SIR) {
        make_builtin_compare(SIRType::Integer, DefaultFun::LessThanInteger, DefaultFun::EqualsInteger)
    }
}

impl OnchainPartialOrd for Vec<u8> {
    /// `lessThanByteString`, then `equalsByteString`.
    open spec fn sir_ord_spec() -> SirM {
        builtin_compare(Ty::ByteString, DefaultFun::LessThanByteString, DefaultFun::EqualsByteString)
    }

    fn sir_ord() -> (r: SIR) {
        make_builtin_compare(SIRType::ByteString, DefaultFun::LessThanByteString, DefaultFun::EqualsByteString)
    }
}

impl OnchainPartialOrd for Data {
    /// By the serialised bytes, equal where `equalsData` says so.
    open spec fn sir_ord_spec() -> SirM {
        data_compare()
    }

    fn sir_ord() -> (r: SIR) {
        let lt = make_test(
            DefaultFun::LessThanByteString,
            SIRType::ByteString,
            make_serialised(make_var("lhs", SIRType::Data)),
            make_serialised(make_var("rhs", SIRType::Data)),
        );
        let eq = make_test(DefaultFun::EqualsData, SIRType::Data, make_var("lhs", SIRType::Data), make_var("rhs", SIRType::Data));
        make_compare(SIRType::Data, lt, eq)
    }
}

} // verus!
