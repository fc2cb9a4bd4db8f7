//! What `#[derive(ToData)]` declares for a Rust type: its SIR type, the
//! SIR types of its fields, and its data declaration, with generic
//! parameters as type variables named `A`, `B`, ... and numbered from 1.
use crate::front::{RustType, first_index, is_data_text, lemma_first_index_bounds, texts};
use crate::model::{AnnM, ConstM, ConstrM, DeclM, SirM, TvM, Ty, decl_of, params_of, ty_of, tys_of, tvs_of};
use crate::module::{AnnotationsDecl, empty_anns, empty_pos};
use crate::constant::UplcConstant;
use crate::sir::SIR;
use crate::sir_type::{ConstrDecl, DataDecl, HasSIRType, SIRType, TypeBinding, TypeVar};
use crate::text::{owned, push_str, str_eq};
use vstd::prelude::*;

verus! {


broadcast use {vstd::std_specs::vec::group_vec_axioms, crate::model::group_model_seqs};

/// The SIR name of the `i`-th generic parameter: `A`, `B`, `C`, ...
pub open spec fn tv_letter(i: int) -> Seq<char> {
    seq![(65 + i) as char]
}

/// The type variables of `n` generic parameters.
pub open spec fn tv_decls_spec(n: nat) -> Seq<TvM> {
    Seq::new(n, |i: int| TvM { name: tv_letter(i), opt_id: Some((i + 1) as i64), is_builtin: false })
}

/// The same type variables, as types.
pub open spec fn tv_types_spec(n: nat) -> Seq<Ty> {
    Seq::new(n, |i: int| Ty::TypeVar(tv_letter(i), Some((i + 1) as i64), false))
}

/// The type variables of `n` generic parameters.
pub fn type_var_decls(n: usize) -> (r: Vec<TypeVar>)
    requires
        n <= 191,
    ensures
        tvs_of(r@) == tv_decls_spec(n as nat),
{
    let mut r: Vec<TypeVar> = Vec::new();
    let mut i: usize = 0;
    while i < n
        invariant
            i <= n <= 191,
            r@.len() == i,
            forall|j: int| 0 <= j < i ==> #[trigger] crate::model::tv_of(r@[j]) == tv_decls_spec(n as nat)[j],
        decreases n - i,
    {
        let c = ((65u8 + i as u8) as char);
        let mut cs: Vec<char> = Vec::new();
        cs.push(c);
        let name = crate::text::string_of(cs.as_slice());
        assert(name@ =~= tv_letter(i as int));
        let k: i64 = i as i64;
        r.push(TypeVar { name, opt_id: Some(k + 1), is_builtin: false });
        i += 1;
    }
    assert(tvs_of(r@) =~= tv_decls_spec(n as nat));
    r
}

/// The type variables of `n` generic parameters, as types.
pub fn type_var_types(n: usize) -> (r: Vec<SIRType>)
    requires
        n <= 191,
    ensures
        tys_of(r@) == tv_types_spec(n as nat),
{
    let tvs = type_var_decls(n);
    assert(tvs_of(tvs@).len() == tvs@.len());
    let mut r: Vec<SIRType> = Vec::new();
    let mut i: usize = 0;
    while i < tvs.len()
        invariant
            i <= tvs@.len(),
            tvs@.len() == n,
            tvs_of(tvs@) == tv_decls_spec(n as nat),
            r@.len() == i,
            forall|j: int| 0 <= j < i ==> #[trigger] ty_of(r@[j]) == tv_types_spec(n as nat)[j],
        decreases tvs@.len() - i,
    {
        assert(tvs_of(tvs@)[i as int] == crate::model::tv_of(tvs@[i as int]));
        assert(crate::model::tv_of(tvs@[i as int]) == tv_decls_spec(n as nat)[i as int]);
        let t = SIRType::TypeVar {
            name: crate::duplicate::dup_string(&tvs[i].name),
            opt_id: tvs[i].opt_id,
            is_builtin: tvs[i].is_builtin,
        };
        r.push(t);
        i += 1;
    }
    proof {
        crate::model::lemma_tys_of(r@);
    }
    assert(tys_of(r@) =~= tv_types_spec(n as nat));
    r
}

/// Whether a Rust type is a `Box` with a type argument.
pub open spec fn is_box(t: RustType) -> bool {
    t.path@.len() > 0 && t.path@.last()@ == "Box"@ && t.args@.len() > 0
}

/// The SIR type of a field of a Rust type: a generic parameter as its type
/// variable, a primitive by its text, a `Box` as what it holds, or else the
/// SIR type that the field's type reports.
pub open spec fn field_type_spec(t: RustType, params: Seq<Seq<char>>, reported: Ty) -> Ty
    decreases t,
{
    match first_index(params, t.text@) {
        Some(i) => Ty::TypeVar(tv_letter(i), Some((i + 1) as i64), false),
        None => if t.text@ == "bool"@ {
            Ty::Boolean
        } else if t.text@ == "i64"@ || t.text@ == "i128"@ {
            Ty::Integer
        } else if t.text@ == "Vec<u8>"@ {
            Ty::ByteString
        } else if t.text@ == "String"@ {
            Ty::String
        } else if t.text@ == "()"@ {
            Ty::Unit
        } else if is_data_text(t.text@) {
            Ty::Data
        } else if is_box(t) {
            field_type_spec(t.args@[0], params, reported)
        } else {
            reported
        },
    }
}

/// A field's SIR type is the SIR type of its Rust type: a field of a
/// primitive type (not shadowed by a generic parameter of that name) gets the
/// SIR type that the primitive itself has: `String` a string, `Vec<u8>` a
/// byte string, `bool` a Boolean, `i64` and `i128` an integer, `()` the unit;
/// a generic parameter gets its type variable, numbered from 1 in order; a
/// `Box` is what it holds; any other type is what it reports of itself.
pub proof fn law_field_type_of_primitives(t: RustType, params: Seq<Seq<char>>, reported: Ty)
    ensures
        ({
            let ft = field_type_spec(t, params, reported);
            &&& first_index(params, t.text@) matches Some(i) ==> ft == Ty::TypeVar(tv_letter(i), Some((i + 1) as i64), false)
            &&& first_index(params, t.text@) is None ==> {
                &&& t.text@ == "String"@ ==> ft == Ty::String && ft == <String as HasSIRType>::sir_type_spec()
                &&& t.text@ == "Vec<u8>"@ ==> ft == Ty::ByteString && ft == <Vec<u8> as HasSIRType>::sir_type_spec()
                &&& t.text@ == "bool"@ ==> ft == Ty::Boolean && ft == <bool as HasSIRType>::sir_type_spec()
                &&& t.text@ == "i64"@ ==> ft == Ty::Integer && ft == <i64 as HasSIRType>::sir_type_spec()
                &&& t.text@ == "i128"@ ==> ft == Ty::Integer
                &&& t.text@ == "()"@ ==> ft == Ty::Unit && ft == <() as HasSIRType>::sir_type_spec()
            }
        }),
{
    reveal_strlit("String");
    reveal_strlit("Vec<u8>");
    reveal_strlit("bool");
    reveal_strlit("i64");
    reveal_strlit("i128");
    reveal_strlit("()");
    assert("i128"@[0] != "bool"@[0]);
    assert("()"@[0] != "bool"@[0] && "()"@.len() != "i64"@.len() && "()"@.len() != "String"@.len());
}

/// The SIR type of a field whose Rust type is `ty`, among generic
/// parameters named `params`; `reported` is the SIR type that the field's
/// type (under any boxes) reports of itself.
pub fn field_sir_type(ty: &RustType, params: &Vec<String>, reported: SIRType) -> (r: SIRType)
    requires
        params@.len() <= 191,
    ensures
        ty_of(r) == field_type_spec(*ty, texts(params@), ty_of(reported)),
    decreases ty,
{
    let t = ty.text.as_str();
    assert(t@ == ty.text@);
    let found = crate::front::index_in(params, t);
    proof {
        lemma_first_index_bounds(texts(params@), ty.text@);
    }
    match found {
        Some(i) => {
            let c = ((65u8 + i as u8) as char);
            let mut cs: Vec<char> = Vec::new();
            cs.push(c);
            let name = crate::text::string_of(cs.as_slice());
            assert(name@ =~= tv_letter(i as int));
            let k: i64 = i as i64;
            return SIRType::TypeVar { name, opt_id: Some(k + 1), is_builtin: false };
        },
        None => {},
    }
    if str_eq(t, "bool") {
        SIRType::Boolean
    } else if str_eq(t, "i64") || str_eq(t, "i128") {
        SIRType::Integer
    } else if str_eq(t, "Vec<u8>") {
        SIRType::ByteString
    } else if str_eq(t, "String") {
        SIRType::String
    } else if str_eq(t, "()") {
        SIRType::Unit
    } else if str_eq(t, "Data") || str_eq(t, "rustus_core::data::Data") {
        SIRType::Data
    } else if ty.path.len() > 0 && str_eq(ty.path[ty.path.len() - 1].as_str(), "Box") && ty.args.len() > 0 {
        field_sir_type(&ty.args[0], params, reported)
    } else {
        reported
    }
}

/// The annotations that name a type's representation on chain: a single
/// field stands for the whole record (`ProductCaseOneElement`), or the
/// record is a map (`Map`).
pub open spec fn repr_anns(repr: Option<Seq<char>>) -> AnnM {
    match repr {
        Some(r) => if r == "one_element"@ {
            AnnM {
                pos: empty_pos(),
                comment: None,
                data: seq![("uplcRepr"@, SirM::Const(ConstM::String("ProductCaseOneElement"@), Ty::String, empty_anns()))],
            }
        } else if r == "map"@ {
            AnnM {
                pos: empty_pos(),
                comment: None,
                data: seq![("uplcRepr"@, SirM::Const(ConstM::String("Map"@), Ty::String, empty_anns()))],
            }
        } else {
            empty_anns()
        },
        None => empty_anns(),
    }
}

/// The data declaration of a record: one constructor named as the type.
pub open spec fn struct_decl_spec(
    sir_name: Seq<char>,
    params: Seq<(Seq<char>, Ty)>,
    n: nat,
    repr: Option<Seq<char>>,
) -> DeclM {
    DeclM {
        name: sir_name,
        constructors: seq![
            ConstrM {
                name: sir_name,
                params,
                type_params: tv_decls_spec(n),
                parent_type_args: Seq::empty(),
                annotations: empty_anns(),
            },
        ],
        type_params: tv_decls_spec(n),
        annotations: repr_anns(repr),
    }
}

/// The annotations of a record's representation.
fn repr_annotations(repr: Option<&str>) -> (r: AnnotationsDecl)
    ensures
        crate::model::ann_of(r) == repr_anns(
            match repr {
                Some(s) => Some(s@),
                None => None,
            },
        ),
{
    match repr {
        Some(s) => {
            let name = if str_eq(s, "one_element") {
                "ProductCaseOneElement"
            } else if str_eq(s, "map") {
                "Map"
            } else {
                return AnnotationsDecl::empty();
            };
            let v = SIR::Const {
                uplc_const: UplcConstant::String { value: owned(name) },
                tp: SIRType::String,
                anns: AnnotationsDecl::empty(),
            };
            AnnotationsDecl::with_entry("uplcRepr", v)
        },
        None => AnnotationsDecl::empty(),
    }
}

/// The data declaration of a record type named `sir_name` with the given
/// fields and `n` generic parameters, with the annotation of its
/// representation where it has one.
pub fn struct_data_decl(sir_name: &str, params: Vec<TypeBinding>, n: usize, repr: Option<&str>) -> (r: DataDecl)
    requires
        n <= 191,
    ensures
        decl_of(r) == struct_decl_spec(
            sir_name@,
            params_of(params@),
            n as nat,
            match repr {
                Some(s) => Some(s@),
                None => None,
            },
        ),
{
    let c = ConstrDecl {
        name: owned(sir_name),
        params,
        type_params: type_var_decls(n),
        parent_type_args: Vec::new(),
        annotations: AnnotationsDecl::empty(),
    };
    let mut constructors: Vec<ConstrDecl> = Vec::new();
    constructors.push(c);
    let r = DataDecl {
        name: owned(sir_name),
        constructors,
        type_params: type_var_decls(n),
        annotations: repr_annotations(repr),
    };
    assert(tys_of(Seq::<SIRType>::empty()) =~= Seq::<Ty>::empty());
    assert(crate::model::constrs_of(r.constructors@) =~= struct_decl_spec(
        sir_name@,
        params_of(params@),
        n as nat,
        match repr {
            Some(s) => Some(s@),
            None => None,
        },
    ).constructors);
    r
}

/// The name of an enum's constructor: `Type$.Variant` for a name in the
/// backend's dotted style, else `Type::Variant`.
pub open spec fn variant_name(sir_name: Seq<char>, v: Seq<char>) -> Seq<char> {
    if sir_name.contains('.') {
        sir_name + "$."@ + v
    } else {
        sir_name + "::"@ + v
    }
}

/// The data declaration of an enum: a constructor per variant, each with
/// the type's type variables, applied to them.
pub open spec fn enum_decl_spec(
    sir_name: Seq<char>,
    variants: Seq<(Seq<char>, Seq<(Seq<char>, Ty)>)>,
    n: nat,
) -> DeclM {
    DeclM {
        name: sir_name,
        constructors: Seq::new(
            variants.len(),
            |i: int|
                ConstrM {
                    name: variant_name(sir_name, variants[i].0),
                    params: variants[i].1,
                    type_params: tv_decls_spec(n),
                    parent_type_args: tv_types_spec(n),
                    annotations: empty_anns(),
                },
        ),
        type_params: tv_decls_spec(n),
        annotations: empty_anns(),
    }
}

/// Whether a name has a dot in it.
fn has_dot(s: &str) -> (r: bool)
    ensures
        r == s@.contains('.'),
{
    let cs = crate::text::chars_of(s);
    let mut i: usize = 0;
    while i < cs.len()
        invariant
            i <= cs@.len(),
            cs@ == s@,
            forall|j: int| 0 <= j < i ==> cs@[j] != '.',
        decreases cs@.len() - i,
    {
        if cs[i] == '.' {
            return true;
        }
        i += 1;
    }
    false
}

/// The data declaration of an enum named `sir_name` with the given
/// variants (name and fields) and `n` generic parameters.
pub fn enum_data_decl(sir_name: &str, variants: Vec<(String, Vec<TypeBinding>)>, n: usize) -> (r: DataDecl)
    requires
        n <= 191,
    ensures
        decl_of(r) == enum_decl_spec(
            sir_name@,
            variants@.map_values(|v: (String, Vec<TypeBinding>)| (v.0@, params_of(v.1@))),
            n as nat,
        ),
{
    let ghost vs = variants@.map_values(|v: (String, Vec<TypeBinding>)| (v.0@, params_of(v.1@)));
    let ghost spec = enum_decl_spec(sir_name@, vs, n as nat);
    let dotted = has_dot(sir_name);
    let mut constructors: Vec<ConstrDecl> = Vec::new();
    for v in it: variants.into_iter()
        invariant
            n <= 191,
            dotted == sir_name@.contains('.'),
            vs.len() == it.seq().len(),
            forall|j: int| 0 <= j < vs.len() ==> #[trigger] vs[j] == (it.seq()[j].0@, params_of(it.seq()[j].1@)),
            spec == enum_decl_spec(sir_name@, vs, n as nat),
            constructors@.len() == it.index(),
            forall|j: int| 0 <= j < it.index() ==> #[trigger] crate::model::constr_of(constructors@[j]) == spec.constructors[j],
    {
        let ghost j = it.index() as int;
        assert(v == it.seq()[j]);
        let (vname, params) = v;
        let mut name = owned(sir_name);
        if dotted {
            push_str(&mut name, "$.");
        } else {
            push_str(&mut name, "::");
        }
        push_str(&mut name, vname.as_str());
        let c = ConstrDecl {
            name,
            params,
            type_params: type_var_decls(n),
            parent_type_args: type_var_types(n),
            annotations: AnnotationsDecl::empty(),
        };
        assert(crate::model::constr_of(c) == spec.constructors[j]);
        constructors.push(c);
    }
    let r = DataDecl {
        name: owned(sir_name),
        constructors,
        type_params: type_var_decls(n),
        annotations: AnnotationsDecl::empty(),
    };
    assert(crate::model::constrs_of(r.constructors@) =~= spec.constructors);
    r
}

/// The SIR type of a record type: a case class of its single constructor.
pub fn struct_sir_type(sir_name: &str, type_args: Vec<SIRType>) -> (r: SIRType)
    ensures
        ty_of(r) == Ty::CaseClass(sir_name@, sir_name@, tys_of(type_args@)),
{
    SIRType::CaseClass { constr_name: owned(sir_name), decl_name: owned(sir_name), type_args }
}

/// The SIR type of an enum: a sum of its constructors.
pub fn enum_sir_type(sir_name: &str, type_args: Vec<SIRType>) -> (r: SIRType)
    ensures
        ty_of(r) == Ty::SumCaseClass(sir_name@, tys_of(type_args@)),
{
    SIRType::SumCaseClass { decl_name: owned(sir_name), type_args }
}

/// A named field of the given SIR type.
pub fn binding(name: &str, tp: SIRType) -> (r: TypeBinding)
    ensures
        r.name@ == name@,
        ty_of(r.tp) == ty_of(tp),
{
    TypeBinding { name: owned(name), tp }
}

/// The type variable of the `i`-th generic parameter, as a type.
pub fn type_var(i: usize) -> (r: SIRType)
    requires
        i < 191,
    ensures
        ty_of(r) == Ty::TypeVar(tv_letter(i as int), Some((i + 1) as i64), false),
{
    let c = ((65u8 + i as u8) as char);
    let mut cs: Vec<char> = Vec::new();
    cs.push(c);
    let name = crate::text::string_of(cs.as_slice());
    assert(name@ =~= tv_letter(i as int));
    let k: i64 = i as i64;
    SIRType::TypeVar { name, opt_id: Some(k + 1), is_builtin: false }
}


/// A `Box`'s type argument, or the type itself.
pub open spec fn unboxed(t: RustType) -> RustType {
    if is_box(t) {
        t.args@[0]
    } else {
        t
    }
}

/// The type whose on-chain equality a derived type uses: for a struct
/// written as its one field's `Data`, the type of that field with a `Box`
/// taken off; none where the type compares by its whole `Data` (as every
/// other derived type does, and one without fields).
pub fn eq_field_type<'a>(one_element: bool, first_field: Option<&'a RustType>) -> (r: Option<&'a RustType>)
    ensures
        match first_field {
            Some(t) => if one_element {
                r matches Some(x) && *x == unboxed(*t)
            } else {
                r is None
            },
            None => r is None,
        },
{
    if !one_element {
        return None;
    }
    match first_field {
        Some(t) => {
            proof {
                reveal_strlit("Box");
            }
            if t.path.len() > 0 && str_eq(t.path[t.path.len() - 1].as_str(), "Box") && t.args.len() > 0 {
                Some(&t.args[0])
            } else {
                Some(t)
            }
        },
        None => None,
    }
}

} // verus!
