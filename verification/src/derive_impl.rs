//! What `#[derive(ToData)]` and `#[derive(FromData)]` decide for a type,
//! from the type as the derive reads it: its SIR name, its layout in
//! `Data`, its data declaration, the number of fields of each constructor,
//! whether it compares on chain by its one field, and the text that its
//! decoding errors name.
use crate::attrs::last_value;
use crate::derive::{enum_data_decl, enum_decl_spec, field_sir_type, field_type_spec, struct_data_decl, struct_decl_spec};
use crate::front::{RustType, attr_value, texts};
use crate::data::{Data, DataM, views_of};
use crate::layout::{Layout, derived_data_spec, derived_to_data, fields_spec, layout_of, layout_spec};
use crate::model::{DeclM, Ty, decl_of, params_of, ty_of};
use crate::sir_type::{DataDecl, SIRType, TypeBinding};
use crate::text::{nat_decimal, nat_text, owned, push_str};
use vstd::prelude::*;

verus! {


broadcast use {vstd::std_specs::vec::group_vec_axioms, crate::model::group_model_seqs};

/// A field of a derived type: its name (none for a tuple field), its Rust
/// type, and the SIR type that its type (under any boxes) reports.
#[derive(Debug, PartialEq)]
pub struct DeriveField {
    pub name: Option<String>,
    pub ty: RustType,
    pub reported: SIRType,
}

/// The shape of a derived type.
#[derive(Debug, PartialEq)]
pub enum DeriveShape {
    Struct(Vec<DeriveField>),
    /// The variants, by name, with their fields.
    Enum(Vec<(String, Vec<DeriveField>)>),
    Union,
}

/// A type under a derive: its name, its generic type parameters, the
/// `key = "value"` arguments of its `#[rustus(..)]` attributes, and its
/// shape.
#[derive(Debug, PartialEq)]
pub struct DeriveInput {
    pub name: String,
    pub generics: Vec<String>,
    pub attrs: Vec<(String, String)>,
    pub shape: DeriveShape,
}

/// What the derives decide for a type.
#[derive(Debug, PartialEq)]
pub struct DerivedData {
    pub sir_name: String,
    pub layout: Layout,
    pub decl: DataDecl,
    /// The number of fields of each constructor.
    pub field_counts: Vec<usize>,
    /// The type compares on chain as its one field does.
    pub eq_by_field: bool,
    /// The text that decoding errors of the type name.
    pub expected: String,
}

/// The name of a field: its own, or `_i` for the `i`-th tuple field.
pub open spec fn field_name_m(name: Option<String>, i: int) -> Seq<char> {
    match name {
        Some(n) => n@,
        None => "_"@ + nat_decimal(i as nat),
    }
}

/// The fields as named SIR types, with generic parameters as type
/// variables.
pub open spec fn bindings_m(fs: Seq<DeriveField>, gps: Seq<Seq<char>>) -> Seq<(Seq<char>, Ty)> {
    Seq::new(fs.len(), |i: int| (field_name_m(fs[i].name, i), field_type_spec(fs[i].ty, gps, ty_of(fs[i].reported))))
}

/// The SIR name of the type: the `name` option, or its own name.
pub open spec fn derive_sir_name(d: DeriveInput) -> Seq<char> {
    match attr_value(d.attrs@, "name"@) {
        Some(n) => n,
        None => d.name@,
    }
}

/// The `repr` option.
pub open spec fn derive_repr(d: DeriveInput) -> Option<Seq<char>> {
    attr_value(d.attrs@, "repr"@)
}

/// The data declaration of the type.
pub open spec fn derive_decl_m(d: DeriveInput) -> DeclM {
    let gps = texts(d.generics@);
    let n = d.generics@.len();
    match d.shape {
        DeriveShape::Struct(fs) => struct_decl_spec(derive_sir_name(d), bindings_m(fs@, gps), n, derive_repr(d)),
        DeriveShape::Enum(vs) => enum_decl_spec(
            derive_sir_name(d),
            vs@.map_values(|v: (String, Vec<DeriveField>)| (v.0@, bindings_m(v.1@, gps))),
            n,
        ),
        DeriveShape::Union => enum_decl_spec(derive_sir_name(d), Seq::empty(), n),
    }
}

/// The number of fields of each constructor.
pub open spec fn field_counts_m(d: DeriveInput) -> Seq<usize> {
    match d.shape {
        DeriveShape::Struct(fs) => seq![fs@.len() as usize],
        DeriveShape::Enum(vs) => vs@.map_values(|v: (String, Vec<DeriveField>)| v.1@.len() as usize),
        DeriveShape::Union => Seq::empty(),
    }
}

/// The layout of the type.
pub open spec fn derive_layout_m(d: DeriveInput) -> Layout {
    layout_spec(d.shape is Enum, derive_repr(d))
}

/// The fields as named SIR types.
fn field_bindings(fs: Vec<DeriveField>, gps: &Vec<String>) -> (r: Vec<TypeBinding>)
    requires
        gps@.len() <= 191,
    ensures
        params_of(r@) == bindings_m(fs@, texts(gps@)),
{
    let ghost spec = bindings_m(fs@, texts(gps@));
    let mut out: Vec<TypeBinding> = Vec::new();
    let mut i: usize = 0;
    let total = fs.len();
    for f in it: fs.into_iter()
        invariant
            gps@.len() <= 191,
            it.seq().len() == total,
            spec == bindings_m(it.seq(), texts(gps@)),
            i == it.index(),
            out@.len() == i,
            forall|j: int| 0 <= j < i ==> (#[trigger] out@[j].name@, ty_of(out@[j].tp)) == spec[j],
    {
        let ghost j = i as int;
        assert(f == it.seq()[j]);
        let name = match f.name {
            Some(n) => n,
            None => {
                let mut s = owned("_");
                let d = nat_text(i as u64);
                push_str(&mut s, d.as_str());
                s
            },
        };
        let tp = field_sir_type(&f.ty, gps, f.reported);
        out.push(TypeBinding { name, tp });
        i += 1;
    }
    assert(params_of(out@) =~= spec);
    out
}

/// What `#[derive(ToData)]` and `#[derive(FromData)]` decide for a type:
/// its SIR name (the `name` option, or its own), its layout (by its `repr`
/// option), its data declaration, with the fields' SIR types and generic
/// parameters as type variables, the number of fields of each constructor,
/// whether it compares on chain as its one field does (a struct written as
/// its one field), and the text that its decoding errors name (its name,
/// followed by ` (Data::Map)` for the map layout). Neither derive applies
/// to a union.
pub fn derive_to_data_impl(d: DeriveInput) -> (r: Result<DerivedData, String>)
    requires
        d.generics@.len() <= 191,
    ensures
        r is Err <==> d.shape is Union,
        r matches Err(m) ==> m@ == "ToData cannot be derived for unions"@,
        r matches Ok(x) ==> {
            &&& x.sir_name@ == derive_sir_name(d)
            &&& x.layout == derive_layout_m(d)
            &&& decl_of(x.decl) == derive_decl_m(d)
            &&& x.field_counts@ == field_counts_m(d)
            &&& x.eq_by_field == (d.shape matches DeriveShape::Struct(fs) && derive_repr(d) == Some("one_element"@)
                && fs@.len() > 0)
            &&& x.expected@ == if derive_layout_m(d) == Layout::PairMap {
                d.name@ + " (Data::Map)"@
            } else {
                d.name@
            }
        },
{
    let ghost d0 = d;
    let sir_name = match last_value(&d.attrs, "name") {
        Some(n) => n,
        None => crate::duplicate::dup_string(&d.name),
    };
    let repr = last_value(&d.attrs, "repr");
    let n = d.generics.len();
    let layout = layout_of(d.shape.is_enum(), &repr);
    proof {
        reveal_strlit("one_element");
    }
    let one_element = match &repr {
        Some(s) => crate::text::str_eq(s.as_str(), "one_element"),
        None => false,
    };
    let mut expected = crate::duplicate::dup_string(&d.name);
    if layout == Layout::PairMap {
        push_str(&mut expected, " (Data::Map)");
    }
    let gps = d.generics;
    match d.shape {
        DeriveShape::Struct(fs) => {
            let k = fs.len();
            let eq_by_field = one_element && k > 0;
            let params = field_bindings(fs, &gps);
            let decl = match &repr {
                Some(s) => struct_data_decl(sir_name.as_str(), params, n, Some(s.as_str())),
                None => struct_data_decl(sir_name.as_str(), params, n, None),
            };
            let mut field_counts: Vec<usize> = Vec::new();
            field_counts.push(k);
            assert(field_counts@ =~= field_counts_m(d0));
            Ok(DerivedData { sir_name, layout, decl, field_counts, eq_by_field, expected })
        },
        DeriveShape::Enum(vs) => {
            let ghost vs0 = vs@;
            let mut variants: Vec<(String, Vec<TypeBinding>)> = Vec::new();
            let mut field_counts: Vec<usize> = Vec::new();
            let mut i: usize = 0;
            let total = vs.len();
            for v in it: vs.into_iter()
                invariant
                    total == vs0.len(),
                    n == gps@.len(),
                    n <= 191,
                    it.seq() == vs0,
                    i == it.index(),
                    variants@.len() == i,
                    field_counts@.len() == i,
                    forall|j: int|
                        0 <= j < i ==> (#[trigger] variants@[j].0@, params_of(variants@[j].1@)) == (
                            vs0[j].0@,
                            bindings_m(vs0[j].1@, texts(gps@)),
                        ),
                    forall|j: int| 0 <= j < i ==> #[trigger] field_counts@[j] == vs0[j].1@.len(),
            {
                let ghost j = i as int;
                assert(v == vs0[j]);
                let (vname, fs) = v;
                field_counts.push(fs.len());
                let params = field_bindings(fs, &gps);
                variants.push((vname, params));
                i += 1;
            }
            let ghost gs = texts(gps@);
            assert(variants@.map_values(|v: (String, Vec<TypeBinding>)| (v.0@, params_of(v.1@))) =~= vs0.map_values(
                |v: (String, Vec<DeriveField>)| (v.0@, bindings_m(v.1@, gs)),
            ));
            assert(field_counts@ =~= vs0.map_values(|v: (String, Vec<DeriveField>)| v.1@.len() as usize));
            let decl = enum_data_decl(sir_name.as_str(), variants, n);
            Ok(DerivedData { sir_name, layout, decl, field_counts, eq_by_field: false, expected })
        },
        DeriveShape::Union => Err(owned("ToData cannot be derived for unions")),
    }
}

/// What `#[derive(FromData)]` decides for a type: its layout, the number
/// of fields of each constructor, and the text that its decoding errors
/// name; as `derive_to_data_impl` does. It does not apply to a union.
pub fn derive_from_data_impl(d: &DeriveInput) -> (r: Result<(Layout, Vec<usize>, String), String>)
    ensures
        r is Err <==> d.shape is Union,
        r matches Err(m) ==> m@ == "FromData cannot be derived for unions"@,
        r matches Ok((layout, counts, expected)) ==> {
            &&& layout == derive_layout_m(*d)
            &&& counts@ == field_counts_m(*d)
            &&& expected@ == if derive_layout_m(*d) == Layout::PairMap {
                d.name@ + " (Data::Map)"@
            } else {
                d.name@
            }
        },
{
    let repr = last_value(&d.attrs, "repr");
    let layout = layout_of(d.shape.is_enum(), &repr);
    let mut expected = crate::duplicate::dup_string(&d.name);
    if layout == Layout::PairMap {
        push_str(&mut expected, " (Data::Map)");
    }
    match &d.shape {
        DeriveShape::Struct(fs) => {
            let mut counts: Vec<usize> = Vec::new();
            counts.push(fs.len());
            assert(counts@ =~= field_counts_m(*d));
            Ok((layout, counts, expected))
        },
        DeriveShape::Enum(vs) => {
            let mut counts: Vec<usize> = Vec::new();
            let mut i: usize = 0;
            while i < vs.len()
                invariant
                    i <= vs@.len(),
                    counts@ =~= vs@.take(i as int).map_values(|v: (String, Vec<DeriveField>)| v.1@.len() as usize),
                decreases vs@.len() - i,
            {
                counts.push(vs[i].1.len());
                assert(vs@.take(i + 1) =~= vs@.take(i as int).push(vs@[i as int]));
                i += 1;
            }
            assert(vs@.take(i as int) =~= vs@);
            Ok((layout, counts, expected))
        },
        DeriveShape::Union => Err(owned("FromData cannot be derived for unions")),
    }
}

/// What the derived `to_data` writes for a value of the constructor at
/// position `k` of the type's declaration (0 for a struct) whose fields are
/// written as `fields`: under the `Constr` layout, `Constr(k, fields)`.
pub fn derived_value_data(x: &DerivedData, k: usize, fields: Vec<Data>) -> (r: Data)
    requires
        k < x.field_counts@.len(),
        fields@.len() == x.field_counts@[k as int],
        k <= i64::MAX,
        x.layout == Layout::PairMap ==> fields@.len() > 0,
    ensures
        r@ == derived_data_spec(x.layout, k as i64, views_of(fields@)),
        x.layout == Layout::Constr ==> r@ == DataM::Constr(k as i64, views_of(fields@)),
{
    derived_to_data(x.layout, k as i64, fields)
}

/// For a struct or enum written with `Constr` (or a struct written as its
/// one field), what the derived `from_data` takes from the `Data` that the
/// derived `to_data` writes for a value of the constructor at position `k`
/// is that constructor and the `Data` of its fields, none missing.
pub proof fn law_derived_roundtrip(d: DeriveInput, k: usize, fields: Seq<DataM>, expected: Seq<char>)
    requires
        !(d.shape is Union),
        derive_layout_m(d) == Layout::Constr || (derive_layout_m(d) == Layout::OneElement && fields.len() <= 1),
        k < field_counts_m(d).len(),
        fields.len() == field_counts_m(d)[k as int],
        k <= i64::MAX,
    ensures
        fields_spec(
            derive_layout_m(d),
            field_counts_m(d),
            expected,
            derived_data_spec(derive_layout_m(d), k as i64, fields),
        ) == Ok::<(usize, Seq<DataM>, Option<usize>), crate::layout::LayoutErr>((k, fields, None)),
{
    if derive_layout_m(d) == Layout::Constr {
        crate::layout::law_constr_layout_roundtrip(field_counts_m(d), k, fields, expected);
    } else {
        assert(!(d.shape is Enum));
        assert(k == 0);
        if fields.len() == 1 {
            assert(fields =~= seq![fields[0]]);
        } else {
            assert(fields =~= Seq::<DataM>::empty());
        }
    }
}

impl DeriveShape {
    /// Whether the type is an enum.
    pub fn is_enum(&self) -> (r: bool)
        ensures
            r == (*self is Enum),
    {
        match self {
            DeriveShape::Enum(_) => true,
            _ => false,
        }
    }
}

} // verus!
