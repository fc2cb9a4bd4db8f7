//! How a type with derived `ToData` and `FromData` is laid out in `Data`:
//! what the derived `to_data` builds from the encodings of a value's
//! fields, and what the derived `from_data` takes apart before it decodes
//! each field with the field type's own `from_data`.
use crate::data::{Data, DataError, DataM, data_of, datas_of, lemma_datas_of, lemma_datas_push, views_of};
use crate::text::str_eq;
use vstd::prelude::*;

verus! {

broadcast use vstd::std_specs::vec::group_vec_axioms;

/// The layouts that `#[rustus(repr = "..")]` selects.
#[derive(Debug, Clone, Copy, PartialEq, Eq, Structural)]
pub enum Layout {
    /// `Constr` with the constructor's index and the fields in order.
    Constr,
    /// A struct written as its one field's `Data`.
    OneElement,
    /// A `Nil`/`Cons` enum written as a Data list of its elements.
    List,
    /// A struct over a list of pairs written as a Data map.
    PairMap,
}

/// The layout of a derived type from its `repr` option.
pub open spec fn layout_spec(is_enum: bool, repr: Option<Seq<char>>) -> Layout {
    if is_enum {
        if repr == Some("list"@) {
            Layout::List
        } else {
            Layout::Constr
        }
    } else if repr == Some("one_element"@) {
        Layout::OneElement
    } else if repr == Some("map"@) {
        Layout::PairMap
    } else {
        Layout::Constr
    }
}

/// The layout of an enum (`is_enum`) or a struct with the given `repr`
/// option.
pub fn layout_of(is_enum: bool, repr: &Option<String>) -> (r: Layout)
    ensures
        r == layout_spec(
            is_enum,
            match repr {
                Some(s) => Some(s@),
                None => None,
            },
        ),
{
    proof {
        reveal_strlit("list");
        reveal_strlit("one_element");
        reveal_strlit("map");
    }
    match repr {
        Some(s) => {
            if is_enum {
                if str_eq(s.as_str(), "list") {
                    Layout::List
                } else {
                    Layout::Constr
                }
            } else if str_eq(s.as_str(), "one_element") {
                Layout::OneElement
            } else if str_eq(s.as_str(), "map") {
                Layout::PairMap
            } else {
                Layout::Constr
            }
        },
        None => Layout::Constr,
    }
}

/// The unit value.
pub open spec fn unit_m() -> DataM {
    DataM::Constr(0, Seq::empty())
}

/// The key and value of each item of a list that is a `Constr` with tag 0,
/// in order; a missing argument is unit.
pub open spec fn pairs_from_items(items: Seq<DataM>) -> Seq<(DataM, DataM)>
    decreases items.len(),
{
    if items.len() == 0 {
        Seq::empty()
    } else {
        let rest = pairs_from_items(items.drop_last());
        match items.last() {
            DataM::Constr(tag, args) => if tag == 0 {
                rest.push(
                    (
                        if args.len() > 0 {
                            args[0]
                        } else {
                            unit_m()
                        },
                        if args.len() > 1 {
                            args[1]
                        } else {
                            unit_m()
                        },
                    ),
                )
            } else {
                rest
            },
            _ => rest,
        }
    }
}

/// The map that the map layout writes for the `Data` of its list field.
pub open spec fn map_data_spec(d: DataM) -> DataM {
    match d {
        DataM::List(items) => DataM::Entries(pairs_from_items(items)),
        _ => DataM::Entries(Seq::empty()),
    }
}

/// What a derived `to_data` gives for a value of constructor `k` whose
/// fields encode to `fields` (for the list layout, the elements; for the
/// map layout, the list field).
pub open spec fn derived_data_spec(layout: Layout, k: i64, fields: Seq<DataM>) -> DataM {
    match layout {
        Layout::Constr => DataM::Constr(k, fields),
        Layout::OneElement => if fields.len() > 0 {
            fields[0]
        } else {
            unit_m()
        },
        Layout::List => DataM::List(fields),
        Layout::PairMap => map_data_spec(fields[0]),
    }
}

/// The map layout's `Data` for the `Data` of its list field.
fn map_data(d: &Data) -> (r: Data)
    ensures
        r@ == map_data_spec(d@),
{
    let mut pairs: Vec<(Data, Data)> = Vec::new();
    match d {
        Data::List { values } => {
            proof {
                lemma_datas_of(values@);
            }
            let mut i: usize = 0;
            let ghost items = datas_of(values@);
            while i < values.len()
                invariant
                    i <= values@.len(),
                    items == datas_of(values@),
                    items.len() == values@.len(),
                    forall|j: int| 0 <= j < values@.len() ==> #[trigger] items[j] == values@[j]@,
                    crate::data::pairs_of(pairs@) == pairs_from_items(items.take(i as int)),
                decreases values@.len() - i,
            {
                let ghost p0 = pairs@;
                assert(items.take(i + 1).drop_last() =~= items.take(i as int));
                assert(items.take(i + 1).last() == values@[i as int]@);
                match &values[i] {
                    Data::Constr { tag, args } => {
                        if *tag == 0 {
                            proof {
                                lemma_datas_of(args@);
                            }
                            let k = if args.len() > 0 {
                                args[0].duplicate()
                            } else {
                                Data::unit()
                            };
                            let v = if args.len() > 1 {
                                args[1].duplicate()
                            } else {
                                Data::unit()
                            };
                            proof {
                                crate::data::lemma_pairs_push(p0, (k, v));
                            }
                            pairs.push((k, v));
                        }
                    },
                    _ => {},
                }
                i += 1;
            }
            assert(items.take(i as int) =~= items);
        },
        _ => {},
    }
    Data::Entries { values: pairs }
}

/// What a derived `to_data` gives for a value of constructor `k` whose
/// fields encode to `fields`: `Constr(k, fields)`; the one field's `Data`
/// (unit where there is none); the list of the elements; or the map of the
/// pairs in the list field's `Data`.
pub fn derived_to_data(layout: Layout, k: i64, fields: Vec<Data>) -> (r: Data)
    requires
        layout == Layout::PairMap ==> fields@.len() > 0,
    ensures
        r@ == derived_data_spec(layout, k, views_of(fields@)),
{
    proof {
        lemma_datas_of(fields@);
        assert(datas_of(fields@) =~= views_of(fields@));
    }
    match layout {
        Layout::Constr => Data::Constr { tag: k, args: fields },
        Layout::OneElement => {
            if fields.len() > 0 {
                fields[0].duplicate()
            } else {
                Data::unit()
            }
        },
        Layout::List => Data::List { values: fields },
        Layout::PairMap => map_data(&fields[0]),
    }
}

/// What a derived `from_data` takes from `Data` before it decodes the
/// fields: the constructor, the `Data` of the fields in the order in which
/// they are decoded, and the index of the first field that is missing.
#[derive(Debug, PartialEq)]
pub struct Fields {
    pub constr: usize,
    pub present: Vec<Data>,
    pub missing: Option<usize>,
}

/// Model of a decoding error: an unexpected tag, an unexpected variant
/// (each with the text of what was expected), or a missing field.
pub enum LayoutErr {
    Tag(Seq<char>, i64),
    Variant(Seq<char>),
    Missing(usize),
}

/// What the derived `from_data` of a type with the given layout takes from
/// `d`, where `counts` gives the number of fields of each constructor and
/// `expected` is the text that the errors of the type give.
pub open spec fn fields_spec(layout: Layout, counts: Seq<usize>, expected: Seq<char>, d: DataM) -> Result<
    (usize, Seq<DataM>, Option<usize>),
    LayoutErr,
> {
    match layout {
        Layout::Constr => match d {
            DataM::Constr(tag, args) => if 0 <= tag < counts.len() {
                let c = counts[tag as int];
                if args.len() < c {
                    Ok((tag as usize, args, Some(args.len() as usize)))
                } else {
                    Ok((tag as usize, args.take(c as int), None))
                }
            } else {
                Err(LayoutErr::Tag(expected, tag))
            },
            _ => Err(LayoutErr::Variant("Constr"@)),
        },
        Layout::OneElement => Ok(
            (
                0,
                if counts.len() > 0 && counts[0] > 0 {
                    seq![d]
                } else {
                    Seq::empty()
                },
                None,
            ),
        ),
        Layout::List => match d {
            DataM::List(items) => Ok((0, items.reverse(), None)),
            _ => Err(LayoutErr::Variant("List (Data::List)"@)),
        },
        Layout::PairMap => match d {
            DataM::Entries(pairs) => Ok(
                (0, seq![DataM::List(pairs.map_values(|p: (DataM, DataM)| DataM::Constr(0, seq![p.0, p.1])))], None),
            ),
            _ => Err(LayoutErr::Variant(expected)),
        },
    }
}

/// The model of a layout's decoding result.
pub open spec fn fields_res_of(r: Result<Fields, DataError>) -> Result<
    (usize, Seq<DataM>, Option<usize>),
    LayoutErr,
> {
    match r {
        Ok(f) => Ok((f.constr, views_of(f.present@), f.missing)),
        Err(DataError::UnexpectedTag { expected: e, got }) => Err(LayoutErr::Tag(e@, got)),
        Err(DataError::UnexpectedVariant { expected: e }) => Err(LayoutErr::Variant(e@)),
        Err(DataError::MissingField { index }) => Err(LayoutErr::Missing(index)),
    }
}

/// Copies of the first `n` values.
fn dup_prefix(v: &Vec<Data>, n: usize) -> (r: Vec<Data>)
    requires
        n <= v@.len(),
    ensures
        views_of(r@) == views_of(v@).take(n as int),
{
    let mut out: Vec<Data> = Vec::new();
    let mut i: usize = 0;
    while i < n
        invariant
            i <= n <= v@.len(),
            views_of(out@) == views_of(v@).take(i as int),
        decreases n - i,
    {
        let ghost o0 = out@;
        out.push(v[i].duplicate());
        assert(views_of(out@) =~= views_of(o0).push(v@[i as int]@));
        assert(views_of(v@).take(i + 1) =~= views_of(v@).take(i as int).push(v@[i as int]@));
        i += 1;
    }
    out
}

/// What the derived `from_data` of a type with the given layout takes from
/// `data` before it decodes the fields one by one, in order: for a `Constr`
/// whose tag names a constructor, the arguments that stand for its fields
/// and the index of the first missing one (whose absence is reported once
/// the fields before it have decoded); for a list, its elements from the
/// last to the first (the order in which the list is rebuilt); for a map,
/// its pairs as a list of `Constr(0, [key, value])` for the list field.
/// `expected` is the text that the errors name: the type's name, or for the
/// map layout the name followed by ` (Data::Map)`.
pub fn derived_fields(layout: Layout, counts: &Vec<usize>, expected: &'static str, data: &Data) -> (r: Result<
    Fields,
    DataError,
>)
    ensures
        fields_res_of(r) == fields_spec(layout, counts@, expected@, data@),
{
    match layout {
        Layout::Constr => match data {
            Data::Constr { tag, args } => {
                proof {
                    lemma_datas_of(args@);
                    assert(datas_of(args@) =~= views_of(args@));
                }
                if 0 <= *tag && (*tag as u64) < (counts.len() as u64) {
                    let k = *tag as usize;
                    let c = counts[k];
                    if args.len() < c {
                        let present = dup_prefix(args, args.len());
                        assert(views_of(args@).take(args@.len() as int) =~= views_of(args@));
                        Ok(Fields { constr: k, present, missing: Some(args.len()) })
                    } else {
                        let present = dup_prefix(args, c);
                        Ok(Fields { constr: k, present, missing: None })
                    }
                } else {
                    Err(DataError::UnexpectedTag { expected, got: *tag })
                }
            },
            _ => Err(DataError::UnexpectedVariant { expected: "Constr" }),
        },
        Layout::OneElement => {
            let mut present: Vec<Data> = Vec::new();
            if counts.len() > 0 && counts[0] > 0 {
                present.push(data.duplicate());
            }
            assert(views_of(present@) =~= if counts@.len() > 0 && counts@[0] > 0 {
                seq![data@]
            } else {
                Seq::empty()
            });
            Ok(Fields { constr: 0, present, missing: None })
        },
        Layout::List => match data {
            Data::List { values } => {
                proof {
                    lemma_datas_of(values@);
                }
                let mut present: Vec<Data> = Vec::new();
                let mut i: usize = values.len();
                while i > 0
                    invariant
                        i <= values@.len(),
                        views_of(present@) == views_of(values@).subrange(i as int, values@.len() as int).reverse(),
                    decreases i,
                {
                    let ghost p0 = present@;
                    present.push(values[i - 1].duplicate());
                    assert(views_of(present@) =~= views_of(p0).push(values@[i - 1]@));
                    assert(views_of(values@).subrange(i - 1, values@.len() as int).reverse() =~= views_of(
                        values@,
                    ).subrange(i as int, values@.len() as int).reverse().push(values@[i - 1]@));
                    i -= 1;
                }
                assert(datas_of(values@) =~= views_of(values@));
                assert(views_of(values@).subrange(0, values@.len() as int) =~= views_of(values@));
                Ok(Fields { constr: 0, present, missing: None })
            },
            _ => Err(DataError::UnexpectedVariant { expected: "List (Data::List)" }),
        },
        Layout::PairMap => match data {
            Data::Entries { values } => {
                proof {
                    crate::data::lemma_pairs_of(values@);
                }
                let ghost ps = crate::data::pairs_of(values@);
                let mut items: Vec<Data> = Vec::new();
                let mut i: usize = 0;
                while i < values.len()
                    invariant
                        i <= values@.len(),
                        ps == crate::data::pairs_of(values@),
                        ps.len() == values@.len(),
                        forall|j: int| 0 <= j < values@.len() ==> #[trigger] ps[j] == (values@[j].0@, values@[j].1@),
                        views_of(items@) == ps.take(i as int).map_values(
                            |p: (DataM, DataM)| DataM::Constr(0, seq![p.0, p.1]),
                        ),
                    decreases values@.len() - i,
                {
                    let ghost i0 = items@;
                    let mut args: Vec<Data> = Vec::new();
                    args.push(values[i].0.duplicate());
                    args.push(values[i].1.duplicate());
                    let ghost a = args@;
                    proof {
                        lemma_datas_of(a);
                        assert(datas_of(a) =~= seq![values@[i as int].0@, values@[i as int].1@]);
                    }
                    let item = Data::Constr { tag: 0, args };
                    items.push(item);
                    assert(views_of(items@) =~= views_of(i0).push(DataM::Constr(0, seq![ps[i as int].0, ps[i as int].1])));
                    assert(ps.take(i + 1) =~= ps.take(i as int).push(ps[i as int]));
                    i += 1;
                }
                assert(ps.take(i as int) =~= ps);
                let mut present: Vec<Data> = Vec::new();
                proof {
                    lemma_datas_of(items@);
                    assert(datas_of(items@) =~= views_of(items@));
                }
                present.push(Data::List { values: items });
                assert(views_of(present@) =~= seq![DataM::List(ps.map_values(|p: (DataM, DataM)| DataM::Constr(0, seq![p.0, p.1])))]);
                Ok(Fields { constr: 0, present, missing: None })
            },
            _ => Err(DataError::UnexpectedVariant { expected }),
        },
    }
}


/// The list of `Constr(0, [key, value])` items that stands for pairs.
pub open spec fn pair_items(pairs: Seq<(DataM, DataM)>) -> Seq<DataM> {
    pairs.map_values(|p: (DataM, DataM)| DataM::Constr(0, seq![p.0, p.1]))
}

/// The pairs read back from the items that stand for them are those pairs.
proof fn lemma_pairs_from_items(pairs: Seq<(DataM, DataM)>)
    ensures
        pairs_from_items(pair_items(pairs)) == pairs,
    decreases pairs.len(),
{
    if pairs.len() > 0 {
        let p0 = pairs.drop_last();
        lemma_pairs_from_items(p0);
        assert(pair_items(pairs).drop_last() =~= pair_items(p0));
        assert(pairs =~= p0.push(pairs.last()));
    }
}

/// For a value of a constructor with all its fields, what the derived
/// `from_data` takes from the `Data` that the derived `to_data` gives is
/// that constructor and the `Data` of those fields, none missing.
pub proof fn law_constr_layout_roundtrip(counts: Seq<usize>, k: usize, fields: Seq<DataM>, expected: Seq<char>)
    requires
        k < counts.len(),
        fields.len() == counts[k as int],
        k <= i64::MAX,
    ensures
        fields_spec(Layout::Constr, counts, expected, derived_data_spec(Layout::Constr, k as i64, fields)) == Ok::<
            (usize, Seq<DataM>, Option<usize>),
            LayoutErr,
        >((k, fields, None)),
{
    assert(fields.take(fields.len() as int) =~= fields);
}

/// A struct written as its one field's `Data` reads back that `Data`.
pub proof fn law_one_element_roundtrip(field: DataM, expected: Seq<char>)
    ensures
        fields_spec(Layout::OneElement, seq![1usize], expected, derived_data_spec(Layout::OneElement, 0, seq![field]))
            == Ok::<(usize, Seq<DataM>, Option<usize>), LayoutErr>((0, seq![field], None)),
{
}

/// A list written by the list layout reads back its elements, last first:
/// rebuilt from the end they give the list again.
pub proof fn law_list_layout_roundtrip(elems: Seq<DataM>, counts: Seq<usize>, expected: Seq<char>)
    ensures
        fields_spec(Layout::List, counts, expected, derived_data_spec(Layout::List, 0, elems)) matches Ok(
            (c, present, missing),
        ) && c == 0 && missing is None && present.reverse() == elems,
{
    assert(elems.reverse().reverse() =~= elems);
}

/// A list of pairs written by the map layout reads back as the same list
/// of pairs.
pub proof fn law_map_layout_roundtrip(pairs: Seq<(DataM, DataM)>, counts: Seq<usize>, expected: Seq<char>)
    ensures
        fields_spec(
            Layout::PairMap,
            counts,
            expected,
            derived_data_spec(Layout::PairMap, 0, seq![DataM::List(pair_items(pairs))]),
        ) == Ok::<(usize, Seq<DataM>, Option<usize>), LayoutErr>((0, seq![DataM::List(pair_items(pairs))], None)),
{
    lemma_pairs_from_items(pairs);
}

} // verus!
