//! The options of the attribute macros, read from their `key = "value"`
//! arguments: `#[rustus(..)]` on derived types, `#[functional_typeclass(..)]`
//! on traits, and the `module` that `#[rustus_module(..)]` gives the
//! `#[compile]` functions inside it.
use crate::front::attr_value;
use crate::name_map::assoc_last;
use crate::text::{nat_text, owned, push_str, str_eq};
use vstd::prelude::*;

verus! {

broadcast use vstd::std_specs::vec::group_vec_axioms;

/// The value of the last argument with the given key.
pub fn last_value(args: &Vec<(String, String)>, key: &str) -> (r: Option<String>)
    ensures
        match attr_value(args@, key@) {
            Some(v) => r matches Some(x) && x@ == v,
            None => r is None,
        },
{
    let ghost m = args@.map_values(|p: (String, String)| (p.0@, p.1@));
    let mut j = args.len();
    assert(m.take(j as int) =~= m);
    while j > 0
        invariant
            j <= args@.len(),
            m == args@.map_values(|p: (String, String)| (p.0@, p.1@)),
            assoc_last(m, key@) == assoc_last(m.take(j as int), key@),
        decreases j,
    {
        let ghost t = m.take(j as int);
        assert(t.subrange(0, t.len() - 1) =~= m.take(j - 1));
        assert(t[t.len() - 1] == (args@[j - 1].0@, args@[j - 1].1@));
        if str_eq(args[j - 1].0.as_str(), key) {
            return Some(crate::duplicate::dup_string(&args[j - 1].1));
        }
        j -= 1;
    }
    None
}

/// The options of `#[rustus(name = "..", repr = "..")]` on a derived type:
/// the SIR name of the type and how it is laid out on chain.
#[derive(Debug, PartialEq)]
pub struct RustusAttrs {
    pub name: Option<String>,
    pub repr: Option<String>,
}

/// The options of the `#[rustus(..)]` attributes of a type, from the
/// `key = "value"` arguments of all of them in order; other keys are
/// ignored and a later argument overrides an earlier one.
pub fn parse_rustus_attrs(args: &Vec<(String, String)>) -> (r: RustusAttrs)
    ensures
        crate::model::opt_str_of(r.name) == attr_value(args@, "name"@),
        crate::model::opt_str_of(r.repr) == attr_value(args@, "repr"@),
{
    let name = last_value(args, "name");
    let repr = last_value(args, "repr");
    RustusAttrs { name, repr }
}

/// The message for a typeclass trait without exactly one method.
pub open spec fn one_method_error(trait_name: Seq<char>, n: nat) -> Seq<char> {
    if n == 0 {
        "functional_typeclass trait `"@ + trait_name + "` must have exactly one method"@
    } else {
        "functional_typeclass trait `"@ + trait_name + "` must have exactly one method, found "@
            + crate::text::nat_decimal(n)
    }
}

/// The names under which `#[functional_typeclass(..)]` registers a trait:
/// the Scalus name (the `name` option, or the trait's name) and the method
/// name (the `method` option, or the trait's one method); an error where no
/// method is named and the trait does not have exactly one.
pub fn functional_typeclass_impl(trait_name: &str, args: &Vec<(String, String)>, methods: &Vec<String>) -> (r: Result<
    (String, String),
    String,
>)
    ensures
        match attr_value(args@, "method"@) {
            Some(m) => r matches Ok((s, x)) && x@ == m,
            None => if methods@.len() == 1 {
                r matches Ok((s, x)) && x@ == methods@[0]@
            } else {
                r matches Err(e) && e@ == one_method_error(trait_name@, methods@.len())
            },
        },
        r matches Ok((s, _)) ==> s@ == match attr_value(args@, "name"@) {
            Some(n) => n,
            None => trait_name@,
        },
{
    let scalus = match last_value(args, "name") {
        Some(n) => n,
        None => owned(trait_name),
    };
    let method = match last_value(args, "method") {
        Some(m) => m,
        None => {
            if methods.len() == 1 {
                crate::duplicate::dup_string(&methods[0])
            } else {
                let mut e = owned("functional_typeclass trait `");
                push_str(&mut e, trait_name);
                if methods.len() == 0 {
                    push_str(&mut e, "` must have exactly one method");
                } else {
                    push_str(&mut e, "` must have exactly one method, found ");
                    let n = nat_text(methods.len() as u64);
                    push_str(&mut e, n.as_str());
                }
                return Err(e);
            }
        },
    };
    Ok((scalus, method))
}

/// Whether an attribute's path names `compile` (as `#[compile]` or
/// `#[rustus_macros::compile]` do).
pub fn is_compile_attr(segments: &Vec<String>) -> (r: bool)
    ensures
        r == (segments@.len() > 0 && segments@.last()@ == "compile"@),
{
    if segments.len() == 0 {
        false
    } else {
        proof {
            reveal_strlit("compile");
        }
        str_eq(segments[segments.len() - 1].as_str(), "compile")
    }
}

/// The arguments of a `#[compile]` attribute inside
/// `#[rustus_module("m")]`: `module = "m"` first, then its own.
pub fn rustus_module_impl(module: &str, args: &Vec<(String, String)>) -> (r: Vec<(String, String)>)
    ensures
        r@.map_values(|p: (String, String)| (p.0@, p.1@)) == seq![("module"@, module@)] + args@.map_values(
            |p: (String, String)| (p.0@, p.1@),
        ),
{
    let mut r: Vec<(String, String)> = Vec::new();
    r.push((owned("module"), owned(module)));
    let mut i: usize = 0;
    while i < args.len()
        invariant
            i <= args@.len(),
            r@.map_values(|p: (String, String)| (p.0@, p.1@)) == seq![("module"@, module@)] + args@.take(
                i as int,
            ).map_values(|p: (String, String)| (p.0@, p.1@)),
        decreases args@.len() - i,
    {
        let ghost r0 = r@;
        r.push((crate::duplicate::dup_string(&args[i].0), crate::duplicate::dup_string(&args[i].1)));
        assert(r@.map_values(|p: (String, String)| (p.0@, p.1@)) =~= r0.map_values(
            |p: (String, String)| (p.0@, p.1@),
        ).push((args@[i as int].0@, args@[i as int].1@)));
        assert(args@.take(i + 1).map_values(|p: (String, String)| (p.0@, p.1@)) =~= args@.take(i as int).map_values(
            |p: (String, String)| (p.0@, p.1@),
        ).push((args@[i as int].0@, args@[i as int].1@)));
        i += 1;
    }
    assert(args@.take(i as int) =~= args@);
    r
}

/// Looking a key up in entries with one more at the front finds the last
/// of the others that has it, or else that first one.
proof fn lemma_assoc_last_front<M>(x: (Seq<char>, M), s: Seq<(Seq<char>, M)>, k: Seq<char>)
    ensures
        assoc_last(seq![x] + s, k) == match assoc_last(s, k) {
            Some(v) => Some(v),
            None => if x.0 == k {
                Some(x.1)
            } else {
                None
            },
        },
    decreases s.len(),
{
    let t = seq![x] + s;
    if s.len() == 0 {
        assert(t.subrange(0, 0) =~= Seq::<(Seq<char>, M)>::empty());
        assert(assoc_last(Seq::<(Seq<char>, M)>::empty(), k) is None);
        assert(t[0] == x);
    } else {
        let s0 = s.subrange(0, s.len() - 1);
        lemma_assoc_last_front(x, s0, k);
        assert(t.subrange(0, t.len() - 1) =~= seq![x] + s0);
        assert(t[t.len() - 1] == s[s.len() - 1]);
    }
}

/// A `#[compile]` function inside `#[rustus_module("m")]` belongs to the
/// module that its own attribute names, or else to `m`; its other options
/// are its own.
pub proof fn law_module_attr(module: Seq<char>, args: Seq<(String, String)>, key: Seq<char>, with: Seq<(String, String)>)
    requires
        with.map_values(|p: (String, String)| (p.0@, p.1@)) == seq![("module"@, module)] + args.map_values(
            |p: (String, String)| (p.0@, p.1@),
        ),
    ensures
        attr_value(with, "module"@) == match attr_value(args, "module"@) {
            Some(m) => Some(m),
            None => Some(module),
        },
        key != "module"@ ==> attr_value(with, key) == attr_value(args, key),
{
    lemma_assoc_last_front(("module"@, module), args.map_values(|p: (String, String)| (p.0@, p.1@)), "module"@);
    lemma_assoc_last_front(("module"@, module), args.map_values(|p: (String, String)| (p.0@, p.1@)), key);
}

} // verus!
