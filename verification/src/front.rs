//! What the `#[compile]` front end decides on plain values while it reads a
//! Rust function: the renaming of variables that removes shadowing, which
//! Rust types it registers, the type hints and SIR types of Rust types, the
//! split of an enum constructor's path, and the options of the attribute.
use crate::name_map::assoc_last;
use crate::pre_sir::{HintM, TypeHint, hint_of, hints_of};
use crate::sir_type::SIRType;
use crate::text::{nat_decimal, nat_text, owned, push_str, str_eq};
use vstd::prelude::*;

verus! {

broadcast use vstd::std_specs::vec::group_vec_axioms;

/// The bindings of a scope as a model: original name to renamed name, the
/// later binding of a name hiding the earlier.
pub open spec fn scope_of(s: Seq<(String, String)>) -> Seq<(Seq<char>, Seq<char>)> {
    s.map_values(|p: (String, String)| (p.0@, p.1@))
}

/// The scopes as models, outermost first.
pub open spec fn scopes_of(s: Seq<Vec<(String, String)>>) -> Seq<Seq<(Seq<char>, Seq<char>)>> {
    s.map_values(|v: Vec<(String, String)>| scope_of(v@))
}

/// The name that `k` refers to: its binding in the innermost scope that
/// binds it, or `k` itself where none does.
pub open spec fn resolved(scopes: Seq<Seq<(Seq<char>, Seq<char>)>>, k: Seq<char>) -> Seq<char>
    decreases scopes.len(),
{
    if scopes.len() == 0 {
        k
    } else {
        match assoc_last(scopes.last(), k) {
            Some(v) => v,
            None => resolved(scopes.drop_last(), k),
        }
    }
}

/// How many times a name occurs among the names given out.
pub open spec fn count_of(given: Seq<Seq<char>>, k: Seq<char>) -> nat
    decreases given.len(),
{
    if given.len() == 0 {
        0
    } else {
        count_of(given.drop_last(), k) + if given.last() == k {
            1nat
        } else {
            0nat
        }
    }
}

/// The `c`-th fresh name for `k`: `k` itself the first time, then `k_1`,
/// `k_2`, and so on.
pub open spec fn fresh_name(k: Seq<char>, c: nat) -> Seq<char> {
    if c == 0 {
        k
    } else {
        k + "_"@ + nat_decimal(c)
    }
}

/// What the front end has read of a function so far, for renaming and type
/// registration.
#[derive(Debug, PartialEq)]
pub struct CompileCtx {
    /// The source file of the function, for the positions of its terms.
    pub file: String,
    /// The names of the generic type parameters, in order.
    pub generic_type_params: Vec<String>,
    /// The Rust name of the function being compiled.
    pub current_fn_name: Option<String>,
    /// The SIR name under which a Rust function name is compiled.
    pub name_remaps: Vec<(String, String)>,
    /// The original names of the bindings made so far, in order.
    pub name_counts: Vec<String>,
    /// The scopes, outermost first: original name to renamed name.
    pub name_scopes: Vec<Vec<(String, String)>>,
    /// The Rust types registered so far, by their text.
    pub registered_types: Vec<String>,
    /// The registrations to emit, in order.
    pub type_registrations: Vec<Registration>,
}

/// A registration that the generated builder makes in its type dictionary.
#[derive(Debug, PartialEq)]
pub enum Registration {
    /// The type of a (renamed) variable, by the text of its Rust type.
    Var { name: String, rust_type: String },
    /// The SIR type and declaration of a Rust type, by its text.
    TypeInfo { rust_type: String },
}

/// Model of a `Registration`.
pub enum RegM {
    Var(Seq<char>, Seq<char>),
    TypeInfo(Seq<char>),
}

/// The model of a registration.
pub open spec fn reg_of(r: Registration) -> RegM {
    match r {
        Registration::Var { name, rust_type } => RegM::Var(name@, rust_type@),
        Registration::TypeInfo { rust_type } => RegM::TypeInfo(rust_type@),
    }
}

/// Model of a `CompileCtx`: what the translation of a function body reads
/// and changes.
pub struct CtxM {
    pub file: Seq<char>,
    pub gps: Seq<Seq<char>>,
    pub remaps: Seq<(Seq<char>, Seq<char>)>,
    pub counts: Seq<Seq<char>>,
    pub scopes: Seq<Seq<(Seq<char>, Seq<char>)>>,
    pub registered: Seq<Seq<char>>,
    pub regs: Seq<RegM>,
}

/// The model of a context.
pub open spec fn ctx_of(c: CompileCtx) -> CtxM {
    CtxM {
        file: c.file@,
        gps: texts(c.generic_type_params@),
        remaps: scope_of(c.name_remaps@),
        counts: texts(c.name_counts@),
        scopes: scopes_of(c.name_scopes@),
        registered: texts(c.registered_types@),
        regs: c.type_registrations@.map_values(|r: Registration| reg_of(r)),
    }
}

/// A fresh name for `k`, bound to it in the innermost scope.
pub open spec fn fresh_m(c: CtxM, k: Seq<char>) -> (Seq<char>, CtxM) {
    let n = count_of(c.counts, k);
    let r = fresh_name(k, n);
    (
        r,
        CtxM {
            counts: c.counts.push(k),
            scopes: if c.scopes.len() > 0 {
                c.scopes.update(c.scopes.len() - 1, c.scopes.last().push((k, r)))
            } else {
                c.scopes
            },
            ..c
        },
    )
}

/// A new innermost scope.
pub open spec fn push_m(c: CtxM) -> CtxM {
    CtxM { scopes: c.scopes.push(Seq::empty()), ..c }
}

/// The innermost scope closed.
pub open spec fn pop_m(c: CtxM) -> CtxM {
    CtxM {
        scopes: if c.scopes.len() > 0 {
            c.scopes.drop_last()
        } else {
            c.scopes
        },
        ..c
    }
}

/// The type of a variable registered.
pub open spec fn reg_var_m(c: CtxM, name: Seq<char>, t: Seq<char>) -> CtxM {
    CtxM { regs: c.regs.push(RegM::Var(name, t)), ..c }
}

/// A Rust type registered, where it is not a builtin, a generic parameter
/// or registered already.
pub open spec fn reg_type_m(c: CtxM, t: Seq<char>) -> CtxM {
    if is_builtin_type_text(t) || c.gps.contains(t) || c.registered.contains(t) {
        c
    } else {
        CtxM { registered: c.registered.push(t), regs: c.regs.push(RegM::TypeInfo(t)), ..c }
    }
}

impl CompileCtx {
    /// The scopes, as models.
    pub open spec fn scopes(&self) -> Seq<Seq<(Seq<char>, Seq<char>)>> {
        scopes_of(self.name_scopes@)
    }

    /// The original names of the bindings made so far.
    pub open spec fn counts(&self) -> Seq<Seq<char>> {
        texts(self.name_counts@)
    }

    /// The texts of the registered Rust types.
    pub open spec fn registered(&self) -> Seq<Seq<char>> {
        self.registered_types@.map_values(|s: String| s@)
    }

    /// A context with one empty scope and nothing registered.
    pub fn new() -> (r: CompileCtx)
        ensures
            r.scopes() == seq![Seq::<(Seq<char>, Seq<char>)>::empty()],
            r.counts() == Seq::<Seq<char>>::empty(),
            r.registered() == Seq::<Seq<char>>::empty(),
            r.generic_type_params@.len() == 0,
            r.current_fn_name is None,
            r.name_remaps@.len() == 0,
            r.type_registrations@.len() == 0,
    {
        let mut scopes: Vec<Vec<(String, String)>> = Vec::new();
        scopes.push(Vec::new());
        let r = CompileCtx {
            file: String::new(),
            generic_type_params: Vec::new(),
            current_fn_name: None,
            name_remaps: Vec::new(),
            name_counts: Vec::new(),
            name_scopes: scopes,
            registered_types: Vec::new(),
            type_registrations: Vec::new(),
        };
        assert(scope_of(Seq::<(String, String)>::empty()) =~= Seq::<(Seq<char>, Seq<char>)>::empty());
        assert(r.scopes() =~= seq![Seq::<(Seq<char>, Seq<char>)>::empty()]);
        assert(r.counts() =~= Seq::<Seq<char>>::empty());
        assert(r.registered() =~= Seq::<Seq<char>>::empty());
        r
    }

    /// How many times `original` was given out.
    fn count(&self, original: &str) -> (r: usize)
        ensures
            r == count_of(self.counts(), original@),
    {
        let mut n: usize = 0;
        let mut i: usize = 0;
        while i < self.name_counts.len()
            invariant
                i <= self.name_counts@.len(),
                n <= i,
                n == count_of(self.counts().take(i as int), original@),
            decreases self.name_counts@.len() - i,
        {
            let ghost t = self.counts().take(i + 1);
            assert(t.drop_last() =~= self.counts().take(i as int));
            if str_eq(self.name_counts[i].as_str(), original) {
                n += 1;
            }
            i += 1;
        }
        assert(self.counts().take(i as int) =~= self.counts());
        n
    }

    /// A name for a new binding of `original` that no earlier binding of it
    /// had, bound to it in the innermost scope.
    pub fn fresh_var(&mut self, original: &str) -> (r: String)
        ensures
            r@ == fresh_name(original@, count_of(old(self).counts(), original@)),
            count_of(final(self).counts(), original@) == count_of(old(self).counts(), original@) + 1,
            forall|k: Seq<char>| k != original@ ==> #[trigger] count_of(final(self).counts(), k) == count_of(old(self).counts(), k),
            old(self).scopes().len() > 0 ==> final(self).scopes() == old(self).scopes().update(
                old(self).scopes().len() - 1,
                old(self).scopes().last().push((original@, r@)),
            ),
            old(self).scopes().len() == 0 ==> final(self).scopes() == old(self).scopes(),
            final(self).registered() == old(self).registered(),
            final(self).generic_type_params == old(self).generic_type_params,
            final(self).type_registrations == old(self).type_registrations,
            (r@, ctx_of(*final(self))) == fresh_m(ctx_of(*old(self)), original@),
    {
        let count = self.count(original);
        let renamed = if count == 0 {
            owned(original)
        } else {
            let mut s = owned(original);
            push_str(&mut s, "_");
            let n = nat_text(count as u64);
            push_str(&mut s, n.as_str());
            s
        };
        let ghost c0 = self.counts();
        self.name_counts.push(owned(original));
        assert(self.counts() =~= c0.push(original@));
        assert(self.counts().drop_last() =~= c0);
        let ghost sc0 = self.scopes();
        let n = self.name_scopes.len();
        if n > 0 {
            let mut last = self.name_scopes.pop().unwrap();
            let ghost l0 = last@;
            last.push((owned(original), crate::duplicate::dup_string(&renamed)));
            self.name_scopes.push(last);
            assert(scope_of(last@) =~= scope_of(l0).push((original@, renamed@)));
            assert(self.scopes() =~= sc0.update(sc0.len() - 1, sc0.last().push((original@, renamed@))));
        }
        renamed
    }

    /// The name that `original` refers to here.
    pub fn resolve_var(&self, original: &str) -> (r: String)
        ensures
            r@ == resolved(self.scopes(), original@),
    {
        let mut i = self.name_scopes.len();
        assert(self.scopes().take(i as int) =~= self.scopes());
        while i > 0
            invariant
                i <= self.name_scopes@.len(),
                resolved(self.scopes(), original@) == resolved(self.scopes().take(i as int), original@),
            decreases i,
        {
            let scope = &self.name_scopes[i - 1];
            let ghost ss = self.scopes().take(i as int);
            assert(ss.drop_last() =~= self.scopes().take(i - 1));
            assert(ss.last() == scope_of(scope@));
            assert(ss.subrange(0, ss.len() - 1) =~= ss.drop_last());
            assert(resolved(self.scopes(), original@) == match assoc_last(scope_of(scope@), original@) {
                Some(v) => v,
                None => resolved(self.scopes().take(i - 1), original@),
            });
            let mut j = scope.len();
            assert(scope_of(scope@).take(j as int) =~= scope_of(scope@));
            while j > 0
                invariant
                    j <= scope@.len(),
                    assoc_last(scope_of(scope@), original@) == assoc_last(scope_of(scope@).take(j as int), original@),
                    resolved(self.scopes(), original@) == match assoc_last(scope_of(scope@), original@) {
                        Some(v) => v,
                        None => resolved(self.scopes().take(i - 1), original@),
                    },
                decreases j,
            {
                let ghost t = scope_of(scope@).take(j as int);
                assert(t.drop_last() =~= scope_of(scope@).take(j - 1));
                assert(t.subrange(0, t.len() - 1) =~= t.drop_last());
                assert(t.last() == (scope@[j - 1].0@, scope@[j - 1].1@));
                if str_eq(scope[j - 1].0.as_str(), original) {
                    return crate::duplicate::dup_string(&scope[j - 1].1);
                }
                j -= 1;
            }
            i -= 1;
        }
        owned(original)
    }

    /// Open a new innermost scope.
    pub fn push_scope(&mut self)
        ensures
            ctx_of(*final(self)) == push_m(ctx_of(*old(self))),
            final(self).scopes() == old(self).scopes().push(Seq::empty()),
            final(self).counts() == old(self).counts(),
            final(self).registered() == old(self).registered(),
            final(self).generic_type_params == old(self).generic_type_params,
            final(self).type_registrations == old(self).type_registrations,
    {
        let ghost s0 = self.scopes();
        self.name_scopes.push(Vec::new());
        assert(scope_of(Seq::<(String, String)>::empty()) =~= Seq::<(Seq<char>, Seq<char>)>::empty());
        assert(self.scopes() =~= s0.push(Seq::empty()));
    }

    /// Close the innermost scope, where there is one.
    pub fn pop_scope(&mut self)
        ensures
            ctx_of(*final(self)) == pop_m(ctx_of(*old(self))),
            final(self).scopes() == if old(self).scopes().len() > 0 {
                old(self).scopes().drop_last()
            } else {
                old(self).scopes()
            },
            final(self).counts() == old(self).counts(),
            final(self).registered() == old(self).registered(),
            final(self).generic_type_params == old(self).generic_type_params,
            final(self).type_registrations == old(self).type_registrations,
    {
        let ghost s0 = self.scopes();
        let _ = self.name_scopes.pop();
        assert(self.scopes() =~= if s0.len() > 0 {
            s0.drop_last()
        } else {
            s0
        });
    }
}


// ---------------------------------------------------------------------------
// Rust types
// ---------------------------------------------------------------------------

/// A Rust type as the front end reads it: its text with the spaces taken
/// out, the identifiers of its path (none where it is not a path), and the
/// type arguments of the path's last segment.
#[derive(Debug, PartialEq)]
pub struct RustType {
    pub text: String,
    pub path: Vec<String>,
    pub args: Vec<RustType>,
}

/// Texts of the Rust types that stand for integers.
pub open spec fn is_integer_text(t: Seq<char>) -> bool {
    ||| t == "i64"@
    ||| t == "i128"@
    ||| t == "BigInt"@
    ||| t == "num_bigint::BigInt"@
    ||| t == "rustus_core::num_bigint::BigInt"@
}

/// Texts of the Rust types that stand for byte strings.
pub open spec fn is_bytes_text(t: Seq<char>) -> bool {
    ||| t == "Vec<u8>"@
    ||| t == "ByteString"@
    ||| t == "rustus_core::bytestring::ByteString"@
}

/// Texts of the Rust types that stand for Plutus Data.
pub open spec fn is_data_text(t: Seq<char>) -> bool {
    t == "Data"@ || t == "rustus_core::data::Data"@
}

/// The position of the first occurrence of `t` in `s`.
pub open spec fn first_index(s: Seq<Seq<char>>, t: Seq<char>) -> Option<int>
    decreases s.len(),
{
    if s.len() == 0 {
        None
    } else if s[0] == t {
        Some(0)
    } else {
        match first_index(s.drop_first(), t) {
            Some(i) => Some(i + 1),
            None => None,
        }
    }
}

/// Where `first_index` finds a text, it lies within the sequence.
pub proof fn lemma_first_index_bounds(s: Seq<Seq<char>>, t: Seq<char>)
    ensures
        first_index(s, t) matches Some(i) ==> 0 <= i < s.len() && s[i] == t,
    decreases s.len(),
{
    if s.len() > 0 && s[0] != t {
        lemma_first_index_bounds(s.drop_first(), t);
    }
}

/// Path segments joined with `::`.
pub open spec fn join_path(segs: Seq<Seq<char>>) -> Seq<char>
    decreases segs.len(),
{
    if segs.len() == 0 {
        Seq::empty()
    } else if segs.len() == 1 {
        segs[0]
    } else {
        join_path(segs.drop_last()) + "::"@ + segs.last()
    }
}

/// The texts of strings.
pub open spec fn texts(s: Seq<String>) -> Seq<Seq<char>> {
    s.map_values(|x: String| x@)
}

/// The name of a type's path, or `unknown` where it is not a path.
pub open spec fn base_name(t: RustType) -> Seq<char> {
    if t.path@.len() == 0 {
        "unknown"@
    } else {
        join_path(texts(t.path@))
    }
}

/// The type hint that the front end writes for a Rust type.
pub open spec fn type_hint_spec(t: RustType, gps: Seq<Seq<char>>) -> HintM
    decreases t,
{
    match first_index(gps, t.text@) {
        Some(i) => HintM::TypeParam(t.text@, (i + 1) as i64),
        None => if t.text@ == "bool"@ {
            HintM::Bool
        } else if is_integer_text(t.text@) {
            HintM::Integer
        } else if is_bytes_text(t.text@) {
            HintM::ByteString
        } else if t.text@ == "String"@ {
            HintM::String
        } else if t.text@ == "()"@ {
            HintM::Unit
        } else if is_data_text(t.text@) {
            HintM::Data
        } else {
            HintM::Named(base_name(t), type_hints_spec(t.args@, gps))
        },
    }
}

/// The type hints of a sequence of Rust types.
pub open spec fn type_hints_spec(s: Seq<RustType>, gps: Seq<Seq<char>>) -> Seq<HintM>
    decreases s,
{
    if s.len() == 0 {
        Seq::empty()
    } else {
        type_hints_spec(s.subrange(0, s.len() - 1), gps).push(type_hint_spec(s[s.len() - 1], gps))
    }
}

/// The position of `t` among `s`, where it occurs.
pub fn index_in(s: &Vec<String>, t: &str) -> (r: Option<usize>)
    ensures
        match first_index(texts(s@), t@) {
            Some(i) => r matches Some(x) && x as int == i,
            None => r is None,
        },
        r matches Some(i) ==> i < s@.len(),
{
    let ghost ts = texts(s@);
    proof {
        lemma_first_index_bounds(ts, t@);
    }
    let mut i: usize = 0;
    assert(ts.skip(0) =~= ts);
    while i < s.len()
        invariant
            i <= s@.len(),
            ts == texts(s@),
            first_index(ts, t@) == match first_index(ts.skip(i as int), t@) {
                Some(j) => Some(j + i),
                None => None,
            },
        decreases s@.len() - i,
    {
        assert(ts.skip(i as int)[0] == s@[i as int]@);
        assert(ts.skip(i as int).drop_first() =~= ts.skip(i + 1));
        if str_eq(s[i].as_str(), t) {
            return Some(i);
        }
        i += 1;
    }
    assert(ts.skip(i as int) =~= Seq::<Seq<char>>::empty());
    None
}

/// Segments joined with `::`.
pub fn join_segments(segs: &Vec<String>) -> (r: String)
    ensures
        r@ == join_path(texts(segs@)),
{
    let ghost ts = texts(segs@);
    if segs.len() == 0 {
        return String::new();
    }
    let mut r = crate::duplicate::dup_string(&segs[0]);
    assert(ts.take(1).len() == 1);
    let mut i: usize = 1;
    while i < segs.len()
        invariant
            1 <= i <= segs@.len(),
            ts == texts(segs@),
            r@ == join_path(ts.take(i as int)),
        decreases segs@.len() - i,
    {
        assert(ts.take(i + 1).drop_last() =~= ts.take(i as int));
        push_str(&mut r, "::");
        push_str(&mut r, segs[i].as_str());
        i += 1;
    }
    assert(ts.take(i as int) =~= ts);
    r
}

/// The type hint for a Rust type: a generic parameter by its 1-based
/// position, a primitive by its text, or else the type named by its path
/// with the hints of its type arguments.
pub fn rust_type_to_type_hint(ty: &RustType, generic_params: &Vec<String>) -> (r: TypeHint)
    requires
        generic_params@.len() < i64::MAX,
    ensures
        hint_of(r) == type_hint_spec(*ty, texts(generic_params@)),
    decreases ty, 1nat,
{
    let t = ty.text.as_str();
    assert(t@ == ty.text@);
    let found = index_in(generic_params, t);
    proof {
        lemma_first_index_bounds(texts(generic_params@), ty.text@);
    }
    match found {
        Some(i) => {
            let k: i64 = i as i64;
            let index: i64 = k + 1;
            return TypeHint::TypeParam { name: crate::duplicate::dup_string(&ty.text), index };
        },
        None => {},
    }
    if str_eq(t, "bool") {
        TypeHint::Bool
    } else if str_eq(t, "i64") || str_eq(t, "i128") || str_eq(t, "BigInt") || str_eq(t, "num_bigint::BigInt") || str_eq(
        t,
        "rustus_core::num_bigint::BigInt",
    ) {
        TypeHint::Integer
    } else if str_eq(t, "Vec<u8>") || str_eq(t, "ByteString") || str_eq(t, "rustus_core::bytestring::ByteString") {
        TypeHint::ByteString
    } else if str_eq(t, "String") {
        TypeHint::String
    } else if str_eq(t, "()") {
        TypeHint::Unit
    } else if str_eq(t, "Data") || str_eq(t, "rustus_core::data::Data") {
        TypeHint::Data
    } else {
        let rust_path = if ty.path.len() == 0 {
            owned("unknown")
        } else {
            join_segments(&ty.path)
        };
        let type_args = type_hints_rec(&ty.args, ty, generic_params);
        TypeHint::Named { rust_path, type_args }
    }
}

/// The type hints of the type arguments of `parent`.
fn type_hints_rec(v: &Vec<RustType>, parent: &RustType, generic_params: &Vec<String>) -> (r: Vec<TypeHint>)
    requires
        forall|i: int| 0 <= i < v@.len() ==> decreases_to!(*parent => #[trigger] v@[i]),
        generic_params@.len() < i64::MAX,
    ensures
        hints_of(r@) == type_hints_spec(v@, texts(generic_params@)),
    decreases parent, 0nat,
{
    let ghost gps = texts(generic_params@);
    let mut r: Vec<TypeHint> = Vec::new();
    let mut i: usize = 0;
    while i < v.len()
        invariant
            0 <= i <= v@.len(),
            gps == texts(generic_params@),
            generic_params@.len() < i64::MAX,
            hints_of(r@) == type_hints_spec(v@.take(i as int), gps),
            forall|i: int| 0 <= i < v@.len() ==> decreases_to!(*parent => #[trigger] v@[i]),
        decreases v@.len() - i,
    {
        let x = rust_type_to_type_hint(&v[i], generic_params);
        let ghost r0 = r@;
        r.push(x);
        assert(r@.subrange(0, r@.len() - 1) =~= r0);
        assert(v@.take(i + 1).subrange(0, i as int) =~= v@.take(i as int));
        i += 1;
    }
    assert(v@.take(v@.len() as int) =~= v@);
    r
}


// ---------------------------------------------------------------------------
// Type registration
// ---------------------------------------------------------------------------

/// Texts of the Rust types that the front end never registers: the ones
/// that the backend knows.
pub open spec fn is_builtin_type_text(t: Seq<char>) -> bool {
    ||| t == "bool"@
    ||| t == "i64"@
    ||| t == "i128"@
    ||| t == "Vec<u8>"@
    ||| t == "ByteString"@
    ||| t == "String"@
    ||| t == "()"@
    ||| t == "Data"@
    ||| t == "rustus_core::data::Data"@
    ||| t == "BigInt"@
    ||| t == "num_bigint::BigInt"@
}

/// The SIR type that the front end writes directly for a Rust type, where it
/// does not ask the type for it: a primitive by its text, or a generic
/// parameter as a type variable numbered by its 1-based position.
pub open spec fn known_type_spec(t: Seq<char>, gps: Seq<Seq<char>>) -> Option<crate::model::Ty> {
    if t == "bool"@ {
        Some(crate::model::Ty::Boolean)
    } else if is_integer_text(t) {
        Some(crate::model::Ty::Integer)
    } else if is_bytes_text(t) {
        Some(crate::model::Ty::ByteString)
    } else if t == "String"@ {
        Some(crate::model::Ty::String)
    } else if t == "()"@ {
        Some(crate::model::Ty::Unit)
    } else if is_data_text(t) {
        Some(crate::model::Ty::Data)
    } else {
        match first_index(gps, t) {
            Some(i) => Some(crate::model::Ty::TypeVar(t, Some((i + 1) as i64), false)),
            None => None,
        }
    }
}

impl CompileCtx {
    /// Whether `t` is one of the registered types.
    fn is_registered(&self, t: &str) -> (r: bool)
        ensures
            r == self.registered().contains(t@),
    {
        let mut i: usize = 0;
        while i < self.registered_types.len()
            invariant
                i <= self.registered_types@.len(),
                forall|j: int| 0 <= j < i ==> self.registered()[j] != t@,
            decreases self.registered_types@.len() - i,
        {
            if str_eq(self.registered_types[i].as_str(), t) {
                assert(self.registered()[i as int] == t@);
                return true;
            }
            i += 1;
        }
        false
    }

    /// Record that the builder registers the type of a variable.
    pub fn register_var_type(&mut self, renamed: &str, rust_type: &str)
        ensures
            ctx_of(*final(self)) == reg_var_m(ctx_of(*old(self)), renamed@, rust_type@),
            final(self).type_registrations@.len() == old(self).type_registrations@.len() + 1,
            final(self).type_registrations@.take(old(self).type_registrations@.len() as int)
                == old(self).type_registrations@,
            final(self).type_registrations@.last() matches Registration::Var { name, rust_type: t } && name@
                == renamed@ && t@ == rust_type@,
            final(self).registered() == old(self).registered(),
            final(self).scopes() == old(self).scopes(),
            final(self).counts() == old(self).counts(),
            final(self).generic_type_params == old(self).generic_type_params,
    {
        let ghost r0 = self.type_registrations@;
        self.type_registrations.push(Registration::Var { name: owned(renamed), rust_type: owned(rust_type) });
        assert(self.type_registrations@.take(r0.len() as int) =~= r0);
        assert(self.type_registrations@.map_values(|r: Registration| reg_of(r)) =~= r0.map_values(
            |r: Registration| reg_of(r),
        ).push(RegM::Var(renamed@, rust_type@)));
    }

    /// Register a Rust type whose SIR type and declaration the builder asks
    /// for: not a builtin, not a generic parameter, and once only. Whether it
    /// was registered now.
    pub fn register_rust_type(&mut self, rust_type: &str) -> (r: bool)
        ensures
            ctx_of(*final(self)) == reg_type_m(ctx_of(*old(self)), rust_type@),
            r == !(is_builtin_type_text(rust_type@) || texts(old(self).generic_type_params@).contains(rust_type@)
                || old(self).registered().contains(rust_type@)),
            r ==> final(self).registered() == old(self).registered().push(rust_type@),
            r ==> final(self).type_registrations@.len() == old(self).type_registrations@.len() + 1,
            r ==> final(self).type_registrations@.take(old(self).type_registrations@.len() as int)
                == old(self).type_registrations@,
            r ==> (final(self).type_registrations@.last() matches Registration::TypeInfo { rust_type: t } && t@
                == rust_type@),
            !r ==> final(self).registered() == old(self).registered(),
            !r ==> final(self).type_registrations == old(self).type_registrations,
            final(self).scopes() == old(self).scopes(),
            final(self).counts() == old(self).counts(),
            final(self).generic_type_params == old(self).generic_type_params,
    {
        let t = rust_type;
        if str_eq(t, "bool") || str_eq(t, "i64") || str_eq(t, "i128") || str_eq(t, "Vec<u8>") || str_eq(
            t,
            "ByteString",
        ) || str_eq(t, "String") || str_eq(t, "()") || str_eq(t, "Data") || str_eq(t, "rustus_core::data::Data")
            || str_eq(t, "BigInt") || str_eq(t, "num_bigint::BigInt") {
            return false;
        }
        let found = index_in(&self.generic_type_params, t);
        proof {
            lemma_first_index_bounds(texts(self.generic_type_params@), t@);
            lemma_first_index_finds(texts(self.generic_type_params@), t@);
        }
        if found.is_some() {
            return false;
        }
        if self.is_registered(t) {
            return false;
        }
        let ghost g0 = self.registered();
        let ghost r0 = self.type_registrations@;
        self.registered_types.push(owned(t));
        assert(self.registered() =~= g0.push(t@));
        self.type_registrations.push(Registration::TypeInfo { rust_type: owned(t) });
        assert(self.type_registrations@.take(r0.len() as int) =~= r0);
        assert(self.type_registrations@.map_values(|r: Registration| reg_of(r)) =~= r0.map_values(
            |r: Registration| reg_of(r),
        ).push(RegM::TypeInfo(t@)));
        true
    }

    /// The SIR type that the front end writes directly for a Rust type, or
    /// none where the generated builder asks the type for it.
    pub fn known_sir_type(&self, rust_type: &str) -> (r: Option<SIRType>)
        requires
            self.generic_type_params@.len() < i64::MAX,
        ensures
            match known_type_spec(rust_type@, texts(self.generic_type_params@)) {
                Some(t) => r matches Some(x) && crate::model::ty_of(x) == t,
                None => r is None,
            },
    {
        let t = rust_type;
        if str_eq(t, "bool") {
            Some(SIRType::Boolean)
        } else if str_eq(t, "i64") || str_eq(t, "i128") || str_eq(t, "BigInt") || str_eq(t, "num_bigint::BigInt")
            || str_eq(t, "rustus_core::num_bigint::BigInt") {
            Some(SIRType::Integer)
        } else if str_eq(t, "Vec<u8>") || str_eq(t, "ByteString") || str_eq(t, "rustus_core::bytestring::ByteString") {
            Some(SIRType::ByteString)
        } else if str_eq(t, "String") {
            Some(SIRType::String)
        } else if str_eq(t, "()") {
            Some(SIRType::Unit)
        } else if str_eq(t, "Data") || str_eq(t, "rustus_core::data::Data") {
            Some(SIRType::Data)
        } else {
            match index_in(&self.generic_type_params, t) {
                Some(i) => {
                    let k: i64 = i as i64;
                    Some(SIRType::TypeVar { name: owned(t), opt_id: Some(k + 1), is_builtin: false })
                },
                None => None,
            }
        }
    }
}

/// Where `t` occurs in `s`, `first_index` finds it.
proof fn lemma_first_index_finds(s: Seq<Seq<char>>, t: Seq<char>)
    ensures
        s.contains(t) ==> first_index(s, t) is Some,
    decreases s.len(),
{
    if s.len() > 0 && s[0] != t {
        lemma_first_index_finds(s.drop_first(), t);
        if s.contains(t) {
            let j = choose|j: int| 0 <= j < s.len() && s[j] == t;
            assert(s.drop_first()[j - 1] == t);
        }
    }
}

// ---------------------------------------------------------------------------
// Paths and attributes
// ---------------------------------------------------------------------------

/// The declaration and the qualified constructor that an enum constructor's
/// path names: the last two segments, or the single one.
pub open spec fn enum_path_spec(segs: Seq<Seq<char>>) -> (Seq<char>, Seq<char>) {
    if segs.len() >= 2 {
        (segs[segs.len() - 2], segs[segs.len() - 2] + "::"@ + segs.last())
    } else if segs.len() == 1 {
        (segs[0], segs[0])
    } else {
        ("unknown"@, "unknown"@)
    }
}

/// Split an enum constructor's path into its declaration's name and the
/// constructor qualified by it.
pub fn extract_enum_path(segments: &Vec<String>) -> (r: (String, String))
    ensures
        (r.0@, r.1@) == enum_path_spec(texts(segments@)),
{
    let n = segments.len();
    if n >= 2 {
        let decl = crate::duplicate::dup_string(&segments[n - 2]);
        let mut full = crate::duplicate::dup_string(&segments[n - 2]);
        push_str(&mut full, "::");
        push_str(&mut full, segments[n - 1].as_str());
        (decl, full)
    } else if n == 1 {
        (crate::duplicate::dup_string(&segments[0]), crate::duplicate::dup_string(&segments[0]))
    } else {
        (owned("unknown"), owned("unknown"))
    }
}

/// The value of the last `key = "value"` argument with the given key.
pub open spec fn attr_value(args: Seq<(String, String)>, key: Seq<char>) -> Option<Seq<char>> {
    assoc_last(args.map_values(|p: (String, String)| (p.0@, p.1@)), key)
}

/// The module and the SIR name that `#[compile(module = "..", name = "..")]`
/// gives, from its `key = "value"` arguments; other keys are ignored and a
/// later argument overrides an earlier one.
pub fn compile_attrs(args: &Vec<(String, String)>) -> (r: (Option<String>, Option<String>))
    ensures
        match attr_value(args@, "module"@) {
            Some(m) => r.0 matches Some(x) && x@ == m,
            None => r.0 is None,
        },
        match attr_value(args@, "name"@) {
            Some(n) => r.1 matches Some(x) && x@ == n,
            None => r.1 is None,
        },
{
    let ghost m = args@.map_values(|p: (String, String)| (p.0@, p.1@));
    let mut module: Option<String> = None;
    let mut name: Option<String> = None;
    let mut i: usize = 0;
    while i < args.len()
        invariant
            i <= args@.len(),
            m == args@.map_values(|p: (String, String)| (p.0@, p.1@)),
            match assoc_last(m.take(i as int), "module"@) {
                Some(v) => module matches Some(x) && x@ == v,
                None => module is None,
            },
            match assoc_last(m.take(i as int), "name"@) {
                Some(v) => name matches Some(x) && x@ == v,
                None => name is None,
            },
        decreases args@.len() - i,
    {
        let ghost t = m.take(i + 1);
        assert(t.subrange(0, t.len() - 1) =~= m.take(i as int));
        assert(t.last() == (args@[i as int].0@, args@[i as int].1@));
        proof {
            reveal_strlit("module");
            reveal_strlit("name");
        }
        let key = args[i].0.as_str();
        assert(key@ == args@[i as int].0@);
        if str_eq(key, "module") {
            module = Some(crate::duplicate::dup_string(&args[i].1));
        } else if str_eq(key, "name") {
            name = Some(crate::duplicate::dup_string(&args[i].1));
        }
        i += 1;
    }
    assert(m.take(i as int) =~= m);
    (module, name)
}

} // verus!

verus! {

/// Decimal text has at least two digits from ten on.
proof fn lemma_decimal_len(n: nat)
    ensures
        nat_decimal(n).len() >= 1,
        n >= 10 ==> nat_decimal(n).len() >= 2,
    decreases n,
{
    if n >= 10 {
        lemma_decimal_len(n / 10);
    }
}

/// Distinct digits are distinct characters.
proof fn lemma_digit_char_injective(a: int, b: int)
    requires
        0 <= a < 10,
        0 <= b < 10,
        crate::text::digit_char(a) == crate::text::digit_char(b),
    ensures
        a == b,
{
    assert(crate::text::digit_char(a) as int == a + 48);
    assert(crate::text::digit_char(b) as int == b + 48);
}

/// Distinct numbers have distinct decimal texts.
proof fn lemma_decimal_injective(a: nat, b: nat)
    requires
        nat_decimal(a) == nat_decimal(b),
    ensures
        a == b,
    decreases a + b,
{
    lemma_decimal_len(a / 10);
    lemma_decimal_len(b / 10);
    if a < 10 && b < 10 {
        assert(nat_decimal(a)[0] == crate::text::digit_char(a as int));
        assert(nat_decimal(b)[0] == crate::text::digit_char(b as int));
        lemma_digit_char_injective(a as int, b as int);
    } else if a < 10 {
        lemma_decimal_len(b);
    } else if b < 10 {
        lemma_decimal_len(a);
    } else {
        let da = nat_decimal(a);
        assert(da.drop_last() == nat_decimal(a / 10));
        assert(nat_decimal(b).drop_last() == nat_decimal(b / 10));
        lemma_decimal_injective(a / 10, b / 10);
        assert(da.last() == crate::text::digit_char((a % 10) as int));
        assert(nat_decimal(b).last() == crate::text::digit_char((b % 10) as int));
        lemma_digit_char_injective((a % 10) as int, (b % 10) as int);
    }
}

} // verus!

verus! {

/// Renaming removes shadowing: each binding of a name gets a name that no
/// other binding of that name got (the first keeps the name, the others
/// carry their count).
pub proof fn law_fresh_names_distinct(k: Seq<char>, c1: nat, c2: nat)
    requires
        c1 != c2,
    ensures
        fresh_name(k, c1) != fresh_name(k, c2),
{
    lemma_decimal_len(c1);
    lemma_decimal_len(c2);
    reveal_strlit("_");
    if c1 > 0 && c2 > 0 && fresh_name(k, c1) == fresh_name(k, c2) {
        let n: int = k.len() as int + 1;
        assert(fresh_name(k, c1).skip(n) =~= nat_decimal(c1));
        assert(fresh_name(k, c2).skip(n) =~= nat_decimal(c2));
        lemma_decimal_injective(c1, c2);
    }
}

/// A name bound in the innermost scope refers to its binding there; other
/// names refer to what they referred to before.
pub proof fn law_bound_name_resolves(
    scopes: Seq<Seq<(Seq<char>, Seq<char>)>>,
    k: Seq<char>,
    v: Seq<char>,
    other: Seq<char>,
)
    requires
        scopes.len() > 0,
    ensures
        resolved(scopes.update(scopes.len() - 1, scopes.last().push((k, v))), k) == v,
        other != k ==> resolved(scopes.update(scopes.len() - 1, scopes.last().push((k, v))), other) == resolved(
            scopes,
            other,
        ),
{
    let s2 = scopes.update(scopes.len() - 1, scopes.last().push((k, v)));
    let l = scopes.last().push((k, v));
    assert(s2.last() == l);
    assert(s2.drop_last() =~= scopes.drop_last());
    assert(l.subrange(0, l.len() - 1) =~= scopes.last());
}

/// Closing a scope forgets its bindings: names refer again to what they
/// referred to before it was opened.
pub proof fn law_closed_scope_forgotten(
    scopes: Seq<Seq<(Seq<char>, Seq<char>)>>,
    inner: Seq<(Seq<char>, Seq<char>)>,
    k: Seq<char>,
)
    ensures
        resolved(scopes.push(inner).drop_last(), k) == resolved(scopes, k),
{
    assert(scopes.push(inner).drop_last() =~= scopes);
}

/// In a new scope nothing is bound yet: names refer to what they referred
/// to outside it.
pub proof fn law_new_scope_is_empty(scopes: Seq<Seq<(Seq<char>, Seq<char>)>>, k: Seq<char>)
    ensures
        resolved(scopes.push(Seq::empty()), k) == resolved(scopes, k),
{
    assert(scopes.push(Seq::empty()).drop_last() =~= scopes);
}

} // verus!
