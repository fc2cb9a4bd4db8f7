//! Types of SIR, data declarations, and the type environment.
use crate::module::AnnotationsDecl;
use vstd::prelude::*;

verus! {

/// A type variable.
#[derive(Debug, PartialEq)]
pub struct TypeVar {
    pub name: String,
    pub opt_id: Option<i64>,
    pub is_builtin: bool,
}

/// A named, typed field of a constructor.
#[derive(Debug, PartialEq)]
pub struct TypeBinding {
    pub name: String,
    pub tp: SIRType,
}

/// A constructor of a data declaration.
#[derive(Debug, PartialEq)]
pub struct ConstrDecl {
    pub name: String,
    pub params: Vec<TypeBinding>,
    pub type_params: Vec<TypeVar>,
    pub parent_type_args: Vec<SIRType>,
    pub annotations: AnnotationsDecl,
}

/// A data declaration: a named sum of constructors.
#[derive(Debug, PartialEq)]
pub struct DataDecl {
    pub name: String,
    pub constructors: Vec<ConstrDecl>,
    pub type_params: Vec<TypeVar>,
    pub annotations: AnnotationsDecl,
}

/// A SIR type.
#[derive(Debug, PartialEq)]
pub enum SIRType {
    Integer,
    Boolean,
    ByteString,
    String,
    Unit,
    Data,
    /// Function type.
    Fun { from: Box<SIRType>, to: Box<SIRType> },
    /// Sum type: refers to its data declaration by name.
    SumCaseClass { decl_name: String, type_args: Vec<SIRType> },
    /// Single-constructor case class: refers to its constructor and declaration by name.
    CaseClass { constr_name: String, decl_name: String, type_args: Vec<SIRType> },
    /// Type variable.
    TypeVar { name: String, opt_id: Option<i64>, is_builtin: bool },
    /// The type of an expression that never returns (an error).
    TypeNothing,
    /// Placeholder for a type that the typing pass fills in.
    Unresolved,
}

} // verus!

verus! {

broadcast use {vstd::std_specs::vec::group_vec_axioms, vstd::std_specs::hash::group_hash_axioms};

use crate::model::{Ty, ty_of, tys_of, lemma_tys_of};
use crate::duplicate::lemma_tys_push;
use std::collections::HashMap;

/// Substitution of type variables (by id) in a type model.
pub open spec fn subst_ty(t: Ty, m: Map<i64, Ty>) -> Ty
    decreases t,
{
    match t {
        Ty::TypeVar(_, Some(id), _) => if m.contains_key(id) {
            m[id]
        } else {
            t
        },
        Ty::Fun(a, b) => Ty::Fun(Box::new(subst_ty(*a, m)), Box::new(subst_ty(*b, m))),
        Ty::SumCaseClass(d, args) => Ty::SumCaseClass(d, subst_tys(args, m)),
        Ty::CaseClass(c, d, args) => Ty::CaseClass(c, d, subst_tys(args, m)),
        _ => t,
    }
}

/// Substitution in each of a sequence of type models.
pub open spec fn subst_tys(s: Seq<Ty>, m: Map<i64, Ty>) -> Seq<Ty>
    decreases s,
{
    if s.len() == 0 {
        Seq::empty()
    } else {
        subst_tys(s.subrange(0, s.len() - 1), m).push(subst_ty(s[s.len() - 1], m))
    }
}

/// The model of a substitution map.
pub open spec fn subst_map_of(m: Map<i64, SIRType>) -> Map<i64, Ty> {
    m.map_values(|t: SIRType| ty_of(t))
}

/// A type model mentions `Unresolved` somewhere.
pub open spec fn unresolved(t: Ty) -> bool
    decreases t,
{
    match t {
        Ty::Unresolved => true,
        Ty::Fun(a, b) => unresolved(*a) || unresolved(*b),
        Ty::SumCaseClass(_, args) => unresolved_any(args),
        Ty::CaseClass(_, _, args) => unresolved_any(args),
        _ => false,
    }
}

/// Some type of the sequence mentions `Unresolved`.
pub open spec fn unresolved_any(s: Seq<Ty>) -> bool
    decreases s,
{
    if s.len() == 0 {
        false
    } else {
        unresolved_any(s.subrange(0, s.len() - 1)) || unresolved(s[s.len() - 1])
    }
}

pub proof fn lemma_subst_tys(s: Seq<Ty>, m: Map<i64, Ty>)
    ensures
        subst_tys(s, m).len() == s.len(),
        forall|i: int| 0 <= i < s.len() ==> #[trigger] subst_tys(s, m)[i] == subst_ty(s[i], m),
    decreases s.len(),
{
    if s.len() > 0 {
        lemma_subst_tys(s.subrange(0, s.len() - 1), m);
        assert forall|i: int| 0 <= i < s.len() implies #[trigger] subst_tys(s, m)[i] == subst_ty(s[i], m) by {
            if i < s.len() - 1 {
                assert(s.subrange(0, s.len() - 1)[i] == s[i]);
            }
        }
    }
}

pub proof fn lemma_unresolved_any(s: Seq<Ty>)
    ensures
        unresolved_any(s) <==> exists|i: int| 0 <= i < s.len() && unresolved(#[trigger] s[i]),
    decreases s.len(),
{
    if s.len() > 0 {
        let p = s.subrange(0, s.len() - 1);
        lemma_unresolved_any(p);
        if unresolved_any(s) {
            if unresolved_any(p) {
                let i = choose|i: int| 0 <= i < p.len() && unresolved(#[trigger] p[i]);
                assert(s[i] == p[i]);
            } else {
                assert(unresolved(s[s.len() - 1]));
            }
        }
        if exists|i: int| 0 <= i < s.len() && unresolved(#[trigger] s[i]) {
            let i = choose|i: int| 0 <= i < s.len() && unresolved(#[trigger] s[i]);
            if i < s.len() - 1 {
                assert(p[i] == s[i]);
            }
        }
    }
}

/// Substituting with the empty map changes nothing.
pub proof fn lemma_subst_empty(t: Ty)
    ensures
        subst_ty(t, Map::empty()) == t,
    decreases t,
{
    match t {
        Ty::Fun(a, b) => {
            lemma_subst_empty(*a);
            lemma_subst_empty(*b);
        },
        Ty::SumCaseClass(d, args) => {
            lemma_subst_tys_empty(args);
        },
        Ty::CaseClass(c, d, args) => {
            lemma_subst_tys_empty(args);
        },
        _ => {},
    }
}

pub proof fn lemma_subst_tys_empty(s: Seq<Ty>)
    ensures
        subst_tys(s, Map::empty()) == s,
    decreases s,
{
    if s.len() > 0 {
        lemma_subst_tys_empty(s.subrange(0, s.len() - 1));
        lemma_subst_empty(s[s.len() - 1]);
        assert(s.subrange(0, s.len() - 1).push(s[s.len() - 1]) == s);
    }
}

/// Substituting types that are free of `Unresolved` into a type that is free
/// of `Unresolved` gives a type that is free of `Unresolved`.
pub proof fn lemma_subst_resolved(t: Ty, m: Map<i64, Ty>)
    requires
        !unresolved(t),
        forall|k: i64| m.contains_key(k) ==> !unresolved(#[trigger] m[k]),
    ensures
        !unresolved(subst_ty(t, m)),
    decreases t,
{
    match t {
        Ty::Fun(a, b) => {
            lemma_subst_resolved(*a, m);
            lemma_subst_resolved(*b, m);
        },
        Ty::SumCaseClass(d, args) => {
            lemma_subst_tys_resolved(args, m);
        },
        Ty::CaseClass(c, d, args) => {
            lemma_subst_tys_resolved(args, m);
        },
        _ => {},
    }
}

pub proof fn lemma_subst_tys_resolved(s: Seq<Ty>, m: Map<i64, Ty>)
    requires
        !unresolved_any(s),
        forall|k: i64| m.contains_key(k) ==> !unresolved(#[trigger] m[k]),
    ensures
        !unresolved_any(subst_tys(s, m)),
    decreases s,
{
    if s.len() > 0 {
        let p = s.subrange(0, s.len() - 1);
        lemma_subst_tys_resolved(p, m);
        lemma_subst_resolved(s[s.len() - 1], m);
        lemma_subst_tys(p, m);
        let r = subst_tys(s, m);
        assert(r.subrange(0, r.len() - 1) == subst_tys(p, m));
        assert(r[r.len() - 1] == subst_ty(s[s.len() - 1], m));
    }
}

impl SIRType {
    /// Substitute type variables using a map from opt_id to concrete type.
    pub fn substitute(&self, subst: &HashMap<i64, SIRType>) -> (r: SIRType)
        ensures
            ty_of(r) == subst_ty(ty_of(*self), subst_map_of(subst@)),
        decreases self,
    {
        if subst.is_empty() {
            proof {
                assert(subst_map_of(subst@) =~= Map::empty());
                lemma_subst_empty(ty_of(*self));
            }
            return self.duplicate();
        }
        match self {
            SIRType::TypeVar { opt_id: Some(id), .. } => {
                match subst.get(id) {
                    Some(t) => t.duplicate(),
                    None => self.duplicate(),
                }
            },
            SIRType::Fun { from, to } => SIRType::Fun {
                from: Box::new(from.substitute(subst)),
                to: Box::new(to.substitute(subst)),
            },
            SIRType::SumCaseClass { decl_name, type_args } => {
                let args = substitute_all(type_args, subst, self);
                SIRType::SumCaseClass { decl_name: crate::duplicate::dup_string(decl_name), type_args: args }
            },
            SIRType::CaseClass { constr_name, decl_name, type_args } => {
                let args = substitute_all(type_args, subst, self);
                SIRType::CaseClass {
                    constr_name: crate::duplicate::dup_string(constr_name),
                    decl_name: crate::duplicate::dup_string(decl_name),
                    type_args: args,
                }
            },
            _ => self.duplicate(),
        }
    }

    /// Check if this type or any nested type contains Unresolved.
    pub fn has_unresolved(&self) -> (r: bool)
        ensures
            r == unresolved(ty_of(*self)),
        decreases self,
    {
        match self {
            SIRType::Unresolved => true,
            SIRType::Fun { from, to } => from.has_unresolved() || to.has_unresolved(),
            SIRType::SumCaseClass { type_args, .. } => any_unresolved(type_args, self),
            SIRType::CaseClass { type_args, .. } => any_unresolved(type_args, self),
            _ => false,
        }
    }
}

/// Substitution in each type argument of `parent`.
fn substitute_all(v: &Vec<SIRType>, subst: &HashMap<i64, SIRType>, parent: &SIRType) -> (r: Vec<SIRType>)
    requires
        forall|i: int| 0 <= i < v@.len() ==> decreases_to!(*parent => #[trigger] v@[i]),
    ensures
        tys_of(r@) == subst_tys(tys_of(v@), subst_map_of(subst@)),
    decreases parent, 0nat,
{
    let ghost m = subst_map_of(subst@);
    let mut r: Vec<SIRType> = Vec::new();
    let mut i: usize = 0;
    proof {
        lemma_tys_of(v@);
        lemma_subst_tys(tys_of(v@), m);
    }
    while i < v.len()
        invariant
            0 <= i <= v@.len(),
            m == subst_map_of(subst@),
            tys_of(r@).len() == i,
            forall|j: int| 0 <= j < i ==> #[trigger] tys_of(r@)[j] == subst_ty(ty_of(v@[j]), m),
            forall|i: int| 0 <= i < v@.len() ==> decreases_to!(*parent => #[trigger] v@[i]),
        decreases v@.len() - i,
    {
        let x = v[i].substitute(subst);
        proof {
            lemma_tys_push(r@, x);
        }
        r.push(x);
        i += 1;
    }
    assert(tys_of(r@) =~= subst_tys(tys_of(v@), m));
    r
}

/// Some type argument of `parent` mentions `Unresolved`.
fn any_unresolved(v: &Vec<SIRType>, parent: &SIRType) -> (r: bool)
    requires
        forall|i: int| 0 <= i < v@.len() ==> decreases_to!(*parent => #[trigger] v@[i]),
    ensures
        r == unresolved_any(tys_of(v@)),
    decreases parent, 0nat,
{
    proof {
        lemma_tys_of(v@);
        lemma_unresolved_any(tys_of(v@));
    }
    let mut i: usize = 0;
    while i < v.len()
        invariant
            0 <= i <= v@.len(),
            forall|j: int| 0 <= j < i ==> !unresolved(#[trigger] ty_of(v@[j])),
            forall|i: int| 0 <= i < v@.len() ==> decreases_to!(*parent => #[trigger] v@[i]),
            tys_of(v@).len() == v@.len(),
            forall|j: int| 0 <= j < v@.len() ==> #[trigger] tys_of(v@)[j] == ty_of(v@[j]),
            unresolved_any(tys_of(v@)) <==> exists|j: int|
                0 <= j < tys_of(v@).len() && unresolved(#[trigger] tys_of(v@)[j]),
        decreases v@.len() - i,
    {
        if v[i].has_unresolved() {
            assert(unresolved(tys_of(v@)[i as int]));
            return true;
        }
        i += 1;
    }
    assert forall|j: int| 0 <= j < tys_of(v@).len() implies !unresolved(#[trigger] tys_of(v@)[j]) by {
        assert(tys_of(v@)[j] == ty_of(v@[j]));
    }
    false
}

} // verus!

verus! {

/// Look a name up in a sequence of bindings: the last binding of the name wins.
pub open spec fn env_lookup(b: Seq<(Seq<char>, Ty)>, k: Seq<char>) -> Option<Ty>
    decreases b.len(),
{
    if b.len() == 0 {
        None
    } else if b[b.len() - 1].0 == k {
        Some(b[b.len() - 1].1)
    } else {
        env_lookup(b.subrange(0, b.len() - 1), k)
    }
}

/// A scoped type environment: variable name to type, with nested scopes.
#[derive(Debug, PartialEq)]
pub struct TypeEnv {
    bindings: Vec<(String, SIRType)>,
    marks: Vec<usize>,
}

impl TypeEnv {
    /// The bindings, oldest first.
    pub closed spec fn binds(&self) -> Seq<(Seq<char>, Ty)> {
        self.bindings@.map_values(|b: (String, SIRType)| (b.0@, ty_of(b.1)))
    }

    /// The number of bindings in scope when each open scope began.
    pub closed spec fn marks(&self) -> Seq<nat> {
        self.marks@.map_values(|m: usize| m as nat)
    }

    /// Each scope began at or before the next, and within the bindings.
    pub closed spec fn wf(&self) -> bool {
        &&& forall|i: int| 0 <= i < self.marks@.len() ==> #[trigger] self.marks@[i] <= self.bindings@.len()
        &&& forall|i: int, j: int| 0 <= i < j < self.marks@.len() ==> self.marks@[i] <= self.marks@[j]
    }

    /// The type of a name in this environment.
    pub open spec fn lookup_spec(&self, k: Seq<char>) -> Option<Ty> {
        env_lookup(self.binds(), k)
    }

    /// An empty environment.
    pub fn new() -> (r: TypeEnv)
        ensures
            r.wf(),
            r.binds().len() == 0,
            r.marks().len() == 0,
    {
        TypeEnv { bindings: Vec::new(), marks: Vec::new() }
    }

    /// Opens a scope.
    pub fn push_scope(&mut self)
        requires
            old(self).wf(),
        ensures
            final(self).wf(),
            final(self).binds() == old(self).binds(),
            final(self).marks() == old(self).marks().push(old(self).binds().len()),
    {
        let n = self.bindings.len();
        self.marks.push(n);
        assert(self.marks() =~= old(self).marks().push(old(self).binds().len()));
    }

    /// Closes the innermost scope, dropping the bindings made in it (all
    /// bindings, where no scope is open).
    pub fn pop_scope(&mut self)
        requires
            old(self).wf(),
        ensures
            final(self).wf(),
            old(self).marks().len() > 0 ==> final(self).binds() == old(self).binds().take(
                old(self).marks().last() as int,
            ) && final(self).marks() == old(self).marks().drop_last(),
            old(self).marks().len() == 0 ==> final(self).binds().len() == 0 && final(self).marks().len()
                == 0,
    {
        match self.marks.pop() {
            Some(m) => {
                self.bindings.truncate(m);
                assert(self.marks() =~= old(self).marks().drop_last());
                assert(self.bindings@.map_values(|b: (String, SIRType)| (b.0@, ty_of(b.1))) =~= old(
                    self,
                ).binds().take(m as int));
            },
            None => {
                self.bindings.truncate(0);
            },
        }
    }

    /// Binds a name in the innermost scope.
    pub fn insert(&mut self, name: String, tp: SIRType)
        requires
            old(self).wf(),
        ensures
            final(self).wf(),
            final(self).binds() == old(self).binds().push((name@, ty_of(tp))),
            final(self).marks() == old(self).marks(),
    {
        self.bindings.push((name, tp));
        assert(self.binds() =~= old(self).binds().push((name@, ty_of(tp))));
    }

    /// The type of a name, from its innermost binding.
    pub fn lookup(&self, name: &str) -> (r: Option<&SIRType>)
        ensures
            r is None <==> self.lookup_spec(name@) is None,
            r matches Some(t) ==> self.lookup_spec(name@) == Some(ty_of(*t)),
    {
        let mut i: usize = self.bindings.len();
        let ghost b = self.binds();
        assert(b.take(i as int) == b);
        while i > 0
            invariant
                0 <= i <= self.bindings@.len(),
                b == self.binds(),
                env_lookup(b, name@) == env_lookup(b.take(i as int), name@),
            decreases i,
        {
            let ghost t = b.take(i as int);
            assert(t.subrange(0, t.len() - 1) == b.take(i - 1));
            assert(t[t.len() - 1] == (self.bindings@[i - 1].0@, ty_of(self.bindings@[i - 1].1)));
            if crate::text::str_eq(self.bindings[i - 1].0.as_str(), name) {
                return Some(&self.bindings[i - 1].1);
            }
            i -= 1;
        }
        None
    }
}

/// Rust types that have a SIR type.
pub trait HasSIRType {
    /// The model of the SIR type.
    spec fn sir_type_spec() -> Ty;

    /// The SIR type of this Rust type.
    fn sir_type() -> (r: SIRType)
        ensures
            ty_of(r) == Self::sir_type_spec(),
    ;

    /// The data declaration of this type, where it is a user-defined data type.
    fn sir_data_decl() -> (r: Option<DataDecl>)
        default_ensures
            r is None,
    {
        None
    }
}

impl HasSIRType for bool {
    open spec fn sir_type_spec() -> Ty {
        Ty::Boolean
    }

    fn sir_type() -> (r: SIRType) {
        SIRType::Boolean
    }
}

impl HasSIRType for i64 {
    open spec fn sir_type_spec() -> Ty {
        Ty::Integer
    }

    fn sir_type() -> (r: SIRType) {
        SIRType::Integer
    }
}

impl HasSIRType for Vec<u8> {
    open spec fn sir_type_spec() -> Ty {
        Ty::ByteString
    }

    fn sir_type() -> (r: SIRType) {
        SIRType::ByteString
    }
}

impl HasSIRType for String {
    open spec fn sir_type_spec() -> Ty {
        Ty::String
    }

    fn sir_type() -> (r: SIRType) {
        SIRType::String
    }
}

impl HasSIRType for () {
    open spec fn sir_type_spec() -> Ty {
        Ty::Unit
    }

    fn sir_type() -> (r: SIRType) {
        SIRType::Unit
    }
}

impl HasSIRType for crate::integer::Integer {
    open spec fn sir_type_spec() -> Ty {
        Ty::Integer
    }

    fn sir_type() -> (r: SIRType) {
        SIRType::Integer
    }
}

impl HasSIRType for crate::data::Data {
    open spec fn sir_type_spec() -> Ty {
        Ty::Data
    }

    fn sir_type() -> (r: SIRType) {
        SIRType::Data
    }
}

/// The letter that names type parameter `id` (1 is `A`, 2 is `B`, ...,
/// wrapping around the byte range).
pub open spec fn type_param_letter(id: u64) -> char {
    ((65 + ((id + 255) % 256) as int) % 256) as u8 as char
}

/// The SIR type variable of type parameter `id`.
pub open spec fn type_param_ty(id: u64) -> Ty {
    Ty::TypeVar(seq![type_param_letter(id)], Some(#[verifier::truncate] (id as i64)), false)
}

/// Marker for the `ID`-th (1-based) type parameter of a generic data declaration.
pub struct TypeParam<const ID: u64>;

impl<const ID: u64> HasSIRType for TypeParam<ID> {
    open spec fn sir_type_spec() -> Ty {
        type_param_ty(ID)
    }

    fn sir_type() -> (r: SIRType) {
        let low: u8 = (ID % 256) as u8;
        let off: u8 = low.wrapping_add(255);
        let b: u8 = (65u8).wrapping_add(off);
        assert(off as int == (ID + 255) % 256);
        assert(b as int == (65 + ((ID + 255) % 256) as int) % 256);
        let c: char = b as char;
        let name = crate::text::string_of(&[c]);
        assert(name@ == seq![type_param_letter(ID)]);
        SIRType::TypeVar { name, opt_id: Some(#[verifier::truncate] (ID as i64)), is_builtin: false }
    }
}

} // verus!
