use vstd::prelude::*;

pub mod arith;
pub mod assoc_map;
pub mod attrs;
pub mod body;
pub mod builtins;
pub mod bytestring;
pub mod compile;
pub mod compile_laws;
pub mod constant;
pub mod data;
pub mod default_fun;
pub mod derive;
pub mod derive_impl;
pub mod duplicate;
pub mod encode;
pub mod front;
pub mod integer;
pub mod layout;
pub mod jvm;
pub mod laws;
pub mod ledger;
pub mod list;
pub mod lower;
pub mod model;
pub mod module;
pub mod option;
pub mod order;
pub mod pair;
pub mod name_map;
pub mod pre_sir;
pub mod registry;
pub mod renumber;
pub mod seqs;
pub mod sir;
pub mod sir_type;
pub mod sir_types;
pub mod sorted_map;
pub mod text;
pub mod typeclasses;
pub mod typing;

verus! {

} // verus!
