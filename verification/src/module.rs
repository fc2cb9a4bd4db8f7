//! Source positions, annotations, bindings and modules.
use crate::constant::UplcConstant;
use crate::name_map::NameMap;
use crate::sir::SIR;
use crate::sir_type::{DataDecl, SIRType};
use vstd::prelude::*;

verus! {

broadcast use crate::model::group_model_seqs;

/// A span in a source file.
#[derive(Debug, PartialEq)]
pub struct SourcePos {
    pub file: String,
    pub start_line: i32,
    pub start_column: i32,
    pub end_line: i32,
    pub end_column: i32,
}

/// Annotations of a SIR node or declaration. The data entries are held in
/// increasing key order, each key once.
#[derive(Debug, PartialEq)]
pub struct AnnotationsDecl {
    pub pos: SourcePos,
    pub comment: Option<String>,
    pub data: Vec<(String, SIR)>,
}

/// A top-level definition of a module.
#[derive(Debug, PartialEq)]
pub struct Binding {
    pub name: String,
    pub module_name: Option<String>,
    pub tp: SIRType,
    pub value: SIR,
    pub redirect_to_scalus: bool,
}

/// Options for the Scalus backend.
#[derive(Debug, Clone, Copy, PartialEq, Eq, Structural)]
pub struct CompilerOptions {
    /// Target Cardano protocol version. 9=changPV, 11=vanRossemPV (pv11).
    pub target_protocol_version: i32,
    /// Include error trace messages in compiled UPLC.
    pub generate_error_traces: bool,
    /// Strip all trace calls from compiled UPLC.
    pub remove_traces: bool,
    /// Run UPLC optimizer.
    pub optimize_uplc: bool,
}

/// A compilation unit handed to the backend.
#[derive(Debug, PartialEq)]
pub struct Module {
    pub version: (i32, i32),
    pub name: String,
    pub linked: bool,
    pub require_backend: Option<String>,
    pub data_decls: NameMap<DataDecl>,
    pub defs: Vec<Binding>,
    pub anns: AnnotationsDecl,
    pub options: CompilerOptions,
}

} // verus!

verus! {

use crate::name_map::keys_sorted;
use crate::model::{AnnM, ConstM, PosM, SirM, Ty, ann_data_of, ann_of, pos_of, sir_of};

/// The SIR format version that modules are written in.
pub const SIR_VERSION: (i32, i32) = (5, 0);

/// The model of the empty source position.
pub open spec fn empty_pos() -> PosM {
    PosM { file: Seq::empty(), start_line: 0, start_column: 0, end_line: 0, end_column: 0 }
}

/// The model of empty annotations.
pub open spec fn empty_anns() -> AnnM {
    AnnM { pos: empty_pos(), comment: None, data: Seq::empty() }
}

/// The model of annotations that carry one flag, `key = true`.
pub open spec fn flag_anns(key: Seq<char>) -> AnnM {
    AnnM {
        pos: empty_pos(),
        comment: None,
        data: seq![(key, SirM::Const(ConstM::Bool(true), Ty::Boolean, empty_anns()))],
    }
}

impl SourcePos {
    /// The empty position.
    pub fn empty() -> (r: SourcePos)
        ensures
            pos_of(r) == empty_pos(),
    {
        SourcePos { file: String::new(), start_line: 0, start_column: 0, end_line: 0, end_column: 0 }
    }
}

impl AnnotationsDecl {
    /// The data entries are in increasing key order, each key once.
    pub open spec fn wf(&self) -> bool {
        keys_sorted(self.data@)
    }

    /// No annotations.
    pub fn empty() -> (r: AnnotationsDecl)
        ensures
            ann_of(r) == empty_anns(),
            r.wf(),
    {
        let data: Vec<(String, SIR)> = Vec::new();
        let r = AnnotationsDecl { pos: SourcePos::empty(), comment: None, data };
        assert(ann_of(r).data =~= Seq::empty());
        r
    }

    /// Annotations that carry one entry.
    pub fn with_entry(key: &str, value: SIR) -> (r: AnnotationsDecl)
        ensures
            ann_of(r) == (AnnM { pos: empty_pos(), comment: None, data: seq![(key@, sir_of(value))] }),
            r.wf(),
    {
        let ghost v = sir_of(value);
        let mut data: Vec<(String, SIR)> = Vec::new();
        data.push((crate::text::owned(key), value));
        let r = AnnotationsDecl { pos: SourcePos::empty(), comment: None, data };
        proof {
            let e = r.data@;
            assert(e.subrange(0, 0) =~= Seq::<(String, SIR)>::empty());
            assert(ann_data_of(e) == ann_data_of(e.subrange(0, 0)).push((e[0].0@, sir_of(e[0].1))));
        }
        assert(ann_of(r).data =~= seq![(key@, v)]);
        r
    }

    fn flag(key: &str) -> (r: AnnotationsDecl)
        ensures
            ann_of(r) == flag_anns(key@),
            r.wf(),
    {
        let v = SIR::Const {
            uplc_const: UplcConstant::Bool { value: true },
            tp: SIRType::Boolean,
            anns: AnnotationsDecl::empty(),
        };
        assert(sir_of(v) == SirM::Const(ConstM::Bool(true), Ty::Boolean, empty_anns()));
        AnnotationsDecl::with_entry(key, v)
    }

    /// Annotations that mark a conversion from Data (`fromData = true`).
    pub fn with_from_data() -> (r: AnnotationsDecl)
        ensures
            ann_of(r) == flag_anns("fromData"@),
            r.wf(),
    {
        AnnotationsDecl::flag("fromData")
    }

    /// Annotations that mark a conversion to Data (`toData = true`).
    pub fn with_to_data() -> (r: AnnotationsDecl)
        ensures
            ann_of(r) == flag_anns("toData"@),
            r.wf(),
    {
        AnnotationsDecl::flag("toData")
    }
}

impl Default for CompilerOptions {
    fn default() -> (r: CompilerOptions)
        ensures
            r == (CompilerOptions {
                target_protocol_version: 11,
                generate_error_traces: true,
                remove_traces: false,
                optimize_uplc: false,
            }),
    {
        CompilerOptions {
            target_protocol_version: 11,
            generate_error_traces: true,
            remove_traces: false,
            optimize_uplc: false,
        }
    }
}

} // verus!
