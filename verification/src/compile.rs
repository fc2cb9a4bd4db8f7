//! The `#[compile]` front end: a Rust function body, as the front end reads
//! it from the syntax tree, translated to pre-SIR. Variables are renamed so
//! that none shadows another, the types of annotated variables are recorded
//! for the type dictionary, and each term carries its source position.
use crate::front::{
    CompileCtx, CtxM, RustType, ctx_of, enum_path_spec, fresh_m, pop_m, push_m, reg_type_m, reg_var_m, resolved,
    texts, type_hint_spec,
};
use crate::model::{AnnM, ConstM, PosM};
use crate::module::empty_anns;
use crate::name_map::assoc_last;
use crate::pre_sir::{ArmM, BinOp, HintM, PreM, PrePatM};
use vstd::prelude::*;

verus! {

broadcast use crate::model::group_model_seqs;

/// A source position: the 0-based line and the column where a term starts.
#[derive(Debug, Clone, Copy, PartialEq, Eq, Structural)]
pub struct Pos {
    pub line: i32,
    pub column: i32,
}

/// A literal.
#[derive(Debug, PartialEq)]
pub enum RustLit {
    Bool(bool),
    /// An integer literal, with the value it parses to as an `i64` (0 where
    /// it does not parse).
    Int(i64),
    Str(String),
    Other,
}

/// A binary operator.
#[derive(Debug, Clone, Copy, PartialEq, Eq, Structural)]
pub enum RustBinOp {
    Add,
    AddAssign,
    Sub,
    SubAssign,
    Mul,
    MulAssign,
    Eq,
    Lt,
    Le,
    Other,
}

/// What a Rust operator computes on integers, where it gives an integer (for
/// a compound assignment, the value assigned).
pub open spec fn rust_arith_meaning(op: RustBinOp, x: int, y: int) -> std::option::Option<int> {
    match op {
        RustBinOp::Add | RustBinOp::AddAssign => std::option::Option::Some(x + y),
        RustBinOp::Sub | RustBinOp::SubAssign => std::option::Option::Some(x - y),
        RustBinOp::Mul | RustBinOp::MulAssign => std::option::Option::Some(x * y),
        _ => std::option::Option::None,
    }
}

/// What a Rust operator answers on integers, where it is a comparison.
pub open spec fn rust_test_meaning(op: RustBinOp, x: int, y: int) -> std::option::Option<bool> {
    match op {
        RustBinOp::Eq => std::option::Option::Some(x == y),
        RustBinOp::Lt => std::option::Option::Some(x < y),
        RustBinOp::Le => std::option::Option::Some(x <= y),
        _ => std::option::Option::None,
    }
}

/// A field of a struct pattern or of a field access.
#[derive(Debug, PartialEq)]
pub enum Member {
    Named(String),
    Unnamed(u32),
}

/// A pattern.
#[derive(Debug, PartialEq)]
pub enum RustPat {
    Wild,
    Ident(String),
    /// A path, such as a unit variant, by its segments.
    Path(Vec<String>),
    /// A tuple variant with its element patterns.
    TupleStruct(Vec<String>, Vec<RustPat>),
    /// A struct variant with the fields it names.
    Struct(Vec<String>, Vec<Member>),
    /// A pattern with a type annotation.
    Typed(Box<RustPat>, RustType),
    Other,
}

/// A macro call in an expression or a statement.
#[derive(Debug, PartialEq)]
pub enum RustMacro {
    /// `require!(cond, "message")`, with the message text after the comma,
    /// trimmed, where there is one.
    Require { cond: Box<RustExpr>, message: Option<String> },
    /// Any other macro, by its name and its argument tokens as text.
    Other { name: String, tokens: String },
}

/// An arm of a match.
#[derive(Debug, PartialEq)]
pub struct RustArm {
    pub pat: RustPat,
    pub body: RustExpr,
    pub pos: Pos,
}

/// An expression.
#[derive(Debug, PartialEq)]
pub enum RustExpr {
    Lit(RustLit),
    Path(Vec<String>, Pos),
    Binary(RustBinOp, Box<RustExpr>, Box<RustExpr>, Pos),
    /// A call, with the text of the called expression.
    Call(Box<RustExpr>, Vec<RustExpr>, String, Pos),
    MethodCall(Box<RustExpr>, String, Vec<RustExpr>, Pos),
    If(Box<RustExpr>, Vec<RustStmt>, std::option::Option<Box<RustExpr>>),
    Match(Box<RustExpr>, Vec<RustArm>, Pos),
    Field(Box<RustExpr>, Member, Pos),
    /// `()`.
    Unit,
    Deref(Box<RustExpr>),
    Neg(Box<RustExpr>, Pos),
    /// Another unary operator.
    UnaryOther,
    Paren(Box<RustExpr>),
    Reference(Box<RustExpr>),
    Macro(RustMacro),
    Block(Vec<RustStmt>),
    Other,
}

/// A statement.
#[derive(Debug, PartialEq)]
pub enum RustStmt {
    Local(RustPat, std::option::Option<RustExpr>),
    Expr(RustExpr),
    Macro(RustMacro),
    Other,
}

// ---------------------------------------------------------------------------
// Models
// ---------------------------------------------------------------------------

/// Model of a literal.
pub enum LitM {
    Bool(bool),
    Int(i64),
    Str(Seq<char>),
    Other,
}

/// Model of a pattern: what the translation reads of it.
pub enum PatM {
    Wild,
    Ident(Seq<char>),
    Path(Seq<Seq<char>>),
    /// The elements that are plain identifiers, by name.
    TupleStruct(Seq<Seq<char>>, Seq<std::option::Option<Seq<char>>>),
    /// The fields that are named, by name.
    Struct(Seq<Seq<char>>, Seq<std::option::Option<Seq<char>>>),
    /// The name where the annotated pattern is an identifier, and the type.
    Typed(std::option::Option<Seq<char>>, RustType),
    Other,
}

/// Model of a member.
pub enum MemberM {
    Named(Seq<char>),
    Unnamed(u32),
}

/// Model of an expression.
pub enum ExprM {
    Lit(LitM),
    Path(Seq<Seq<char>>, Pos),
    Binary(RustBinOp, Box<ExprM>, Box<ExprM>, Pos),
    Call(Box<ExprM>, Seq<ExprM>, Seq<char>, Pos),
    MethodCall(Box<ExprM>, Seq<char>, Seq<ExprM>, Pos),
    If(Box<ExprM>, Seq<StmtM>, std::option::Option<Box<ExprM>>),
    Match(Box<ExprM>, Seq<(PatM, ExprM, Pos)>, Pos),
    Field(Box<ExprM>, MemberM, Pos),
    Unit,
    Deref(Box<ExprM>),
    Neg(Box<ExprM>, Pos),
    UnaryOther,
    Paren(Box<ExprM>),
    Reference(Box<ExprM>),
    Require(Box<ExprM>, std::option::Option<Seq<char>>),
    MacroOther(Seq<char>, Seq<char>),
    Block(Seq<StmtM>),
    Other,
}

/// Model of a statement.
pub enum StmtM {
    Local(PatM, std::option::Option<ExprM>),
    Expr(ExprM),
    Macro(ExprM),
    Other,
}

/// The model of a literal.
pub open spec fn lit_of(l: RustLit) -> LitM {
    match l {
        RustLit::Bool(b) => LitM::Bool(b),
        RustLit::Int(v) => LitM::Int(v),
        RustLit::Str(s) => LitM::Str(s@),
        RustLit::Other => LitM::Other,
    }
}

/// The name of a pattern that is an identifier.
pub open spec fn ident_name(p: RustPat) -> std::option::Option<Seq<char>> {
    match p {
        RustPat::Ident(n) => std::option::Option::Some(n@),
        _ => std::option::Option::None,
    }
}

/// The name of a named member.
pub open spec fn member_name(m: Member) -> std::option::Option<Seq<char>> {
    match m {
        Member::Named(n) => std::option::Option::Some(n@),
        Member::Unnamed(_) => std::option::Option::None,
    }
}

/// The model of a pattern.
pub open spec fn pat_of(p: RustPat) -> PatM {
    match p {
        RustPat::Wild => PatM::Wild,
        RustPat::Ident(n) => PatM::Ident(n@),
        RustPat::Path(segs) => PatM::Path(texts(segs@)),
        RustPat::TupleStruct(segs, elems) => PatM::TupleStruct(
            texts(segs@),
            elems@.map_values(|e: RustPat| ident_name(e)),
        ),
        RustPat::Struct(segs, members) => PatM::Struct(
            texts(segs@),
            members@.map_values(|m: Member| member_name(m)),
        ),
        RustPat::Typed(inner, ty) => PatM::Typed(ident_name(*inner), ty),
        RustPat::Other => PatM::Other,
    }
}

/// The model of a member.
pub open spec fn member_of(m: Member) -> MemberM {
    match m {
        Member::Named(n) => MemberM::Named(n@),
        Member::Unnamed(i) => MemberM::Unnamed(i),
    }
}

/// The model of an expression.
pub open spec fn expr_of(e: RustExpr) -> ExprM
    decreases e,
{
    match e {
        RustExpr::Lit(l) => ExprM::Lit(lit_of(l)),
        RustExpr::Path(segs, p) => ExprM::Path(texts(segs@), p),
        RustExpr::Binary(op, l, r, p) => ExprM::Binary(op, Box::new(expr_of(*l)), Box::new(expr_of(*r)), p),
        RustExpr::Call(f, args, text, p) => ExprM::Call(Box::new(expr_of(*f)), exprs_of(args@), text@, p),
        RustExpr::MethodCall(r, m, args, p) => ExprM::MethodCall(Box::new(expr_of(*r)), m@, exprs_of(args@), p),
        RustExpr::If(c, t, e) => ExprM::If(
            Box::new(expr_of(*c)),
            stmts_of(t@),
            match e {
                std::option::Option::Some(x) => std::option::Option::Some(Box::new(expr_of(*x))),
                std::option::Option::None => std::option::Option::None,
            },
        ),
        RustExpr::Match(s, arms, p) => ExprM::Match(Box::new(expr_of(*s)), rust_arms_of(arms@), p),
        RustExpr::Field(b, m, p) => ExprM::Field(Box::new(expr_of(*b)), member_of(m), p),
        RustExpr::Unit => ExprM::Unit,
        RustExpr::Deref(x) => ExprM::Deref(Box::new(expr_of(*x))),
        RustExpr::Neg(x, p) => ExprM::Neg(Box::new(expr_of(*x)), p),
        RustExpr::UnaryOther => ExprM::UnaryOther,
        RustExpr::Paren(x) => ExprM::Paren(Box::new(expr_of(*x))),
        RustExpr::Reference(x) => ExprM::Reference(Box::new(expr_of(*x))),
        RustExpr::Macro(m) => macro_of(m),
        RustExpr::Block(s) => ExprM::Block(stmts_of(s@)),
        RustExpr::Other => ExprM::Other,
    }
}

/// The model of a macro call.
pub open spec fn macro_of(m: RustMacro) -> ExprM
    decreases m,
{
    match m {
        RustMacro::Require { cond, message } => ExprM::Require(
            Box::new(expr_of(*cond)),
            match message {
                std::option::Option::Some(s) => std::option::Option::Some(s@),
                std::option::Option::None => std::option::Option::None,
            },
        ),
        RustMacro::Other { name, tokens } => ExprM::MacroOther(name@, tokens@),
    }
}

/// The models of expressions.
pub open spec fn exprs_of(s: Seq<RustExpr>) -> Seq<ExprM>
    decreases s,
{
    if s.len() == 0 {
        Seq::empty()
    } else {
        exprs_of(s.subrange(0, s.len() - 1)).push(expr_of(s[s.len() - 1]))
    }
}

/// The model of a statement.
pub open spec fn stmt_of(s: RustStmt) -> StmtM
    decreases s,
{
    match s {
        RustStmt::Local(p, init) => StmtM::Local(
            pat_of(p),
            match init {
                std::option::Option::Some(e) => std::option::Option::Some(expr_of(e)),
                std::option::Option::None => std::option::Option::None,
            },
        ),
        RustStmt::Expr(e) => StmtM::Expr(expr_of(e)),
        RustStmt::Macro(m) => StmtM::Macro(macro_of(m)),
        RustStmt::Other => StmtM::Other,
    }
}

/// The models of statements.
pub open spec fn stmts_of(s: Seq<RustStmt>) -> Seq<StmtM>
    decreases s,
{
    if s.len() == 0 {
        Seq::empty()
    } else {
        stmts_of(s.subrange(0, s.len() - 1)).push(stmt_of(s[s.len() - 1]))
    }
}

/// The models of match arms.
pub open spec fn rust_arms_of(s: Seq<RustArm>) -> Seq<(PatM, ExprM, Pos)>
    decreases s,
{
    if s.len() == 0 {
        Seq::empty()
    } else {
        let a = s[s.len() - 1];
        rust_arms_of(s.subrange(0, s.len() - 1)).push((pat_of(a.pat), expr_of(a.body), a.pos))
    }
}


// ---------------------------------------------------------------------------
// The translation, over the models
// ---------------------------------------------------------------------------

/// Annotations at a position in the function's file.
pub open spec fn anns_at(file: Seq<char>, p: Pos) -> AnnM {
    AnnM {
        pos: PosM { file, start_line: p.line, start_column: p.column, end_line: p.line, end_column: p.column },
        comment: std::option::Option::None,
        data: Seq::empty(),
    }
}

/// The error for what the front end does not translate.
pub open spec fn unsupported(what: Seq<char>) -> Seq<char> {
    "#[compile] unsupported "@ + what
}

/// The unit constant.
pub open spec fn unit_pre() -> PreM {
    PreM::Const(ConstM::Unit, empty_anns())
}

/// Fresh names for the elements that are identifiers, `_` for the others,
/// in order.
pub open spec fn fresh_opts_m(s: Seq<std::option::Option<Seq<char>>>, c: CtxM) -> (Seq<Seq<char>>, CtxM)
    decreases s.len(),
{
    if s.len() == 0 {
        (Seq::empty(), c)
    } else {
        let (xs, c1) = fresh_opts_m(s.subrange(0, s.len() - 1), c);
        match s.last() {
            std::option::Option::Some(n) => {
                let (x, c2) = fresh_m(c1, n);
                (xs.push(x), c2)
            },
            std::option::Option::None => (xs.push("_"@), c1),
        }
    }
}

/// Fresh names for the named fields, in order; unnamed ones bind nothing.
pub open spec fn fresh_named_m(s: Seq<std::option::Option<Seq<char>>>, c: CtxM) -> (Seq<Seq<char>>, CtxM)
    decreases s.len(),
{
    if s.len() == 0 {
        (Seq::empty(), c)
    } else {
        let (xs, c1) = fresh_named_m(s.subrange(0, s.len() - 1), c);
        match s.last() {
            std::option::Option::Some(n) => {
                let (x, c2) = fresh_m(c1, n);
                (xs.push(x), c2)
            },
            std::option::Option::None => (xs, c1),
        }
    }
}

/// The translation of a pattern of a match arm.
pub open spec fn compile_pat_m(p: PatM, c: CtxM) -> (PrePatM, CtxM) {
    match p {
        PatM::Path(segs) => {
            let (d, k) = enum_path_spec(segs);
            (PrePatM::Constr(d, k, Seq::empty()), c)
        },
        PatM::TupleStruct(segs, elems) => {
            let (d, k) = enum_path_spec(segs);
            let (bs, c1) = fresh_opts_m(elems, c);
            (PrePatM::Constr(d, k, bs), c1)
        },
        PatM::Struct(segs, members) => {
            let (d, k) = enum_path_spec(segs);
            let (bs, c1) = fresh_named_m(members, c);
            (PrePatM::Constr(d, k, bs), c1)
        },
        PatM::Ident(n) => {
            let (r, c1) = fresh_m(c, n);
            (PrePatM::Constr(Seq::empty(), r, seq![r]), c1)
        },
        _ => (PrePatM::Wildcard, c),
    }
}

/// The translation of a literal.
pub open spec fn lit_m(l: LitM) -> Result<PreM, Seq<char>> {
    match l {
        LitM::Bool(b) => Ok(PreM::Const(ConstM::Bool(b), empty_anns())),
        LitM::Int(v) => Ok(PreM::Const(ConstM::Integer(v as int), empty_anns())),
        LitM::Str(s) => Ok(PreM::Const(ConstM::String(s), empty_anns())),
        LitM::Other => Err(unsupported("literal"@)),
    }
}

/// The pre-SIR operator of a Rust binary operator.
pub open spec fn binop_m(op: RustBinOp) -> std::option::Option<BinOp> {
    match op {
        RustBinOp::Add | RustBinOp::AddAssign => std::option::Option::Some(BinOp::Add),
        RustBinOp::Sub | RustBinOp::SubAssign => std::option::Option::Some(BinOp::Sub),
        RustBinOp::Mul | RustBinOp::MulAssign => std::option::Option::Some(BinOp::Mul),
        RustBinOp::Eq => std::option::Option::Some(BinOp::Eq),
        RustBinOp::Lt => std::option::Option::Some(BinOp::Lt),
        RustBinOp::Le => std::option::Option::Some(BinOp::Le),
        RustBinOp::Other => std::option::Option::None,
    }
}

/// Text with the double quotes at its start taken off.
pub open spec fn strip_front_quotes(s: Seq<char>) -> Seq<char>
    decreases s.len(),
{
    if s.len() > 0 && s[0] == '"' {
        strip_front_quotes(s.drop_first())
    } else {
        s
    }
}

/// Text with the double quotes at its end taken off.
pub open spec fn strip_back_quotes(s: Seq<char>) -> Seq<char>
    decreases s.len(),
{
    if s.len() > 0 && s.last() == '"' {
        strip_back_quotes(s.drop_last())
    } else {
        s
    }
}

/// Text with the double quotes at both ends taken off.
pub open spec fn trim_quotes(s: Seq<char>) -> Seq<char> {
    strip_back_quotes(strip_front_quotes(s))
}

/// The type hint of a type named by a single identifier.
pub open spec fn ident_hint_m(id: Seq<char>, gps: Seq<Seq<char>>) -> HintM {
    match crate::front::first_index(gps, id) {
        std::option::Option::Some(i) => HintM::TypeParam(id, (i + 1) as i64),
        std::option::Option::None => if id == "bool"@ {
            HintM::Bool
        } else if crate::front::is_integer_text(id) {
            HintM::Integer
        } else if crate::front::is_bytes_text(id) {
            HintM::ByteString
        } else if id == "String"@ {
            HintM::String
        } else if id == "()"@ {
            HintM::Unit
        } else if crate::front::is_data_text(id) {
            HintM::Data
        } else {
            HintM::Named(id, Seq::empty())
        },
    }
}

/// The error for a call of `from_data` that is not unwrapped.
pub open spec fn bare_from_data() -> Seq<char> {
    "T::from_data() must be followed by .unwrap() in #[compile] functions"@
}

/// The translation of an expression: its pre-SIR, or the error for the
/// first part that the front end does not translate; and the context after.
pub open spec fn compile_m(e: ExprM, c: CtxM) -> (Result<PreM, Seq<char>>, CtxM)
    decreases e, 1nat,
{
    match e {
        ExprM::Lit(l) => (lit_m(l), c),
        ExprM::Path(segs, p) => if segs.len() == 1 {
            let n = segs[0];
            let name = match assoc_last(c.remaps, n) {
                std::option::Option::Some(r) => r,
                std::option::Option::None => resolved(c.scopes, n),
            };
            (Ok(PreM::Var(name, anns_at(c.file, p))), c)
        } else if segs.len() == 2 {
            (Ok(PreM::Construct(segs[0], segs[0] + "::"@ + segs[1], Seq::empty(), anns_at(c.file, p))), c)
        } else {
            (Err(unsupported("multi-segment path"@)), c)
        },
        ExprM::Binary(op, l, r, p) => {
            let (lv, c1) = compile_m(*l, c);
            match lv {
                Err(m) => (Err(m), c1),
                Ok(lp) => {
                    let (rv, c2) = compile_m(*r, c1);
                    match rv {
                        Err(m) => (Err(m), c2),
                        Ok(rp) => match binop_m(op) {
                            std::option::Option::Some(o) => (
                                Ok(PreM::BinOp(o, Box::new(lp), Box::new(rp), anns_at(c2.file, p))),
                                c2,
                            ),
                            std::option::Option::None => (Err(unsupported("binary operator"@)), c2),
                        },
                    }
                },
            }
        },
        ExprM::Call(..) => compile_call_m(e, c),
        ExprM::MethodCall(..) => compile_method_m(e, c),
        ExprM::If(cond, t, el) => {
            let (cv, c1) = compile_m(*cond, c);
            match cv {
                Err(m) => (Err(m), c1),
                Ok(cp) => {
                    let (tv, c2) = compile_stmts_m(t, c1);
                    match tv {
                        Err(m) => (Err(m), c2),
                        Ok(tp) => match el {
                            std::option::Option::Some(x) => {
                                let (ev, c3) = compile_m(*x, c2);
                                match ev {
                                    Err(m) => (Err(m), c3),
                                    Ok(ep) => (
                                        Ok(
                                            PreM::IfThenElse(
                                                Box::new(cp),
                                                Box::new(tp),
                                                std::option::Option::Some(Box::new(ep)),
                                                empty_anns(),
                                            ),
                                        ),
                                        c3,
                                    ),
                                }
                            },
                            std::option::Option::None => (
                                Ok(PreM::IfThenElse(Box::new(cp), Box::new(tp), std::option::Option::None, empty_anns())),
                                c2,
                            ),
                        },
                    }
                },
            }
        },
        ExprM::Match(scrut, arms, p) => {
            let (sv, c1) = compile_m(*scrut, c);
            match sv {
                Err(m) => (Err(m), c1),
                Ok(sp) => {
                    let (av, c2) = compile_arms_m(arms, c1);
                    match av {
                        Err(m) => (Err(m), c2),
                        Ok(ap) => (Ok(PreM::Match(Box::new(sp), ap, anns_at(c2.file, p))), c2),
                    }
                },
            }
        },
        ExprM::Field(b, mem, p) => {
            let (bv, c1) = compile_m(*b, c);
            match bv {
                Err(m) => (Err(m), c1),
                Ok(bp) => {
                    let f = match mem {
                        MemberM::Named(n) => n,
                        MemberM::Unnamed(i) => "_"@ + crate::text::nat_decimal(i as nat),
                    };
                    (Ok(PreM::FieldAccess(Box::new(bp), f, anns_at(c1.file, p))), c1)
                },
            }
        },
        ExprM::Unit => (Ok(unit_pre()), c),
        ExprM::Deref(x) => compile_m(*x, c),
        ExprM::Neg(x, p) => {
            let (xv, c1) = compile_m(*x, c);
            match xv {
                Err(m) => (Err(m), c1),
                Ok(xp) => (Ok(PreM::Negate(Box::new(xp), anns_at(c1.file, p))), c1),
            }
        },
        ExprM::UnaryOther => (Err(unsupported("unary operator"@)), c),
        ExprM::Paren(x) => compile_m(*x, c),
        ExprM::Reference(x) => compile_m(*x, c),
        ExprM::Require(cond, msg) => {
            let (cv, c1) = compile_m(*cond, c);
            match cv {
                Err(m) => (Err(m), c1),
                Ok(cp) => {
                    let message = match msg {
                        std::option::Option::Some(m) => trim_quotes(m),
                        std::option::Option::None => "require failed"@,
                    };
                    (Ok(PreM::Require(Box::new(cp), message, empty_anns())), c1)
                },
            }
        },
        ExprM::MacroOther(name, tokens) => if name == "panic"@ || name == "todo"@ || name == "unimplemented"@ {
            let m = trim_quotes(tokens);
            (Ok(PreM::Error(if m.len() == 0 { name } else { m }, empty_anns())), c)
        } else {
            (Err(unsupported("macro "@ + name)), c)
        },
        ExprM::Block(s) => compile_stmts_m(s, c),
        ExprM::Other => (Err(unsupported("expression"@)), c),
    }
}

/// The translations of expressions, in order.
pub open spec fn compile_all_m(s: Seq<ExprM>, c: CtxM) -> (Result<Seq<PreM>, Seq<char>>, CtxM)
    decreases s, 1nat,
{
    if s.len() == 0 {
        (Ok(Seq::empty()), c)
    } else {
        let (xs, c1) = compile_all_m(s.subrange(0, s.len() - 1), c);
        match xs {
            Err(m) => (Err(m), c1),
            Ok(ps) => {
                let (x, c2) = compile_m(s[s.len() - 1], c1);
                match x {
                    Err(m) => (Err(m), c2),
                    Ok(p) => (Ok(ps.push(p)), c2),
                }
            },
        }
    }
}

/// The translations of match arms, in order, each pattern and body in a
/// scope of their own.
pub open spec fn compile_arms_m(s: Seq<(PatM, ExprM, Pos)>, c: CtxM) -> (Result<Seq<ArmM>, Seq<char>>, CtxM)
    decreases s, 1nat,
{
    if s.len() == 0 {
        (Ok(Seq::empty()), c)
    } else {
        let (xs, c1) = compile_arms_m(s.subrange(0, s.len() - 1), c);
        match xs {
            Err(m) => (Err(m), c1),
            Ok(ps) => {
                let a = s[s.len() - 1];
                let (pat, c2) = compile_pat_m(a.0, push_m(c1));
                let (b, c3) = compile_m(a.1, c2);
                match b {
                    Err(m) => (Err(m), pop_m(c3)),
                    Ok(bp) => (Ok(ps.push((pat, bp, anns_at(c3.file, a.2)))), pop_m(c3)),
                }
            },
        }
    }
}

/// The translation of `T::from_data(&x)` where `r` is such a call (with
/// the type hint to decode to, where the context gives one), or none.
pub open spec fn try_from_data_m(r: ExprM, hint: std::option::Option<HintM>, c: CtxM) -> std::option::Option<
    (Result<PreM, Seq<char>>, CtxM),
>
    decreases r, 0nat,
{
    match r {
        ExprM::Call(f, args, _, _) => match *f {
            ExprM::Path(segs, _) => if segs.len() == 2 && segs[1] == "from_data"@ && args.len() == 1 {
                let inner = match args[0] {
                    ExprM::Reference(x) => *x,
                    _ => args[0],
                };
                let (iv, c1) = compile_m(inner, c);
                let target = match hint {
                    std::option::Option::Some(h) => h,
                    std::option::Option::None => if segs[0] == "FromData"@ {
                        HintM::Infer
                    } else {
                        ident_hint_m(segs[0], c.gps)
                    },
                };
                std::option::Option::Some(
                    (
                        match iv {
                            Err(m) => Err(m),
                            Ok(ip) => Ok(PreM::FromData(Box::new(ip), target, empty_anns())),
                        },
                        c1,
                    ),
                )
            } else {
                std::option::Option::None
            },
            _ => std::option::Option::None,
        },
        _ => std::option::Option::None,
    }
}

/// The integer that the argument of `BigInt::from` gives as a constant: an
/// integer literal, or one negated.
pub open spec fn bigint_from_arg(x: ExprM) -> std::option::Option<int> {
    match x {
        ExprM::Lit(LitM::Int(v)) => std::option::Option::Some(v as int),
        ExprM::Neg(y, _) => match *y {
            ExprM::Lit(LitM::Int(v)) => std::option::Option::Some(-(v as int)),
            _ => std::option::Option::None,
        },
        _ => std::option::Option::None,
    }
}

/// The translation of a call expression `e`.
pub open spec fn compile_call_m(e: ExprM, c: CtxM) -> (Result<PreM, Seq<char>>, CtxM)
    decreases e, 0nat,
{
    match e {
        ExprM::Call(f, args, text, p) => {
            let fallback = {
                let (av, c1) = compile_all_m(args, c);
                match av {
                    Err(m) => (Err(m), c1),
                    Ok(ap) => (Ok(PreM::Call(text, ap, anns_at(c1.file, p))), c1),
                }
            };
            match *f {
                ExprM::Path(segs, _) => {
                    let is_from = segs.len() == 2 && (segs[0] == "BigInt"@ || segs[0] == "num_bigint"@) && segs[1]
                        == "from"@ && args.len() == 1;
                    if is_from && bigint_from_arg(args[0]) is Some {
                        (Ok(PreM::Const(ConstM::Integer(bigint_from_arg(args[0])->0), empty_anns())), c)
                    } else if segs.len() == 2 && segs[1] == "from_data"@ {
                        (Err(bare_from_data()), c)
                    } else if segs.len() == 1 || segs.len() == 2 {
                        let path = if segs.len() == 2 {
                            segs[0] + "::"@ + segs[1]
                        } else {
                            match assoc_last(c.remaps, segs[0]) {
                                std::option::Option::Some(r) => r,
                                std::option::Option::None => segs[0],
                            }
                        };
                        let (av, c1) = compile_all_m(args, c);
                        match av {
                            Err(m) => (Err(m), c1),
                            Ok(ap) => (Ok(PreM::Call(path, ap, anns_at(c1.file, p))), c1),
                        }
                    } else {
                        fallback
                    }
                },
                _ => fallback,
            }
        },
        _ => (Err(unsupported("expression"@)), c),
    }
}

/// The translation of a method call expression `e`.
pub open spec fn compile_method_m(e: ExprM, c: CtxM) -> (Result<PreM, Seq<char>>, CtxM)
    decreases e, 0nat,
{
    match e {
        ExprM::MethodCall(recv, method, args, p) => if method == "unwrap"@ {
            match try_from_data_m(*recv, std::option::Option::None, c) {
                std::option::Option::Some(res) => res,
                std::option::Option::None => compile_m(*recv, c),
            }
        } else if method == "to_data"@ {
            let (rv, c1) = compile_m(*recv, c);
            match rv {
                Err(m) => (Err(m), c1),
                Ok(rp) => (Ok(PreM::ToData(Box::new(rp), HintM::Infer, anns_at(c1.file, p))), c1),
            }
        } else {
            let (rv, c1) = compile_m(*recv, c);
            match rv {
                Err(m) => (Err(m), c1),
                Ok(rp) => {
                    let (av, c2) = compile_all_m(args, c1);
                    match av {
                        Err(m) => (Err(m), c2),
                        Ok(ap) => (Ok(PreM::Call(method, seq![rp] + ap, anns_at(c2.file, p))), c2),
                    }
                },
            }
        },
        _ => (Err(unsupported("expression"@)), c),
    }
}

/// The name, type hint and annotated type that a `let` binds.
pub open spec fn let_binder(p: PatM, gps: Seq<Seq<char>>) -> (Seq<char>, HintM, std::option::Option<RustType>) {
    match p {
        PatM::Ident(n) => (n, HintM::Infer, std::option::Option::None),
        PatM::Typed(n, ty) => (
            match n {
                std::option::Option::Some(x) => x,
                std::option::Option::None => "_"@,
            },
            type_hint_spec(ty, gps),
            std::option::Option::Some(ty),
        ),
        _ => ("_"@, HintM::Infer, std::option::Option::None),
    }
}

/// The translation of statements: each `let` and each statement before the
/// last binds what follows it; the last gives the value.
pub open spec fn compile_stmts_m(s: Seq<StmtM>, c: CtxM) -> (Result<PreM, Seq<char>>, CtxM)
    decreases s, 1nat,
{
    if s.len() == 0 {
        (Ok(unit_pre()), c)
    } else {
        match s[0] {
            StmtM::Local(..) => compile_let_m(s, c),
            StmtM::Expr(e) => if s.len() == 1 {
                compile_m(e, c)
            } else {
                compile_seq_m(s, c)
            },
            StmtM::Macro(e) => if s.len() == 1 {
                compile_m(e, c)
            } else {
                compile_seq_m(s, c)
            },
            StmtM::Other => (Err(unsupported("statement"@)), c),
        }
    }
}

/// A statement `s[0]` whose value is discarded, then the rest.
pub open spec fn compile_seq_m(s: Seq<StmtM>, c: CtxM) -> (Result<PreM, Seq<char>>, CtxM)
    decreases s, 0nat,
{
    if s.len() == 0 {
        (Ok(unit_pre()), c)
    } else {
        match s[0] {
            StmtM::Expr(e) | StmtM::Macro(e) => {
                proof {
                    assert(decreases_to!(s => s[0]));
                }
                let (v, c1) = compile_m(e, c);
                match v {
                    Err(m) => (Err(m), c1),
                    Ok(vp) => {
                        let (b, c2) = compile_stmts_m(s.subrange(1, s.len() as int), c1);
                        match b {
                            Err(m) => (Err(m), c2),
                            Ok(bp) => (
                                Ok(PreM::Let("_"@, HintM::Infer, Box::new(vp), Box::new(bp), false, empty_anns())),
                                c2,
                            ),
                        }
                    },
                }
            },
            _ => (Err(unsupported("statement"@)), c),
        }
    }
}

/// The translation of a `let` statement `s[0]` and the statements after it.
pub open spec fn compile_let_m(s: Seq<StmtM>, c: CtxM) -> (Result<PreM, Seq<char>>, CtxM)
    decreases s, 0nat,
{
    if s.len() == 0 {
        (Ok(unit_pre()), c)
    } else {
    match s[0] {
        StmtM::Local(p, init) => {
            proof {
                assert(decreases_to!(s => s[0]));
            }
            let (name, hint, ty) = let_binder(p, c.gps);
            let (renamed, c1) = fresh_m(c, name);
            let c2 = match ty {
                std::option::Option::Some(t) => reg_type_m(reg_var_m(c1, renamed, t.text@), t.text@),
                std::option::Option::None => c1,
            };
            let (v, c3) = match init {
                std::option::Option::Some(x) => {
                    let tried = match x {
                        ExprM::MethodCall(recv, method, _, _) => if method == "unwrap"@ {
                            try_from_data_m(*recv, std::option::Option::Some(hint), c2)
                        } else {
                            std::option::Option::None
                        },
                        _ => std::option::Option::None,
                    };
                    match tried {
                        std::option::Option::Some(res) => res,
                        std::option::Option::None => compile_m(x, c2),
                    }
                },
                std::option::Option::None => (Err(unsupported("let without initializer"@)), c2),
            };
            match v {
                Err(m) => (Err(m), c3),
                Ok(vp) => {
                    let (b, c4) = compile_stmts_m(s.subrange(1, s.len() as int), c3);
                    match b {
                        Err(m) => (Err(m), c4),
                        Ok(bp) => (Ok(PreM::Let(renamed, hint, Box::new(vp), Box::new(bp), false, empty_anns())), c4),
                    }
                },
            }
        },
        _ => (Err(unsupported("statement"@)), c),
    }
}
}

/// Every Rust operator but the unsupported ones compiles to a pre-SIR
/// operator that means the same on any two integers: `a <= b` to a test that
/// holds exactly when `a <= b`, `a < b` to one that holds exactly when
/// `a < b`, `a + b` (and `a += b`) to the sum, and so on.
pub proof fn law_compiled_operator_means_the_same(op: RustBinOp, x: int, y: int)
    ensures
        binop_m(op) is None <==> op == RustBinOp::Other,
        binop_m(op) matches std::option::Option::Some(o) ==> crate::pre_sir::binop_arith_meaning(o, x, y)
            == rust_arith_meaning(op, x, y) && crate::pre_sir::binop_test_meaning(o, x, y) == rust_test_meaning(
            op,
            x,
            y,
        ),
{
}

/// Compiling `l op r` compiles `l`, then `r` in the context that `l` left,
/// and puts the two, in that order, under the pre-SIR operator of the same
/// meaning; an unsupported operator is refused.
pub proof fn law_compile_binary(op: RustBinOp, l: ExprM, r: ExprM, p: Pos, c: CtxM)
    ensures
        ({
            let (lv, c1) = compile_m(l, c);
            let (rv, c2) = compile_m(r, c1);
            let res = compile_m(ExprM::Binary(op, Box::new(l), Box::new(r), p), c).0;
            &&& lv is Ok && rv is Ok && op != RustBinOp::Other ==> (res matches Ok(PreM::BinOp(o, lp, rp, _))
                && *lp == lv->Ok_0 && *rp == rv->Ok_0 && forall|x: int, y: int|
                #![trigger crate::pre_sir::binop_test_meaning(o, x, y)]
                #![trigger crate::pre_sir::binop_arith_meaning(o, x, y)]
                crate::pre_sir::binop_test_meaning(o, x, y) == rust_test_meaning(op, x, y)
                    && crate::pre_sir::binop_arith_meaning(o, x, y) == rust_arith_meaning(op, x, y))
            &&& lv is Ok && rv is Ok && op == RustBinOp::Other ==> res is Err
            &&& lv is Err ==> res == lv
        }),
{
}

} // verus!
