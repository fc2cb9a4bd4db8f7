use rustus::body::{compile_impl, RustFn, RustGeneric, RustParam};
use rustus::compile::{Member, Pos, RustArm, RustBinOp, RustExpr, RustLit, RustMacro, RustPat, RustStmt};
use rustus::constant::UplcConstant;
use rustus::front::{CompileCtx, Registration, RustType};
use rustus::integer::Integer;
use rustus::module::{AnnotationsDecl, SourcePos};
use rustus::pre_sir::{BinOp, PreMatchArmOf, PrePattern, PreSIR, TypeHint, TypeclassBound};

const FILE: &str = "validator.rs";

fn pos(line: i32, column: i32) -> Pos {
    Pos { line, column }
}

fn at(line: i32, column: i32) -> AnnotationsDecl {
    AnnotationsDecl {
        pos: SourcePos {
            file: FILE.to_string(),
            start_line: line,
            start_column: column,
            end_line: line,
            end_column: column,
        },
        comment: None,
        data: Vec::new(),
    }
}

fn ctx() -> CompileCtx {
    let mut c = CompileCtx::new();
    c.file = FILE.to_string();
    c
}

fn path(segs: &[&str], p: Pos) -> RustExpr {
    RustExpr::Path(segs.iter().map(|s| s.to_string()).collect(), p)
}

fn num(v: i64) -> RustExpr {
    RustExpr::Lit(RustLit::Int(v))
}

fn ty(text: &str, segs: &[&str]) -> RustType {
    RustType { text: text.to_string(), path: segs.iter().map(|s| s.to_string()).collect(), args: vec![] }
}

fn ident(n: &str) -> RustPat {
    RustPat::Ident(n.to_string())
}

fn int_const(v: i64) -> PreSIR {
    PreSIR::Const { value: UplcConstant::Integer { value: Integer::from_i64(v) }, anns: AnnotationsDecl::empty() }
}

fn var(n: &str, a: AnnotationsDecl) -> PreSIR {
    PreSIR::Var { name: n.to_string(), anns: a }
}

fn let_(name: &str, hint: TypeHint, value: PreSIR, body: PreSIR) -> PreSIR {
    PreSIR::Let {
        name: name.to_string(),
        type_hint: hint,
        value: Box::new(value),
        body: Box::new(body),
        is_rec: false,
        anns: AnnotationsDecl::empty(),
    }
}

#[test]
fn shadowing_lets_are_renamed_and_typed_ones_registered() {
    let mut c = ctx();
    let body = vec![
        RustStmt::Local(RustPat::Typed(Box::new(ident("x")), ty("i64", &["i64"])), Some(num(1))),
        RustStmt::Local(
            ident("y"),
            Some(RustExpr::Binary(RustBinOp::Add, Box::new(path(&["x"], pos(2, 12))), Box::new(num(2)), pos(2, 12))),
        ),
        RustStmt::Local(ident("x"), Some(path(&["y"], pos(3, 12)))),
        RustStmt::Expr(path(&["x"], pos(4, 4))),
    ];
    let r = c.compile_expr(&RustExpr::Block(body)).unwrap();
    let expected = let_(
        "x",
        TypeHint::Integer,
        int_const(1),
        let_(
            "y",
            TypeHint::Infer,
            PreSIR::BinOp {
                op: BinOp::Add,
                left: Box::new(var("x", at(2, 12))),
                right: Box::new(int_const(2)),
                anns: at(2, 12),
            },
            let_("x_1", TypeHint::Infer, var("y", at(3, 12)), var("x_1", at(4, 4))),
        ),
    );
    assert_eq!(r, expected);
    assert_eq!(
        c.type_registrations,
        vec![Registration::Var { name: "x".to_string(), rust_type: "i64".to_string() }]
    );
}

#[test]
fn statements_before_the_last_are_bound_to_underscore() {
    let mut c = ctx();
    let body = vec![
        RustStmt::Macro(RustMacro::Require {
            cond: Box::new(RustExpr::Lit(RustLit::Bool(true))),
            message: Some("\"must hold\"".to_string()),
        }),
        RustStmt::Expr(RustExpr::Unit),
    ];
    let r = c.compile_expr(&RustExpr::Block(body)).unwrap();
    let expected = let_(
        "_",
        TypeHint::Infer,
        PreSIR::Require {
            cond: Box::new(PreSIR::Const {
                value: UplcConstant::Bool { value: true },
                anns: AnnotationsDecl::empty(),
            }),
            message: "must hold".to_string(),
            anns: AnnotationsDecl::empty(),
        },
        PreSIR::Const { value: UplcConstant::Unit, anns: AnnotationsDecl::empty() },
    );
    assert_eq!(r, expected);
}

#[test]
fn an_empty_block_is_unit() {
    let mut c = ctx();
    let r = c.compile_expr(&RustExpr::Block(vec![])).unwrap();
    assert_eq!(r, PreSIR::Const { value: UplcConstant::Unit, anns: AnnotationsDecl::empty() });
}

#[test]
fn unsupported_parts_are_errors() {
    let mut c = ctx();
    assert_eq!(c.compile_expr(&RustExpr::Other), Err("#[compile] unsupported expression".to_string()));
    assert_eq!(c.compile_expr(&RustExpr::UnaryOther), Err("#[compile] unsupported unary operator".to_string()));
    assert_eq!(c.compile_expr(&RustExpr::Lit(RustLit::Other)), Err("#[compile] unsupported literal".to_string()));
    assert_eq!(
        c.compile_expr(&RustExpr::Binary(RustBinOp::Other, Box::new(num(1)), Box::new(num(2)), pos(0, 0))),
        Err("#[compile] unsupported binary operator".to_string())
    );
    assert_eq!(
        c.compile_expr(&path(&["a", "b", "c"], pos(0, 0))),
        Err("#[compile] unsupported multi-segment path".to_string())
    );
    assert_eq!(
        c.compile_expr(&RustExpr::Macro(RustMacro::Other { name: "println".to_string(), tokens: String::new() })),
        Err("#[compile] unsupported macro println".to_string())
    );
    assert_eq!(
        c.compile_expr(&RustExpr::Block(vec![RustStmt::Local(ident("z"), None)])),
        Err("#[compile] unsupported let without initializer".to_string())
    );
    assert_eq!(
        c.compile_expr(&RustExpr::Block(vec![RustStmt::Other])),
        Err("#[compile] unsupported statement".to_string())
    );
}

#[test]
fn the_first_error_in_a_call_is_reported() {
    let mut c = ctx();
    let call = RustExpr::Call(
        Box::new(path(&["f"], pos(1, 0))),
        vec![num(1), RustExpr::Other, RustExpr::UnaryOther],
        "f".to_string(),
        pos(1, 0),
    );
    assert_eq!(c.compile_expr(&call), Err("#[compile] unsupported expression".to_string()));
}

#[test]
fn panics_and_todos_become_errors() {
    let mut c = ctx();
    let boom = RustExpr::Macro(RustMacro::Other { name: "panic".to_string(), tokens: "\"boom\"".to_string() });
    assert_eq!(
        c.compile_expr(&boom),
        Ok(PreSIR::Error { message: "boom".to_string(), anns: AnnotationsDecl::empty() })
    );
    let todo = RustExpr::Macro(RustMacro::Other { name: "todo".to_string(), tokens: String::new() });
    assert_eq!(
        c.compile_expr(&todo),
        Ok(PreSIR::Error { message: "todo".to_string(), anns: AnnotationsDecl::empty() })
    );
    let req = RustExpr::Macro(RustMacro::Require { cond: Box::new(RustExpr::Lit(RustLit::Bool(false))), message: None });
    match c.compile_expr(&req) {
        Ok(PreSIR::Require { message, .. }) => assert_eq!(message, "require failed"),
        other => panic!("unexpected {:?}", other),
    }
}

#[test]
fn bigint_from_a_literal_is_a_constant() {
    let mut c = ctx();
    let neg = RustExpr::Call(
        Box::new(path(&["BigInt", "from"], pos(0, 0))),
        vec![RustExpr::Neg(Box::new(num(5)), pos(0, 14))],
        "BigInt::from".to_string(),
        pos(0, 0),
    );
    assert_eq!(c.compile_expr(&neg), Ok(int_const(-5)));
    let pos_ = RustExpr::Call(
        Box::new(path(&["num_bigint", "from"], pos(0, 0))),
        vec![num(7)],
        "num_bigint::from".to_string(),
        pos(0, 0),
    );
    assert_eq!(c.compile_expr(&pos_), Ok(int_const(7)));
}

#[test]
fn calls_and_method_calls() {
    let mut c = ctx();
    let call = RustExpr::Call(
        Box::new(path(&["List", "cons"], pos(1, 0))),
        vec![num(1)],
        "List::cons".to_string(),
        pos(1, 0),
    );
    assert_eq!(
        c.compile_expr(&call),
        Ok(PreSIR::Call { func_path: "List::cons".to_string(), args: vec![int_const(1)], anns: at(1, 0) })
    );
    let m = RustExpr::MethodCall(
        Box::new(path(&["xs"], pos(2, 0))),
        "length".to_string(),
        vec![num(3)],
        pos(2, 2),
    );
    assert_eq!(
        c.compile_expr(&m),
        Ok(PreSIR::Call {
            func_path: "length".to_string(),
            args: vec![var("xs", at(2, 0)), int_const(3)],
            anns: at(2, 2),
        })
    );
    let to = RustExpr::MethodCall(Box::new(path(&["xs"], pos(3, 0))), "to_data".to_string(), vec![], pos(3, 2));
    assert_eq!(
        c.compile_expr(&to),
        Ok(PreSIR::ToData { arg: Box::new(var("xs", at(3, 0))), source_type: TypeHint::Infer, anns: at(3, 2) })
    );
    let unit_variant = path(&["Option", "None"], pos(4, 0));
    assert_eq!(
        c.compile_expr(&unit_variant),
        Ok(PreSIR::Construct {
            type_path: "Option".to_string(),
            constr_name: "Option::None".to_string(),
            args: vec![],
            anns: at(4, 0),
        })
    );
}

#[test]
fn from_data_must_be_unwrapped() {
    let mut c = ctx();
    let bare = RustExpr::Call(
        Box::new(path(&["Datum", "from_data"], pos(0, 0))),
        vec![RustExpr::Reference(Box::new(path(&["d"], pos(0, 17))))],
        "Datum::from_data".to_string(),
        pos(0, 0),
    );
    assert_eq!(
        c.compile_expr(&bare),
        Err("T::from_data() must be followed by .unwrap() in #[compile] functions".to_string())
    );
    let unwrapped = RustExpr::MethodCall(Box::new(bare), "unwrap".to_string(), vec![], pos(0, 20));
    assert_eq!(
        c.compile_expr(&unwrapped),
        Ok(PreSIR::FromData {
            arg: Box::new(var("d", at(0, 17))),
            target_type: TypeHint::Named { rust_path: "Datum".to_string(), type_args: vec![] },
            anns: AnnotationsDecl::empty(),
        })
    );
}

#[test]
fn a_typed_let_decodes_to_its_annotation() {
    let mut c = ctx();
    let init = RustExpr::MethodCall(
        Box::new(RustExpr::Call(
            Box::new(path(&["FromData", "from_data"], pos(0, 0))),
            vec![RustExpr::Reference(Box::new(path(&["raw"], pos(0, 30))))],
            "FromData::from_data".to_string(),
            pos(0, 0),
        )),
        "unwrap".to_string(),
        vec![],
        pos(0, 40),
    );
    let body = vec![
        RustStmt::Local(RustPat::Typed(Box::new(ident("v")), ty("Redeemer", &["Redeemer"])), Some(init)),
        RustStmt::Expr(path(&["v"], pos(1, 4))),
    ];
    let r = c.compile_expr(&RustExpr::Block(body)).unwrap();
    let hint = || TypeHint::Named { rust_path: "Redeemer".to_string(), type_args: vec![] };
    let expected = let_(
        "v",
        hint(),
        PreSIR::FromData { arg: Box::new(var("raw", at(0, 30))), target_type: hint(), anns: AnnotationsDecl::empty() },
        var("v", at(1, 4)),
    );
    assert_eq!(r, expected);
    assert_eq!(
        c.type_registrations,
        vec![
            Registration::Var { name: "v".to_string(), rust_type: "Redeemer".to_string() },
            Registration::TypeInfo { rust_type: "Redeemer".to_string() },
        ]
    );
}

#[test]
fn match_arms_bind_fresh_names_in_their_own_scope() {
    let mut c = ctx();
    let arms = vec![
        RustArm {
            pat: RustPat::TupleStruct(vec!["Option".to_string(), "Some".to_string()], vec![ident("v"), RustPat::Wild]),
            body: path(&["v"], pos(2, 20)),
            pos: pos(2, 8),
        },
        RustArm {
            pat: RustPat::Struct(
                vec!["Pair".to_string()],
                vec![Member::Named("fst".to_string()), Member::Unnamed(1)],
            ),
            body: path(&["fst"], pos(3, 20)),
            pos: pos(3, 8),
        },
        RustArm { pat: ident("v"), body: path(&["v"], pos(4, 20)), pos: pos(4, 8) },
        RustArm { pat: RustPat::Wild, body: path(&["v"], pos(5, 20)), pos: pos(5, 8) },
    ];
    let m = RustExpr::Match(Box::new(path(&["o"], pos(1, 10))), arms, pos(1, 4));
    let r = c.compile_expr(&m).unwrap();
    let expected = PreSIR::Match {
        scrutinee: Box::new(var("o", at(1, 10))),
        arms: vec![
            PreMatchArmOf {
                pattern: PrePattern::Constr {
                    type_path: "Option".to_string(),
                    constr_name: "Option::Some".to_string(),
                    bindings: vec!["v".to_string(), "_".to_string()],
                },
                body: var("v", at(2, 20)),
                anns: at(2, 8),
            },
            PreMatchArmOf {
                pattern: PrePattern::Constr {
                    type_path: "Pair".to_string(),
                    constr_name: "Pair".to_string(),
                    bindings: vec!["fst".to_string()],
                },
                body: var("fst", at(3, 20)),
                anns: at(3, 8),
            },
            PreMatchArmOf {
                pattern: PrePattern::Constr {
                    type_path: String::new(),
                    constr_name: "v_1".to_string(),
                    bindings: vec!["v_1".to_string()],
                },
                body: var("v_1", at(4, 20)),
                anns: at(4, 8),
            },
            PreMatchArmOf { pattern: PrePattern::Wildcard, body: var("v", at(5, 20)), anns: at(5, 8) },
        ],
        anns: at(1, 4),
    };
    assert_eq!(r, expected);
}

#[test]
fn fields_conditionals_and_negation() {
    let mut c = ctx();
    let e = RustExpr::If(
        Box::new(RustExpr::Binary(
            RustBinOp::Lt,
            Box::new(RustExpr::Field(Box::new(path(&["p"], pos(1, 3))), Member::Unnamed(0), pos(1, 4))),
            Box::new(RustExpr::Field(Box::new(path(&["p"], pos(1, 9))), Member::Named("amount".to_string()), pos(1, 10))),
            pos(1, 3),
        )),
        vec![RustStmt::Expr(RustExpr::Neg(Box::new(num(1)), pos(1, 20)))],
        None,
    );
    let r = c.compile_expr(&e).unwrap();
    let expected = PreSIR::IfThenElse {
        cond: Box::new(PreSIR::BinOp {
            op: BinOp::Lt,
            left: Box::new(PreSIR::FieldAccess {
                base: Box::new(var("p", at(1, 3))),
                field: "_0".to_string(),
                anns: at(1, 4),
            }),
            right: Box::new(PreSIR::FieldAccess {
                base: Box::new(var("p", at(1, 9))),
                field: "amount".to_string(),
                anns: at(1, 10),
            }),
            anns: at(1, 3),
        }),
        then_branch: Box::new(PreSIR::Negate { expr: Box::new(int_const(1)), anns: at(1, 20) }),
        else_branch: None,
        anns: AnnotationsDecl::empty(),
    };
    assert_eq!(r, expected);
}

#[test]
fn a_function_with_a_sir_name_params_and_bounds() {
    let f = RustFn {
        name: "check".to_string(),
        file: FILE.to_string(),
        generics: vec![
            RustGeneric { name: "T".to_string(), bounds: vec!["PartialEq".to_string(), "Clone".to_string()] },
            RustGeneric { name: "U".to_string(), bounds: vec!["PartialOrd".to_string()] },
        ],
        params: vec![
            RustParam { name: "n".to_string(), ty: ty("BigInt", &["BigInt"]) },
            RustParam { name: "d".to_string(), ty: ty("v3::Datum", &["v3", "Datum"]) },
        ],
        ret: Some(ty("bool", &["bool"])),
        body: vec![RustStmt::Expr(RustExpr::Call(
            Box::new(path(&["check"], pos(5, 4))),
            vec![path(&["n"], pos(5, 10)), path(&["d"], pos(5, 13))],
            "check".to_string(),
            pos(5, 4),
        ))],
    };
    let attrs = vec![
        ("module".to_string(), "my.Validators".to_string()),
        ("name".to_string(), "validate".to_string()),
    ];
    let cf = compile_impl(&f, &attrs).unwrap();
    assert_eq!(cf.rust_name, "check");
    assert_eq!(cf.sir_name, "validate");
    assert_eq!(cf.module, Some("my.Validators".to_string()));
    assert_eq!(cf.generic_params, vec!["T".to_string(), "U".to_string()]);
    assert_eq!(
        cf.typeclass_bounds,
        vec![
            TypeclassBound { trait_name: "PartialEq".to_string(), type_param_index: 1 },
            TypeclassBound { trait_name: "PartialOrd".to_string(), type_param_index: 2 },
        ]
    );
    assert_eq!(cf.params.len(), 2);
    assert_eq!(cf.params[0].name, "n");
    assert_eq!(cf.params[0].type_hint, TypeHint::Integer);
    assert_eq!(cf.params[0].rust_type_path, "BigInt");
    assert_eq!(cf.params[1].rust_type_path, "v3::Datum");
    assert_eq!(
        cf.params[1].type_hint,
        TypeHint::Named { rust_path: "v3::Datum".to_string(), type_args: vec![] }
    );
    assert_eq!(cf.ret_type, TypeHint::Bool);
    assert_eq!(
        cf.body,
        PreSIR::Call {
            func_path: "validate".to_string(),
            args: vec![var("n", at(5, 10)), var("d", at(5, 13))],
            anns: at(5, 4),
        }
    );
    assert_eq!(
        cf.registrations,
        vec![
            Registration::Var { name: "n".to_string(), rust_type: "BigInt".to_string() },
            Registration::Var { name: "d".to_string(), rust_type: "v3::Datum".to_string() },
            Registration::TypeInfo { rust_type: "v3::Datum".to_string() },
        ]
    );
}

#[test]
fn a_function_without_return_type_returns_unit_and_errors_carry_through() {
    let f = RustFn {
        name: "noop".to_string(),
        file: FILE.to_string(),
        generics: vec![],
        params: vec![],
        ret: None,
        body: vec![],
    };
    let cf = compile_impl(&f, &vec![]).unwrap();
    assert_eq!(cf.sir_name, "noop");
    assert_eq!(cf.module, None);
    assert_eq!(cf.ret_type, TypeHint::Unit);
    assert_eq!(cf.body, PreSIR::Const { value: UplcConstant::Unit, anns: AnnotationsDecl::empty() });
    let bad = RustFn { body: vec![RustStmt::Expr(RustExpr::Other)], ..f };
    assert_eq!(compile_impl(&bad, &vec![]).err(), Some("#[compile] unsupported expression".to_string()));
}
