use rustus::constant::UplcConstant;
use rustus::default_fun::DefaultFun;
use rustus::integer::Integer;
use rustus::module::AnnotationsDecl;
use rustus::pre_sir::{BinOp, PreFnDef, PreParam, PreSIR, TypeDict, TypeHint};
use rustus::registry::ResolutionContext;
use rustus::sir::SIR;
use rustus::sir_type::SIRType;

fn anns() -> AnnotationsDecl {
    AnnotationsDecl::empty()
}

fn var(name: &str) -> PreSIR {
    PreSIR::Var { name: name.to_string(), anns: anns() }
}

fn int_param(name: &str) -> PreParam {
    PreParam { name: name.to_string(), type_hint: TypeHint::Integer, rust_type_path: "BigInt".to_string() }
}

fn fun(from: SIRType, to: SIRType) -> SIRType {
    SIRType::Fun { from: Box::new(from), to: Box::new(to) }
}

fn sir_var(name: &str, tp: SIRType) -> SIR {
    SIR::Var { name: name.to_string(), tp, anns: anns() }
}

fn apply(f: SIR, arg: SIR, tp: SIRType) -> SIR {
    SIR::Apply { f: Box::new(f), arg: Box::new(arg), tp, anns: anns() }
}

fn lam(param: SIR, term: SIR) -> SIR {
    SIR::LamAbs { param: Box::new(param), term: Box::new(term), type_params: vec![], anns: anns() }
}

fn builtin2(fun_: DefaultFun, operand: SIRType, result: SIRType, a: SIR, b: SIR) -> SIR {
    let b_tp = fun(operand.duplicate(), fun(operand.duplicate(), result.duplicate()));
    let f = SIR::Builtin { builtin_fun: fun_, tp: b_tp, anns: anns() };
    apply(apply(f, a, fun(operand, result.duplicate())), b, result)
}

fn int_const(v: i64) -> SIR {
    SIR::Const { uplc_const: UplcConstant::Integer { value: Integer::from_i64(v) }, tp: SIRType::Integer, anns: anns() }
}

fn def(rust_name: &str, module: Option<&str>, params: Vec<PreParam>, ret: TypeHint, body: PreSIR) -> PreFnDef {
    PreFnDef {
        rust_name: rust_name.to_string(),
        sir_name: rust_name.to_string(),
        module: module.map(|m| m.to_string()),
        params,
        ret_type: ret,
        generic_params: vec![],
        typeclass_bounds: vec![],
        body,
        type_dict: TypeDict::new(),
    }
}

fn add_def(module: Option<&str>) -> PreFnDef {
    def(
        "add",
        module,
        vec![int_param("a"), int_param("b")],
        TypeHint::Integer,
        PreSIR::BinOp { op: BinOp::Add, left: Box::new(var("a")), right: Box::new(var("b")), anns: anns() },
    )
}

fn int3() -> SIRType {
    fun(SIRType::Integer, fun(SIRType::Integer, SIRType::Integer))
}

#[test]
fn lower_fn_def_wraps_the_body_in_a_lambda_per_parameter() {
    let mut ctx = ResolutionContext::new();
    ctx.lower_fn_def(add_def(Some("test.Mod")));
    assert_eq!(ctx.bindings.len(), 1);
    let b = &ctx.bindings[0];
    assert_eq!(b.name, "test.Mod.add");
    assert_eq!(b.module_name, Some("test.Mod".to_string()));
    assert_eq!(b.tp, int3());
    assert!(!b.redirect_to_scalus);
    let body = builtin2(
        DefaultFun::AddInteger,
        SIRType::Integer,
        SIRType::Integer,
        sir_var("a", SIRType::Integer),
        sir_var("b", SIRType::Integer),
    );
    let expected = lam(sir_var("a", SIRType::Integer), lam(sir_var("b", SIRType::Integer), body));
    assert_eq!(b.value, expected);
}

#[test]
fn lower_fn_def_without_module_binds_the_sir_name() {
    let mut ctx = ResolutionContext::new();
    ctx.lower_fn_def(add_def(None));
    assert_eq!(ctx.bindings[0].name, "add");
    assert_eq!(ctx.bindings[0].module_name, None);
}

#[test]
fn lowered_function_resolves_as_an_external_variable() {
    let mut ctx = ResolutionContext::new();
    ctx.lower_fn_def(add_def(Some("test.Mod")));
    let r = ctx.resolve_call("add", SIRType::Unresolved);
    assert_eq!(
        r,
        SIR::ExternalVar {
            module_name: "test.Mod".to_string(),
            name: "test.Mod.add".to_string(),
            tp: int3(),
            anns: anns(),
        }
    );
    // By the last segment of a longer path too.
    let r2 = ctx.resolve_call("crate::math::add", SIRType::Unresolved);
    assert_eq!(r, r2);
}

#[test]
fn call_to_a_lowered_function_applies_its_arguments_in_turn() {
    let mut ctx = ResolutionContext::new();
    ctx.lower_fn_def(add_def(Some("test.Mod")));
    let body = PreSIR::Call { func_path: "add".to_string(), args: vec![var("x"), var("x")], anns: anns() };
    ctx.lower_fn_def(def("double", Some("test.Mod"), vec![int_param("x")], TypeHint::Integer, body));
    let b = &ctx.bindings[1];
    assert_eq!(b.name, "test.Mod.double");
    assert_eq!(b.tp, fun(SIRType::Integer, SIRType::Integer));
    let callee = SIR::ExternalVar {
        module_name: "test.Mod".to_string(),
        name: "test.Mod.add".to_string(),
        tp: int3(),
        anns: anns(),
    };
    let x = || sir_var("x", SIRType::Integer);
    let call = apply(apply(callee, x(), fun(SIRType::Integer, SIRType::Integer)), x(), SIRType::Integer);
    assert_eq!(b.value, lam(x(), call));
}

#[test]
fn equality_of_integers_lowers_to_equals_integer() {
    let mut ctx = ResolutionContext::new();
    let c = PreSIR::Const { value: UplcConstant::Integer { value: Integer::from_i64(0) }, anns: anns() };
    let body = PreSIR::BinOp { op: BinOp::Eq, left: Box::new(var("n")), right: Box::new(c), anns: anns() };
    ctx.lower_fn_def(def("is_zero", None, vec![int_param("n")], TypeHint::Bool, body));
    let b = &ctx.bindings[0];
    assert_eq!(b.tp, fun(SIRType::Integer, SIRType::Boolean));
    let eq = builtin2(
        DefaultFun::EqualsInteger,
        SIRType::Integer,
        SIRType::Boolean,
        sir_var("n", SIRType::Integer),
        int_const(0),
    );
    assert_eq!(b.value, lam(sir_var("n", SIRType::Integer), eq));
}

#[test]
fn negation_subtracts_from_zero() {
    let mut ctx = ResolutionContext::new();
    let body = PreSIR::Negate { expr: Box::new(var("n")), anns: anns() };
    ctx.lower_fn_def(def("neg", None, vec![int_param("n")], TypeHint::Integer, body));
    let sub = builtin2(
        DefaultFun::SubtractInteger,
        SIRType::Integer,
        SIRType::Integer,
        int_const(0),
        sir_var("n", SIRType::Integer),
    );
    assert_eq!(ctx.bindings[0].value, lam(sir_var("n", SIRType::Integer), sub));
}

#[test]
fn require_fails_with_its_message() {
    let mut ctx = ResolutionContext::new();
    let c = PreSIR::Const { value: UplcConstant::Bool { value: true }, anns: anns() };
    let body = PreSIR::Require { cond: Box::new(c), message: "must hold".to_string(), anns: anns() };
    ctx.lower_fn_def(def("check", None, vec![int_param("n")], TypeHint::Unit, body));
    let unit = SIR::Const { uplc_const: UplcConstant::Unit, tp: SIRType::Unit, anns: anns() };
    let msg = SIR::Const {
        uplc_const: UplcConstant::String { value: "must hold".to_string() },
        tp: SIRType::String,
        anns: anns(),
    };
    let cond = SIR::Const { uplc_const: UplcConstant::Bool { value: true }, tp: SIRType::Boolean, anns: anns() };
    let expected = SIR::IfThenElse {
        cond: Box::new(cond),
        t: Box::new(unit),
        f: Box::new(SIR::Error { msg: Box::new(msg), anns: anns() }),
        tp: SIRType::Unit,
        anns: anns(),
    };
    assert_eq!(ctx.bindings[0].value, lam(sir_var("n", SIRType::Integer), expected));
}

#[test]
fn unknown_call_stays_a_variable() {
    let ctx = ResolutionContext::new();
    assert_eq!(ctx.resolve_call("nowhere", SIRType::Integer), sir_var("nowhere", SIRType::Integer));
}
