use liquid_tycheck::env::Env;
use liquid_tycheck::ir::Local;
use liquid_tycheck::ir::Operand;
use liquid_tycheck::ir::Rvalue;
use liquid_tycheck::result::TyErrorKind;
use liquid_tycheck::ty::BaseTy;
use liquid_tycheck::ty::BinOp;
use liquid_tycheck::ty::IntSign;
use liquid_tycheck::ty::IntSize;
use liquid_tycheck::ty::Literal;
use liquid_tycheck::ty::Params;
use liquid_tycheck::ty::Predicate;
use liquid_tycheck::ty::Span;
use liquid_tycheck::ty::Ty;
use liquid_tycheck::ty::UnOp;
use liquid_tycheck::ty::Variable;

fn int32() -> BaseTy {
    BaseTy::Int(IntSign::Signed, IntSize::Size32)
}

fn var(sym: u64) -> Variable {
    Variable { sym, span: Span::empty() }
}

fn lit5() -> Literal {
    Literal::Int(5, IntSign::Signed, IntSize::Size32)
}

fn span() -> Span {
    Span { start: 14, end: 21 }
}

/// `{ b : base | b == rhs }` as synthesis builds it.
fn tight(base: BaseTy, rhs: Predicate) -> Ty {
    Ty::Refined(
        Variable::bound(),
        base,
        Predicate::BinApp(
            BinOp::Eq(base),
            Box::new(Predicate::Var(Variable::bound())),
            Box::new(rhs),
        ),
    )
}

/// An environment binding locals 1 and 2 to differently refined
/// signed 32-bit integers under binders 11 and 12.
fn int_env() -> Env {
    let mut env = Env::new();
    env.bind(
        Local(1),
        var(11),
        Ty::Refined(
            var(11),
            int32(),
            Predicate::BinApp(
                BinOp::Gt(IntSign::Signed, IntSize::Size32),
                Box::new(Predicate::Var(var(11))),
                Box::new(Predicate::Lit(Literal::Int(0, IntSign::Signed, IntSize::Size32))),
            ),
        ),
    );
    env.bind(
        Local(2),
        var(12),
        Ty::Refined(var(12), int32(), Predicate::Lit(Literal::Bool(true))),
    );
    env
}

#[test]
fn use_of_literal_synthesizes_singleton() {
    let env = Env::new();
    let got = Rvalue::Use(Operand::Lit(lit5())).synth(&env, span());
    assert_eq!(got, Ok(tight(int32(), Predicate::Lit(lit5()))));
}

#[test]
fn use_of_local_returns_its_known_type() {
    let env = int_env();
    let got = Rvalue::Use(Operand::Local(Local(2))).synth(&env, span());
    assert_eq!(
        got,
        Ok(Ty::Refined(var(12), int32(), Predicate::Lit(Literal::Bool(true)))),
    );
}

#[test]
fn neg_of_literal_five_synthesizes_negation() {
    let env = Env::new();
    let neg = UnOp::Neg(IntSign::Signed, IntSize::Size32);
    let got = Rvalue::UnApp(neg, Operand::Lit(lit5())).synth(&env, span());
    assert_eq!(
        got,
        Ok(tight(int32(), Predicate::UnApp(neg, Box::new(Predicate::Lit(lit5()))))),
    );
}

#[test]
fn not_requires_a_boolean_operand() {
    let env = Env::new();
    let got = Rvalue::UnApp(UnOp::Not, Operand::Lit(lit5())).synth(&env, span());
    let err = got.unwrap_err();
    assert_eq!(err.span, span());
    assert_eq!(
        err.kind,
        TyErrorKind::BaseMismatch {
            expected: BaseTy::Bool,
            found: tight(int32(), Predicate::Lit(lit5())),
        },
    );
}

#[test]
fn add_of_two_locals_synthesizes_sum_of_binders() {
    let env = int_env();
    let add = BinOp::Add(IntSign::Signed, IntSize::Size32);
    let got = Rvalue::BinApp(add, Operand::Local(Local(1)), Operand::Local(Local(2)))
        .synth(&env, span());
    assert_eq!(
        got,
        Ok(tight(
            int32(),
            Predicate::BinApp(
                add,
                Box::new(Predicate::Var(var(11))),
                Box::new(Predicate::Var(var(12))),
            ),
        )),
    );
}

#[test]
fn add_of_local_and_literal_resolves_each_operand_kind() {
    let env = int_env();
    let add = BinOp::Add(IntSign::Signed, IntSize::Size32);
    let got = Rvalue::BinApp(add, Operand::Local(Local(1)), Operand::Lit(lit5()))
        .synth(&env, span());
    assert_eq!(
        got,
        Ok(tight(
            int32(),
            Predicate::BinApp(
                add,
                Box::new(Predicate::Var(var(11))),
                Box::new(Predicate::Lit(lit5())),
            ),
        )),
    );
}

#[test]
fn scalar_against_function_fails_with_shape_mismatch() {
    let mut env = int_env();
    let func_ty = Ty::Func(
        Params::Cons(var(21), Box::new(Ty::Base(int32())), Box::new(Params::Nil)),
        Box::new(Ty::Base(int32())),
    );
    env.bind(Local(3), var(13), func_ty.clone());
    let add = BinOp::Add(IntSign::Signed, IntSize::Size32);
    let got = Rvalue::BinApp(add, Operand::Local(Local(1)), Operand::Local(Local(3)))
        .synth(&env, span());
    let err = got.unwrap_err();
    assert_eq!(err.span, span());
    assert_eq!(
        err.kind,
        TyErrorKind::ShapeMismatch {
            expected: Ty::Refined(
                var(11),
                int32(),
                Predicate::BinApp(
                    BinOp::Gt(IntSign::Signed, IntSize::Size32),
                    Box::new(Predicate::Var(var(11))),
                    Box::new(Predicate::Lit(Literal::Int(0, IntSign::Signed, IntSize::Size32))),
                ),
            ),
            found: func_ty,
        },
    );
}

#[test]
fn shape_mismatch_wins_even_when_bases_also_differ() {
    // The left operand is a boolean, so Add's base check would fail too;
    // the shape disagreement with the function-typed right operand is
    // what must be reported.
    let mut env = Env::new();
    let func_ty = Ty::Func(Params::Nil, Box::new(Ty::Base(BaseTy::Bool)));
    env.bind(Local(3), var(13), func_ty.clone());
    let add = BinOp::Add(IntSign::Signed, IntSize::Size32);
    let got = Rvalue::BinApp(add, Operand::Lit(Literal::Bool(true)), Operand::Local(Local(3)))
        .synth(&env, span());
    let err = got.unwrap_err();
    assert!(matches!(err.kind, TyErrorKind::ShapeMismatch { .. }));
}

#[test]
fn bools_into_add_fail_with_base_mismatch() {
    let env = Env::new();
    let add = BinOp::Add(IntSign::Signed, IntSize::Size32);
    let got = Rvalue::BinApp(
        add,
        Operand::Lit(Literal::Bool(true)),
        Operand::Lit(Literal::Bool(false)),
    )
        .synth(&env, span());
    let err = got.unwrap_err();
    assert_eq!(err.span, span());
    assert_eq!(
        err.kind,
        TyErrorKind::BaseMismatch {
            expected: int32(),
            found: tight(BaseTy::Bool, Predicate::Lit(Literal::Bool(true))),
        },
    );
}

#[test]
fn lt_on_differently_refined_ints_gives_bool() {
    let env = int_env();
    let lt = BinOp::Lt(IntSign::Signed, IntSize::Size32);
    let got = Rvalue::BinApp(lt, Operand::Local(Local(1)), Operand::Local(Local(2)))
        .synth(&env, span());
    let ty = got.unwrap();
    assert!(ty.has_base(BaseTy::Bool));
    assert_eq!(
        ty,
        tight(
            BaseTy::Bool,
            Predicate::BinApp(
                lt,
                Box::new(Predicate::Var(var(11))),
                Box::new(Predicate::Var(var(12))),
            ),
        ),
    );
}

#[test]
fn eq_at_bool_synthesizes_bool_equality() {
    let mut env = Env::new();
    env.bind(Local(4), var(14), Ty::Base(BaseTy::Bool));
    let eq_op = BinOp::Eq(BaseTy::Bool);
    let got = Rvalue::BinApp(eq_op, Operand::Lit(Literal::Bool(true)), Operand::Local(Local(4)))
        .synth(&env, span());
    assert_eq!(
        got,
        Ok(tight(
            BaseTy::Bool,
            Predicate::BinApp(
                eq_op,
                Box::new(Predicate::Lit(Literal::Bool(true))),
                Box::new(Predicate::Var(var(14))),
            ),
        )),
    );
}

#[test]
fn division_and_remainder_are_typed_like_addition() {
    let env = int_env();
    for op in [
        BinOp::Sub(IntSign::Signed, IntSize::Size32),
        BinOp::Mul(IntSign::Signed, IntSize::Size32),
        BinOp::Div(IntSign::Signed, IntSize::Size32),
        BinOp::Rem(IntSign::Signed, IntSize::Size32),
    ] {
        let got = Rvalue::BinApp(op, Operand::Local(Local(1)), Operand::Local(Local(2)))
            .synth(&env, span());
        assert_eq!(
            got,
            Ok(tight(
                int32(),
                Predicate::BinApp(
                    op,
                    Box::new(Predicate::Var(var(11))),
                    Box::new(Predicate::Var(var(12))),
                ),
            )),
        );
    }
}

#[test]
fn comparisons_of_unsigned_ints_give_bool() {
    let mut env = Env::new();
    let u8ty = BaseTy::Int(IntSign::Unsigned, IntSize::Size8);
    env.bind(
        Local(1),
        var(11),
        Ty::Refined(var(11), u8ty, Predicate::Lit(Literal::Bool(true))),
    );
    for op in [
        BinOp::Gt(IntSign::Unsigned, IntSize::Size8),
        BinOp::Lte(IntSign::Unsigned, IntSize::Size8),
        BinOp::Gte(IntSign::Unsigned, IntSize::Size8),
    ] {
        let got = Rvalue::BinApp(
            op,
            Operand::Local(Local(1)),
            Operand::Lit(Literal::Int(9, IntSign::Unsigned, IntSize::Size8)),
        )
            .synth(&env, span());
        let ty = got.unwrap();
        assert!(ty.has_base(BaseTy::Bool));
    }
}

#[test]
fn neq_carries_its_operand_base() {
    let env = Env::new();
    let neq = BinOp::Neq(int32());
    let got = Rvalue::BinApp(neq, Operand::Lit(lit5()), Operand::Lit(lit5()))
        .synth(&env, span());
    assert_eq!(
        got,
        Ok(tight(
            BaseTy::Bool,
            Predicate::BinApp(
                neq,
                Box::new(Predicate::Lit(lit5())),
                Box::new(Predicate::Lit(lit5())),
            ),
        )),
    );
}
