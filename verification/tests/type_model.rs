use liquid_tycheck::ty::BaseTy;
use liquid_tycheck::ty::BinOp;
use liquid_tycheck::ty::Connective;
use liquid_tycheck::ty::IntSign;
use liquid_tycheck::ty::IntSize;
use liquid_tycheck::ty::Literal;
use liquid_tycheck::ty::Params;
use liquid_tycheck::ty::Predicate;
use liquid_tycheck::ty::Span;
use liquid_tycheck::ty::Ty;
use liquid_tycheck::ty::UnOp;
use liquid_tycheck::ty::Variable;

fn int32() -> BaseTy {
    BaseTy::Int(IntSign::Signed, IntSize::Size32)
}

fn var(sym: u64) -> Variable {
    Variable { sym, span: Span::empty() }
}

#[test]
fn variable_equality_ignores_span() {
    let a = Variable { sym: 7, span: Span { start: 1, end: 4 } };
    let b = Variable { sym: 7, span: Span { start: 20, end: 25 } };
    let c = Variable { sym: 8, span: Span { start: 1, end: 4 } };
    assert_eq!(a, b);
    assert_ne!(a, c);
}

#[test]
fn literal_base_types() {
    assert_eq!(Literal::Bool(true).base_ty(), BaseTy::Bool);
    assert_eq!(Literal::Int(5, IntSign::Signed, IntSize::Size32).base_ty(), int32());
    assert_ne!(
        Literal::Int(5, IntSign::Signed, IntSize::Size64).base_ty(),
        Literal::Int(5, IntSign::Signed, IntSize::Size32).base_ty(),
    );
}

#[test]
fn predicate_eq_builds_equality_node() {
    let lhs = Predicate::Var(var(0));
    let rhs = Predicate::Lit(Literal::Int(3, IntSign::Signed, IntSize::Size32));
    let built = lhs.eq(int32(), rhs);
    assert_eq!(
        built,
        Predicate::BinApp(
            BinOp::Eq(int32()),
            Box::new(Predicate::Var(var(0))),
            Box::new(Predicate::Lit(Literal::Int(3, IntSign::Signed, IntSize::Size32))),
        ),
    );
}

#[test]
fn predicate_connectives_build_logical_nodes() {
    let t = Predicate::Lit(Literal::Bool(true));
    let f = Predicate::Lit(Literal::Bool(false));
    let both = t.and(f);
    assert_eq!(
        both,
        Predicate::Logical(
            Connective::And,
            Box::new(Predicate::Lit(Literal::Bool(true))),
            Box::new(Predicate::Lit(Literal::Bool(false))),
        ),
    );
    let t2 = Predicate::Lit(Literal::Bool(true));
    let f2 = Predicate::Lit(Literal::Bool(false));
    let either = t2.or(f2);
    assert!(matches!(either, Predicate::Logical(Connective::Or, _, _)));
}

#[test]
fn rename_rewrites_nested_occurrences_by_symbol() {
    let old = Variable { sym: 3, span: Span { start: 9, end: 12 } };
    let new = var(0);
    let pred = Predicate::Logical(
        Connective::And,
        Box::new(Predicate::UnApp(UnOp::Not, Box::new(Predicate::Var(var(3))))),
        Box::new(Predicate::BinApp(
            BinOp::Lt(IntSign::Signed, IntSize::Size32),
            Box::new(Predicate::Var(var(3))),
            Box::new(Predicate::Var(var(4))),
        )),
    );
    let renamed = pred.rename(old, new);
    assert_eq!(
        renamed,
        Predicate::Logical(
            Connective::And,
            Box::new(Predicate::UnApp(UnOp::Not, Box::new(Predicate::Var(var(0))))),
            Box::new(Predicate::BinApp(
                BinOp::Lt(IntSign::Signed, IntSize::Size32),
                Box::new(Predicate::Var(var(0))),
                Box::new(Predicate::Var(var(4))),
            )),
        ),
    );
}

#[test]
fn has_base_reads_only_the_outward_base() {
    let strict = Ty::Refined(
        var(1),
        int32(),
        Predicate::BinApp(
            BinOp::Gt(IntSign::Signed, IntSize::Size32),
            Box::new(Predicate::Var(var(1))),
            Box::new(Predicate::Lit(Literal::Int(0, IntSign::Signed, IntSize::Size32))),
        ),
    );
    let loose = Ty::Refined(var(2), int32(), Predicate::Lit(Literal::Bool(true)));
    assert!(strict.has_base(int32()));
    assert!(loose.has_base(int32()));
    assert!(strict.has_base(int32()));
    assert!(!strict.has_base(BaseTy::Bool));
    assert!(!strict.has_base(BaseTy::Int(IntSign::Signed, IntSize::Size64)));
    let func = Ty::Func(Params::Nil, Box::new(Ty::Base(int32())));
    assert!(!func.has_base(int32()));
}

#[test]
fn shape_eq_is_reflexive_and_symmetric() {
    let refined = Ty::Refined(var(1), int32(), Predicate::Lit(Literal::Bool(true)));
    let base = Ty::Base(int32());
    let func = Ty::Func(
        Params::Cons(var(5), Box::new(Ty::Base(int32())), Box::new(Params::Nil)),
        Box::new(Ty::Base(BaseTy::Bool)),
    );
    for t in [&refined, &base, &func] {
        assert!(t.shape_eq(t));
    }
    assert!(refined.shape_eq(&base));
    assert!(base.shape_eq(&refined));
    assert!(!func.shape_eq(&base));
    assert!(!base.shape_eq(&func));
}

#[test]
fn shape_eq_erases_predicates_but_not_bases() {
    let a = Ty::Refined(
        var(1),
        int32(),
        Predicate::BinApp(
            BinOp::Lt(IntSign::Signed, IntSize::Size32),
            Box::new(Predicate::Var(var(1))),
            Box::new(Predicate::Lit(Literal::Int(10, IntSign::Signed, IntSize::Size32))),
        ),
    );
    let b = Ty::Refined(var(2), int32(), Predicate::Lit(Literal::Bool(true)));
    assert!(a.shape_eq(&b));
    let wider = Ty::Refined(
        var(3),
        BaseTy::Int(IntSign::Signed, IntSize::Size64),
        Predicate::Lit(Literal::Bool(true)),
    );
    assert!(!a.shape_eq(&wider));
}

#[test]
fn func_shape_eq_matches_arity_and_parameter_shapes() {
    let f1 = Ty::Func(
        Params::Cons(
            var(1),
            Box::new(Ty::Refined(var(1), int32(), Predicate::Lit(Literal::Bool(true)))),
            Box::new(Params::Nil),
        ),
        Box::new(Ty::Base(BaseTy::Bool)),
    );
    let f2 = Ty::Func(
        Params::Cons(var(2), Box::new(Ty::Base(int32())), Box::new(Params::Nil)),
        Box::new(Ty::Refined(var(2), BaseTy::Bool, Predicate::Lit(Literal::Bool(true)))),
    );
    assert!(f1.shape_eq(&f2));
    let f3 = Ty::Func(Params::Nil, Box::new(Ty::Base(BaseTy::Bool)));
    assert!(!f1.shape_eq(&f3));
}

#[test]
fn clone_copies_whole_types() {
    let func = Ty::Func(
        Params::Cons(
            var(1),
            Box::new(Ty::Refined(
                var(1),
                int32(),
                Predicate::UnApp(
                    UnOp::Neg(IntSign::Signed, IntSize::Size32),
                    Box::new(Predicate::Var(var(1))),
                ),
            )),
            Box::new(Params::Nil),
        ),
        Box::new(Ty::Base(BaseTy::Bool)),
    );
    assert_eq!(func.clone(), func);
    let pred = Predicate::Logical(
        Connective::Or,
        Box::new(Predicate::Lit(Literal::Bool(false))),
        Box::new(Predicate::Var(var(9))),
    );
    assert_eq!(pred.clone(), pred);
}
