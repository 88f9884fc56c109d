//! Rendering of scalar literals, operators, and determinism of the output.

use diatom_ast::ast::Const;
use diatom_ast::ast::Expr;
use diatom_ast::ast::Expr_;
use diatom_ast::ast::Loc;
use diatom_ast::ast::OpInfix;
use diatom_ast::ast::OpPostfix;
use diatom_ast::ast::OpPrefix;
use diatom_ast::ast::Stat;
use diatom_ast::ast::Stat_;
use diatom_ast::ast::Ast;

fn l() -> Loc {
    Loc { start: 0, end: 0 }
}

fn ex(v: Expr_) -> Expr {
    Expr::new(v, l())
}

fn st(v: Stat_) -> Stat {
    Stat::new(v, l())
}

fn int_lit(i: i64) -> Expr {
    ex(Expr_::Const(Const::Int(i)))
}

#[test]
fn int_literal_rendering() {
    assert_eq!(Const::Int(0).render(), "0");
    assert_eq!(Const::Int(7).render(), "7");
    assert_eq!(Const::Int(42).render(), "42");
    assert_eq!(Const::Int(1000).render(), "1000");
    assert_eq!(Const::Int(-7).render(), "-7");
    assert_eq!(Const::Int(i64::MAX).render(), "9223372036854775807");
    assert_eq!(Const::Int(i64::MIN).render(), "-9223372036854775808");
}

#[test]
fn float_literal_rendering_uses_bit_pattern() {
    let bits = (1.5f64).to_bits();
    assert_eq!(Const::Float(bits).render(), format!("(float {})", bits));
    let zero = (0.0f64).to_bits();
    assert_eq!(Const::Float(zero).render(), "(float 0)");
}

#[test]
fn scalar_literal_rendering() {
    assert_eq!(Const::Str("hi".to_string()).render(), "(str hi)");
    assert_eq!(Const::Str(String::new()).render(), "(str )");
    assert_eq!(Const::Bool(true).render(), "true");
    assert_eq!(Const::Bool(false).render(), "false");
    assert_eq!(Const::Nil.render(), "nil");
}

#[test]
fn infix_operator_names() {
    assert_eq!(OpInfix::Assign.name(), "Assign");
    assert_eq!(OpInfix::Range.name(), "Range");
    assert_eq!(OpInfix::Or.name(), "Or");
    assert_eq!(OpInfix::And.name(), "And");
    assert_eq!(OpInfix::Eq.name(), "Eq");
    assert_eq!(OpInfix::Ne.name(), "Ne");
    assert_eq!(OpInfix::Le.name(), "Le");
    assert_eq!(OpInfix::Lt.name(), "Lt");
    assert_eq!(OpInfix::Ge.name(), "Ge");
    assert_eq!(OpInfix::Gt.name(), "Gt");
    assert_eq!(OpInfix::Plus.name(), "Plus");
    assert_eq!(OpInfix::Minus.name(), "Minus");
    assert_eq!(OpInfix::Mul.name(), "Mul");
    assert_eq!(OpInfix::Div.name(), "Div");
    assert_eq!(OpInfix::DivFloor.name(), "DivFloor");
    assert_eq!(OpInfix::Mod.name(), "Mod");
    assert_eq!(OpInfix::Exp.name(), "Exp");
    assert_eq!(OpInfix::Comma.name(), "Comma");
    assert_eq!(OpInfix::Member.name(), "Member");
}

#[test]
fn prefix_and_postfix_operator_names() {
    assert_eq!(OpPrefix::Not.name(), "Not");
    assert_eq!(OpPrefix::Neg.name(), "Neg");
    assert_eq!(OpPostfix::Index.name(), "Index");
    assert_eq!(OpPostfix::Call.name(), "Call");
}

#[test]
fn rendering_same_tree_twice_is_identical() {
    let tree = Ast {
        statements: vec![
            st(Stat_::Expr(ex(Expr_::Infix(
                OpInfix::Plus,
                Box::new(int_lit(1)),
                Box::new(ex(Expr_::Prefix(OpPrefix::Neg, Box::new(int_lit(2))))),
            )))),
            st(Stat_::Return(Some(ex(Expr_::Id("x".to_string()))))),
        ],
    };
    let first = tree.render();
    let second = tree.render();
    assert_eq!(first, second);
}

#[test]
fn identifier_rendering() {
    assert_eq!(ex(Expr_::Id("x".to_string())).render(), "(id x)");
}

#[test]
fn location_is_never_rendered() {
    let a = Expr::new(Expr_::Id("x".to_string()), Loc { start: 3, end: 9 });
    let b = Expr::new(Expr_::Id("x".to_string()), Loc { start: 100, end: 200 });
    assert_eq!(a.render(), b.render());
    assert_eq!(a.loc, Loc { start: 3, end: 9 });
}

#[test]
fn default_tree_is_empty() {
    let tree = Ast::default();
    assert_eq!(tree.statements.len(), 0);
    assert_eq!(tree.render(), "[]");
}
