//! Rendering and shape of composite nodes: operators, chains, loops,
//! classes and function definitions.

use diatom_ast::ast::if_chain;
use diatom_ast::ast::Ast;
use diatom_ast::ast::Const;
use diatom_ast::ast::Expr;
use diatom_ast::ast::Expr_;
use diatom_ast::ast::Loc;
use diatom_ast::ast::OpInfix;
use diatom_ast::ast::OpPrefix;
use diatom_ast::ast::Stat;
use diatom_ast::ast::Stat_;

fn l() -> Loc {
    Loc { start: 0, end: 0 }
}

fn ex(v: Expr_) -> Expr {
    Expr::new(v, l())
}

fn st(v: Stat_) -> Stat {
    Stat::new(v, l())
}

fn int_lit(i: i64) -> Expr {
    ex(Expr_::Const(Const::Int(i)))
}

fn id(name: &str) -> Expr {
    ex(Expr_::Id(name.to_string()))
}

#[test]
fn assignment_nests_multiplication_under_addition() {
    // The tree for `x = 1 + 2 * 3`: an `Assign` whose right side is a
    // `Plus` whose right side is a `Mul` on 2 and 3.
    let tree = ex(Expr_::Infix(
        OpInfix::Assign,
        Box::new(id("x")),
        Box::new(ex(Expr_::Infix(
            OpInfix::Plus,
            Box::new(int_lit(1)),
            Box::new(ex(Expr_::Infix(
                OpInfix::Mul,
                Box::new(int_lit(2)),
                Box::new(int_lit(3)),
            ))),
        ))),
    ));
    assert_eq!(tree.render(), "(Assign (id x) (Plus 1 (Mul 2 3)))");
    match &tree.val {
        Expr_::Infix(OpInfix::Assign, left, right) => {
            assert!(matches!(&left.val, Expr_::Id(n) if n == "x"));
            match &right.val {
                Expr_::Infix(OpInfix::Plus, one, mul) => {
                    assert!(matches!(&one.val, Expr_::Const(Const::Int(1))));
                    match &mul.val {
                        Expr_::Infix(OpInfix::Mul, two, three) => {
                            assert!(matches!(&two.val, Expr_::Const(Const::Int(2))));
                            assert!(matches!(&three.val, Expr_::Const(Const::Int(3))));
                        }
                        _ => panic!("expected Mul under Plus"),
                    }
                }
                _ => panic!("expected Plus under Assign"),
            }
        }
        _ => panic!("expected Assign at the root"),
    }
}

#[test]
fn for_loop_shape_and_rendering() {
    // The tree for `for i in range do f() break end`.
    let body = vec![
        st(Stat_::Expr(ex(Expr_::Call(Box::new(id("f")), vec![])))),
        st(Stat_::Break),
    ];
    let tree = st(Stat_::For(Box::new(id("i")), Box::new(id("range")), body));
    assert_eq!(
        tree.render(),
        "(for (id i) in (id range) [(expr (call (id f) [])), (break)])"
    );
    match &tree.val {
        Stat_::For(vars, iter, body) => {
            assert!(matches!(&vars.val, Expr_::Id(n) if n == "i"));
            assert!(matches!(&iter.val, Expr_::Id(n) if n == "range"));
            assert_eq!(body.len(), 2);
            assert!(matches!(&body[0].val, Stat_::Expr(_)));
            assert!(matches!(&body[1].val, Stat_::Break));
        }
        _ => panic!("expected a for node"),
    }
}

#[test]
fn class_declaration_preserves_field_and_method_order() {
    // The tree for `class C a, b fn m() end end`.
    let method = ex(Expr_::Def(Some("m".to_string()), vec![], vec![], vec![]));
    let tree = st(Stat_::Class(
        "C".to_string(),
        vec![("a".to_string(), l()), ("b".to_string(), l())],
        vec![method],
    ));
    assert_eq!(tree.render(), "(class C [a, b] [(def m [] [] [])])");
    match &tree.val {
        Stat_::Class(name, fields, methods) => {
            assert_eq!(name, "C");
            assert_eq!(fields.len(), 2);
            assert_eq!(fields[0].0, "a");
            assert_eq!(fields[1].0, "b");
            assert_eq!(methods.len(), 1);
            assert!(matches!(&methods[0].val, Expr_::Def(Some(n), _, _, _) if n == "m"));
        }
        _ => panic!("expected a class node"),
    }
}

#[test]
fn if_chain_with_else_has_odd_length() {
    let pairs = vec![(id("c1"), int_lit(1)), (id("c2"), int_lit(2))];
    let chain = if_chain(pairs, Some(int_lit(3)));
    assert_eq!(chain.len(), 5);
    let tree = ex(Expr_::If(chain));
    assert_eq!(tree.render(), "(if [(id c1), 1, (id c2), 2, 3])");
}

#[test]
fn if_chain_without_else_has_even_length() {
    let pairs = vec![(id("c1"), int_lit(1)), (id("c2"), int_lit(2))];
    let chain = if_chain(pairs, None);
    assert_eq!(chain.len(), 4);
    let tree = ex(Expr_::If(chain));
    assert_eq!(tree.render(), "(if [(id c1), 1, (id c2), 2])");
}

#[test]
fn if_chain_of_one_pair() {
    let chain = if_chain(vec![(id("c"), int_lit(1))], None);
    assert_eq!(chain.len(), 2);
    assert_eq!(ex(Expr_::If(chain)).render(), "(if [(id c), 1])");
}

#[test]
fn anonymous_def_renders_distinguishably_from_named() {
    let named = ex(Expr_::Def(Some("m".to_string()), vec![], vec![], vec![]));
    let lambda = ex(Expr_::Def(None, vec![], vec![], vec![]));
    assert_eq!(named.render(), "(def m [] [] [])");
    assert_eq!(lambda.render(), "(lambda [] [] [])");
    assert_ne!(named.render(), lambda.render());
}

#[test]
fn def_with_parameters_body_and_captures() {
    let tree = ex(Expr_::Def(
        Some("f".to_string()),
        vec!["x".to_string(), "y".to_string()],
        vec![st(Stat_::Return(Some(id("x"))))],
        vec![("n".to_string(), int_lit(1))],
    ));
    assert_eq!(
        tree.render(),
        "(def f [x, y] [(return (id x))] [(bind n 1)])"
    );
}

#[test]
fn parenthesized_expression_stays_distinct_from_inner() {
    let inner = int_lit(1);
    let wrapped = ex(Expr_::Parentheses(Box::new(int_lit(1))));
    assert_eq!(wrapped.render(), "(paren 1)");
    assert_ne!(wrapped.render(), inner.render());
}

#[test]
fn block_and_statement_rendering() {
    let block = ex(Expr_::Block(vec![st(Stat_::Break), st(Stat_::Continue)]));
    assert_eq!(block.render(), "(block [(break), (continue)])");
    assert_eq!(st(Stat_::Continue).render(), "(continue)");
    assert_eq!(st(Stat_::Break).render(), "(break)");
    assert_eq!(st(Stat_::Return(None)).render(), "(return)");
    assert_eq!(st(Stat_::Return(Some(int_lit(5)))).render(), "(return 5)");
}

#[test]
fn loop_with_and_without_break_condition() {
    let endless = st(Stat_::Loop(None, vec![st(Stat_::Break)]));
    assert_eq!(endless.render(), "(loop [(break)])");
    let cond = st(Stat_::Loop(
        Some(ex(Expr_::Const(Const::Bool(true)))),
        vec![st(Stat_::Continue)],
    ));
    assert_eq!(cond.render(), "(loop true [(continue)])");
}

#[test]
fn zero_argument_call_is_valid() {
    let call = ex(Expr_::Call(Box::new(id("f")), vec![]));
    assert_eq!(call.render(), "(call (id f) [])");
    let call2 = ex(Expr_::Call(Box::new(id("g")), vec![int_lit(1), int_lit(2)]));
    assert_eq!(call2.render(), "(call (id g) [1, 2])");
}

#[test]
fn index_rendering() {
    let idx = ex(Expr_::Index(Box::new(id("a")), Box::new(int_lit(0))));
    assert_eq!(idx.render(), "(index (id a) 0)");
}

#[test]
fn prefix_rendering() {
    let neg = ex(Expr_::Prefix(OpPrefix::Neg, Box::new(int_lit(5))));
    assert_eq!(neg.render(), "(Neg 5)");
    let not = ex(Expr_::Prefix(OpPrefix::Not, Box::new(id("p"))));
    assert_eq!(not.render(), "(Not (id p))");
}

#[test]
fn tree_renders_top_level_statements_in_source_order() {
    let tree = Ast {
        statements: vec![
            st(Stat_::Expr(int_lit(1))),
            st(Stat_::Expr(int_lit(2))),
            st(Stat_::Expr(int_lit(3))),
        ],
    };
    assert_eq!(tree.render(), "[(expr 1), (expr 2), (expr 3)]");
}
