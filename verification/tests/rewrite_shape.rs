//! The synthesized declaration for the `half` scenario: a precondition, a
//! postcondition with the return-alias, and an early exit inside a
//! conditional.

use hoare::ast::{
    Annotatable, BinOp, Block, Expr, FnDecl, FnQuals, Item, ItemKind, MetaItem, MetaLit, RetTy,
    Stmt, Ty, Value, Visibility,
};
use hoare::contract::Contract;
use hoare::dispatch::{map_annotatble, precond};
use hoare::text::{loop_label, result_name};

fn n(s: &str) -> Vec<char> {
    s.chars().collect()
}

fn var(s: &str) -> Expr {
    Expr::Var(n(s))
}

fn num(i: i64) -> Expr {
    Expr::Lit(Value::Int(i))
}

fn bin(op: BinOp, a: Expr, b: Expr) -> Expr {
    Expr::Binary(op, Box::new(a), Box::new(b))
}

fn quals() -> FnQuals {
    FnQuals { unsafety: false, constness: false, abi: n("Rust") }
}

/// `fn half(x: i32) -> i32 { if x < 0 { return 0 } x / 2 }`
fn half_body() -> Block {
    Block {
        stmts: vec![Stmt::If(
            bin(BinOp::CmpLt, var("x"), num(0)),
            Block { stmts: vec![Stmt::Ret(Some(num(0)))], tail: None },
            None,
        )],
        tail: Some(bin(BinOp::Div, var("x"), num(2))),
    }
}

fn half_item() -> Annotatable {
    Annotatable::Item(Item {
        ident: n("half"),
        attrs: vec![],
        vis: Visibility::Public,
        kind: ItemKind::Fn(
            quals(),
            FnDecl { inputs: vec![], output: RetTy::Ty(Ty::Named(n("i32"))) },
            half_body(),
        ),
    })
}

fn exit_with(e: Expr, run: u32) -> Stmt {
    Stmt::BlockStmt(Block {
        stmts: vec![
            Stmt::Assign(result_name(run), Expr::SomeOf(Box::new(e))),
            Stmt::Break(Some(loop_label(run))),
        ],
        tail: None,
    })
}

#[test]
fn precond_on_half() {
    let attr = MetaItem::NameValue(n("precond"), MetaLit::Str(n("x >= -100")));
    let pred = bin(BinOp::CmpGe, var("x"), num(-100));
    let (out, diag) = precond(&attr, pred, half_item(), 0);
    assert!(diag.is_none());

    let slot = result_name(0);
    let lbl = loop_label(0);
    let expected_body = Block {
        stmts: vec![
            Stmt::Assert(
                bin(BinOp::CmpGe, var("x"), num(-100)),
                n("Precondition of half (x >= -100)"),
            ),
            Stmt::Let(slot.clone(), Expr::Lit(Value::NoneV)),
            Stmt::Loop(
                Some(lbl.clone()),
                Block {
                    stmts: vec![
                        Stmt::If(
                            bin(BinOp::CmpLt, var("x"), num(0)),
                            Block { stmts: vec![exit_with(num(0), 0)], tail: None },
                            None,
                        ),
                        Stmt::Assign(
                            slot.clone(),
                            Expr::SomeOf(Box::new(bin(BinOp::Div, var("x"), num(2)))),
                        ),
                        Stmt::Break(Some(lbl.clone())),
                    ],
                    tail: None,
                },
            ),
            Stmt::Unwrap(slot.clone()),
        ],
        tail: Some(Expr::Var(slot.clone())),
    };
    let expected = Annotatable::Item(Item {
        ident: n("half"),
        attrs: vec![],
        vis: Visibility::Public,
        kind: ItemKind::Fn(
            quals(),
            FnDecl { inputs: vec![], output: RetTy::Ty(Ty::Named(n("i32"))) },
            expected_body,
        ),
    });
    assert_eq!(out, expected);
}

#[test]
fn postcond_binds_return_alias() {
    // `postcond = "return >= 0"`: the reserved alias is bound to the
    // captured result, in the predicate and in the label text.
    let attr = MetaItem::NameValue(n("postcond"), MetaLit::Str(n("return >= 0")));
    let pred = bin(BinOp::CmpGe, Expr::ResultAlias, num(0));
    let (out, diag) = map_annotatble(&attr, pred, half_item(), Contract::Postcond, 7);
    assert!(diag.is_none());

    let slot = result_name(7);
    assert_eq!(String::from_iter(slot.iter()), "__result_7");
    let body = match out {
        Annotatable::Item(it) => match it.kind {
            ItemKind::Fn(_, _, b) => b,
            _ => panic!("not a function"),
        },
        _ => panic!("not an item"),
    };
    // No entry check: the first statement declares the slot.
    assert_eq!(body.stmts[0], Stmt::Let(slot.clone(), Expr::Lit(Value::NoneV)));
    // The exit check observes the slot, under the substituted label.
    assert_eq!(
        body.stmts[3],
        Stmt::Assert(
            bin(BinOp::CmpGe, Expr::Var(slot.clone()), num(0)),
            n("Postcondition of half (__result_7 >= 0)"),
        )
    );
    assert_eq!(body.tail, Some(Expr::Var(slot)));
}

#[test]
fn invariant_emits_both_checks() {
    let attr = MetaItem::NameValue(n("invariant"), MetaLit::Str(n("x >= 0")));
    let pred = bin(BinOp::CmpGe, var("x"), num(0));
    let (out, diag) = map_annotatble(&attr, pred, half_item(), Contract::Invariant, 2);
    assert!(diag.is_none());
    let body = match out {
        Annotatable::Item(it) => match it.kind {
            ItemKind::Fn(_, _, b) => b,
            _ => panic!("not a function"),
        },
        _ => panic!("not an item"),
    };
    assert_eq!(body.stmts.len(), 5);
    assert_eq!(
        body.stmts[0],
        Stmt::Assert(bin(BinOp::CmpGe, var("x"), num(0)), n("Invariant entering of half (x >= 0)"))
    );
    assert_eq!(
        body.stmts[4],
        Stmt::Assert(bin(BinOp::CmpGe, var("x"), num(0)), n("Invariant leaving of half (x >= 0)"))
    );
}

#[test]
fn deep_exit_is_rewritten_and_loop_breaks_kept() {
    // An exit nested inside two conditionals and one loop is redirected;
    // the loop's own `break`/`continue` stay as they are.
    let deep = Block {
        stmts: vec![Stmt::While(
            Expr::Lit(Value::Bool(true)),
            Block {
                stmts: vec![Stmt::If(
                    var("a"),
                    Block {
                        stmts: vec![Stmt::If(
                            var("b"),
                            Block { stmts: vec![Stmt::Ret(Some(num(1)))], tail: None },
                            Some(Block { stmts: vec![Stmt::Break(None)], tail: None }),
                        )],
                        tail: None,
                    },
                    None,
                )],
                tail: None,
            },
        )],
        tail: Some(num(0)),
    };
    let slot = result_name(3);
    let lbl = loop_label(3);
    let out = hoare::rewrite::rewrite_block(deep, &slot, &lbl);
    let expected = Block {
        stmts: vec![Stmt::While(
            Expr::Lit(Value::Bool(true)),
            Block {
                stmts: vec![Stmt::If(
                    var("a"),
                    Block {
                        stmts: vec![Stmt::If(
                            var("b"),
                            Block { stmts: vec![exit_with(num(1), 3)], tail: None },
                            Some(Block { stmts: vec![Stmt::Break(None)], tail: None }),
                        )],
                        tail: None,
                    },
                    None,
                )],
                tail: None,
            },
        )],
        tail: Some(num(0)),
    };
    assert_eq!(out, expected);
}

#[test]
fn nested_fn_exits_left_alone() {
    let inner_fn = Stmt::NestedFn(
        n("helper"),
        Block { stmts: vec![Stmt::Ret(Some(num(5)))], tail: None },
    );
    let body = Block { stmts: vec![inner_fn], tail: Some(num(0)) };
    let out = hoare::rewrite::rewrite_block(body, &result_name(4), &loop_label(4));
    let expected_inner = Stmt::NestedFn(
        n("helper"),
        Block { stmts: vec![Stmt::Ret(Some(num(5)))], tail: None },
    );
    assert_eq!(out.stmts[0], expected_inner);
}

#[test]
fn void_body_gets_unit_assignment() {
    // A body with no trailing expression and an elided return type: the
    // slot is filled with the unit value, no exit statement required.
    let attr = MetaItem::NameValue(n("precond"), MetaLit::Str(n("true")));
    let pred = Expr::Lit(Value::Bool(true));
    let item = Annotatable::Item(Item {
        ident: n("tick"),
        attrs: vec![],
        vis: Visibility::Inherited,
        kind: ItemKind::Fn(
            quals(),
            FnDecl { inputs: vec![], output: RetTy::DefaultRet },
            Block { stmts: vec![Stmt::Semi(var("side_effect"))], tail: None },
        ),
    });
    let (out, diag) = precond(&attr, pred, item, 9);
    assert!(diag.is_none());
    let body = match out {
        Annotatable::Item(it) => match it.kind {
            ItemKind::Fn(_, _, b) => b,
            _ => panic!("not a function"),
        },
        _ => panic!("not an item"),
    };
    let region = &body.stmts[2];
    match region {
        Stmt::Loop(Some(l), inner) => {
            assert_eq!(String::from_iter(l.iter()), "'__hoare_9");
            assert_eq!(
                inner.stmts[1],
                Stmt::Assign(
                    result_name(9),
                    Expr::SomeOf(Box::new(Expr::Lit(Value::Unit))),
                )
            );
            assert_eq!(inner.stmts[2], Stmt::Break(Some(loop_label(9))));
        },
        _ => panic!("no escape region"),
    }
}

#[test]
fn sibling_rewrites_use_distinct_names() {
    assert_ne!(result_name(0), result_name(1));
    assert_ne!(loop_label(0), loop_label(1));
    assert_ne!(result_name(5), loop_label(5));
    assert_eq!(String::from_iter(result_name(42).iter()), "__result_42");
    assert_eq!(String::from_iter(loop_label(42).iter()), "'__hoare_42");
}
