//! Error reporting, unsupported shapes, trait and impl methods, and the
//! debug-only contract variants.

use hoare::ast::{
    Annotatable, BinOp, Block, Expr, FnDecl, FnQuals, ImplItem, ImplItemKind, Item, ItemKind,
    MetaItem, MetaLit, MethodSig, RetTy, Stmt, TraitItem, TraitItemKind, Ty, Value, Visibility,
};
use hoare::contract::Contract;
use hoare::diag::ErrorKind;
use hoare::dispatch::{debug_postcond, debug_precond, map_annotatble, postcond, precond};
use hoare::extract::make_predicate;

fn n(s: &str) -> Vec<char> {
    s.chars().collect()
}

fn s(v: &Vec<char>) -> String {
    String::from_iter(v.iter())
}

fn quals() -> FnQuals {
    FnQuals { unsafety: false, constness: false, abi: n("Rust") }
}

fn sig() -> MethodSig {
    MethodSig {
        quals: quals(),
        decl: FnDecl { inputs: vec![], output: RetTy::Ty(Ty::Named(n("u8"))) },
    }
}

fn simple_body() -> Block {
    Block { stmts: vec![], tail: Some(Expr::Lit(Value::Int(1))) }
}

fn true_pred() -> Expr {
    Expr::Lit(Value::Bool(true))
}

fn fn_item(name: &str) -> Annotatable {
    Annotatable::Item(Item {
        ident: n(name),
        attrs: vec![],
        vis: Visibility::Public,
        kind: ItemKind::Fn(
            quals(),
            FnDecl { inputs: vec![], output: RetTy::Ty(Ty::Named(n("u8"))) },
            simple_body(),
        ),
    })
}

fn good_attr(kw: &str) -> MetaItem {
    MetaItem::NameValue(n(kw), MetaLit::Str(n("true")))
}

#[test]
fn extractor_accepts_keyword_and_debug_form() {
    assert_eq!(
        make_predicate(&good_attr("precond"), Contract::Precond).unwrap(),
        n("true")
    );
    assert_eq!(
        make_predicate(&good_attr("debug_precond"), Contract::Precond).unwrap(),
        n("true")
    );
    assert_eq!(
        make_predicate(&good_attr("invariant"), Contract::Invariant).unwrap(),
        n("true")
    );
}

#[test]
fn extractor_rejects_wrong_name() {
    let d = make_predicate(&good_attr("postcond"), Contract::Precond).unwrap_err();
    assert_eq!(d.kind, ErrorKind::MalformedContract);
    assert_eq!(s(&d.message), "unexpected name in condition: postcond");
}

#[test]
fn extractor_rejects_non_string_value() {
    let attr = MetaItem::NameValue(n("precond"), MetaLit::IntLit(3));
    let d = make_predicate(&attr, Contract::Precond).unwrap_err();
    assert_eq!(d.kind, ErrorKind::MalformedContract);
    assert_eq!(s(&d.message), "unexpected kind of predicate for condition");
}

#[test]
fn extractor_rejects_word_metadata() {
    let attr = MetaItem::Word(n("precond"));
    let d = make_predicate(&attr, Contract::Precond).unwrap_err();
    assert_eq!(d.kind, ErrorKind::MalformedContract);
    assert_eq!(s(&d.message), "unexpected format of condition");
}

#[test]
fn malformed_contract_leaves_item_unchanged() {
    let attr = MetaItem::NameValue(n("oops"), MetaLit::Str(n("true")));
    let (out, diag) = precond(&attr, true_pred(), fn_item("f"), 0);
    assert_eq!(out, fn_item("f"));
    let d = diag.unwrap();
    assert_eq!(d.kind, ErrorKind::MalformedContract);
    assert_eq!(s(&d.message), "unexpected name in condition: oops");
}

#[test]
fn non_function_item_is_rejected() {
    let item = Annotatable::Item(Item {
        ident: n("S"),
        attrs: vec![],
        vis: Visibility::Public,
        kind: ItemKind::OtherItem,
    });
    let (out, diag) = precond(&good_attr("precond"), true_pred(), item, 0);
    match out {
        Annotatable::Item(it) => assert_eq!(it.kind, ItemKind::OtherItem),
        _ => panic!("shape changed"),
    }
    let d = diag.unwrap();
    assert_eq!(d.kind, ErrorKind::UnsupportedTarget);
    assert_eq!(s(&d.message), "Precondition on non-function item");
}

#[test]
fn bodyless_trait_method_is_rejected_unchanged() {
    let item = Annotatable::TraitItem(TraitItem {
        ident: n("m"),
        attrs: vec![],
        kind: TraitItemKind::Method(sig(), None),
    });
    let expected = Annotatable::TraitItem(TraitItem {
        ident: n("m"),
        attrs: vec![],
        kind: TraitItemKind::Method(sig(), None),
    });
    let (out, diag) = postcond(&good_attr("postcond"), true_pred(), item, 1);
    assert_eq!(out, expected);
    let d = diag.unwrap();
    assert_eq!(d.kind, ErrorKind::UnsupportedTarget);
    assert_eq!(s(&d.message), "Postcondition on non-function trait item");
}

#[test]
fn non_method_impl_item_message() {
    let item = Annotatable::ImplItem(ImplItem {
        ident: n("C"),
        attrs: vec![],
        vis: Visibility::Inherited,
        kind: ImplItemKind::OtherImplItem,
    });
    let (_, diag) = map_annotatble(&good_attr("invariant"), true_pred(), item, Contract::Invariant, 0);
    assert_eq!(
        s(&diag.unwrap().message),
        "Invariant on non-function impl item"
    );
}

#[test]
fn impl_method_and_default_trait_method_are_rewritten() {
    let impl_item = Annotatable::ImplItem(ImplItem {
        ident: n("get"),
        attrs: vec![],
        vis: Visibility::Public,
        kind: ImplItemKind::Method(sig(), simple_body()),
    });
    let (out, diag) = precond(&good_attr("precond"), true_pred(), impl_item, 4);
    assert!(diag.is_none());
    match out {
        Annotatable::ImplItem(it) => match it.kind {
            ImplItemKind::Method(_, b) => assert_eq!(b.stmts.len(), 4),
            _ => panic!("method lost"),
        },
        _ => panic!("shape changed"),
    }

    let trait_item = Annotatable::TraitItem(TraitItem {
        ident: n("m"),
        attrs: vec![],
        kind: TraitItemKind::Method(sig(), Some(simple_body())),
    });
    let (out, diag) = postcond(&good_attr("postcond"), true_pred(), trait_item, 5);
    assert!(diag.is_none());
    match out {
        Annotatable::TraitItem(it) => match it.kind {
            TraitItemKind::Method(_, Some(b)) => {
                assert_eq!(b.stmts.len(), 4);
                assert!(matches!(b.stmts[3], Stmt::Assert(_, _)));
            },
            _ => panic!("body lost"),
        },
        _ => panic!("shape changed"),
    }
}

#[test]
fn debug_variant_is_noop_when_signal_off() {
    let (out, diag) = debug_precond(&good_attr("debug_precond"), true_pred(), fn_item("f"), 0, false);
    assert_eq!(out, fn_item("f"));
    assert!(diag.is_none());
}

#[test]
fn debug_variant_matches_plain_one_when_signal_on() {
    let (a, da) = debug_postcond(
        &good_attr("debug_postcond"),
        Expr::Binary(
            BinOp::CmpGe,
            Box::new(Expr::ResultAlias),
            Box::new(Expr::Lit(Value::Int(0))),
        ),
        fn_item("f"),
        6,
        true,
    );
    let (b, db) = postcond(
        &good_attr("debug_postcond"),
        Expr::Binary(
            BinOp::CmpGe,
            Box::new(Expr::ResultAlias),
            Box::new(Expr::Lit(Value::Int(0))),
        ),
        fn_item("f"),
        6,
    );
    assert_eq!(a, b);
    assert_eq!(da.is_none(), db.is_none());
}

#[test]
fn label_escapes_embedded_quotes() {
    let attr = MetaItem::NameValue(n("precond"), MetaLit::Str(n("x != \"no\"")));
    let (out, diag) = precond(&attr, true_pred(), fn_item("check"), 0);
    assert!(diag.is_none());
    let body = match out {
        Annotatable::Item(it) => match it.kind {
            ItemKind::Fn(_, _, b) => b,
            _ => panic!("not a function"),
        },
        _ => panic!("not an item"),
    };
    match &body.stmts[0] {
        Stmt::Assert(_, label) => {
            assert_eq!(s(label), "Precondition of check (x != \\\"no\\\")");
        },
        _ => panic!("no entry assertion"),
    }
}

#[test]
fn rewrite_counter_hands_out_successive_numbers() {
    let mut c = hoare::dispatch::RewriteCounter::new();
    assert_eq!(c.fresh(), 0);
    assert_eq!(c.fresh(), 1);
    assert_eq!(c.fresh(), 2);
}

#[test]
fn alias_substitution_in_text_is_blind() {
    // The label substitution is textual by design: an occurrence of the
    // alias token inside a longer word is replaced like any other.
    let attr = MetaItem::NameValue(n("postcond"), MetaLit::Str(n("returned > 0")));
    let (out, diag) = postcond(&attr, true_pred(), fn_item("g"), 0);
    assert!(diag.is_none());
    let body = match out {
        Annotatable::Item(it) => match it.kind {
            ItemKind::Fn(_, _, b) => b,
            _ => panic!("not a function"),
        },
        _ => panic!("not an item"),
    };
    match &body.stmts[3] {
        Stmt::Assert(_, label) => {
            assert_eq!(s(label), "Postcondition of g (__result_0ed > 0)");
        }
        _ => panic!("no exit assertion"),
    }
}
