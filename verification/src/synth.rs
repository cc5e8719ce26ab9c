//! The body synthesizer.
//!
//! It assembles the rewritten declaration body: an optional entry assertion,
//! the result slot initialized to "no value yet", the escape region holding
//! the rewritten original body, the defensive unwrap of the slot, an optional
//! exit assertion with the return-alias bound to the captured result, and
//! the captured result as the body's value.

use vstd::prelude::*;
use crate::ast::{
    Block, BlockV, Expr, ExprV, MetaItem, RetTy, RetTyV, Stmt, StmtV, Ty, TyV, Value,
    lemma_view_stmts_push, view_block, view_expr, view_meta, view_opt_expr, view_ret_ty,
    view_stmt, view_stmts,
};
use crate::contract::{Contract, has_postcond_v, has_precond_v, post_kind_v, pre_kind_v, short_kw_v};
use crate::diag::{Diagnostic, ErrorKind};
use crate::extract::{make_predicate, meta_pred_text};
use crate::rewrite::{copy_chars, rewrite_block, rw_block};
use crate::text::{
    assert_label, assert_label_spec, loop_label, loop_label_spec, replace_all, replace_chars,
    result_name, result_name_spec, return_kw,
};

verus! {

/// Whether a declared return type is void: elided, or the empty tuple.
pub open spec fn is_void_v(r: RetTyV) -> bool {
    match r {
        RetTyV::DefaultRet => true,
        RetTyV::Ty(t) => match t {
            TyV::Tup(ts) => ts.len() == 0,
            _ => false,
        },
    }
}

/// `is_void_v`, executably.
pub fn is_void(r: &RetTy) -> (b: bool)
    ensures
        b == is_void_v(view_ret_ty(*r)),
{
    match r {
        RetTy::DefaultRet => true,
        RetTy::Ty(Ty::Tup(ts)) => ts.len() == 0,
        RetTy::Ty(Ty::Named(_)) => false,
    }
}

/// Binds the reserved return-alias of a predicate to the given name.
pub open spec fn subst_alias_v(e: ExprV, name: Seq<char>) -> ExprV
    decreases e,
{
    match e {
        ExprV::ResultAlias => ExprV::Var(name),
        ExprV::SomeOf(b) => ExprV::SomeOf(Box::new(subst_alias_v(*b, name))),
        ExprV::Binary(op, l, r) => ExprV::Binary(
            op,
            Box::new(subst_alias_v(*l, name)),
            Box::new(subst_alias_v(*r, name)),
        ),
        _ => e,
    }
}

/// `subst_alias_v`, executably.
pub fn subst_alias(e: Expr, name: &Vec<char>) -> (r: Expr)
    ensures
        view_expr(r) == subst_alias_v(view_expr(e), name@),
    decreases e,
{
    match e {
        Expr::ResultAlias => Expr::Var(copy_chars(name)),
        Expr::SomeOf(b) => Expr::SomeOf(Box::new(subst_alias(*b, name))),
        Expr::Binary(op, l, r) => Expr::Binary(
            op,
            Box::new(subst_alias(*l, name)),
            Box::new(subst_alias(*r, name)),
        ),
        other => other,
    }
}

/// A deep copy of a value.
pub fn copy_value(v: &Value) -> (r: Value)
    ensures
        r == *v,
    decreases v,
{
    match v {
        Value::Unit => Value::Unit,
        Value::Bool(b) => Value::Bool(*b),
        Value::Int(i) => Value::Int(*i),
        Value::NoneV => Value::NoneV,
        Value::SomeV(b) => Value::SomeV(Box::new(copy_value(b))),
    }
}

/// A deep copy of an expression.
pub fn copy_expr(e: &Expr) -> (r: Expr)
    ensures
        view_expr(r) == view_expr(*e),
    decreases e,
{
    match e {
        Expr::Lit(v) => Expr::Lit(copy_value(v)),
        Expr::Var(n) => Expr::Var(copy_chars(n)),
        Expr::ResultAlias => Expr::ResultAlias,
        Expr::SomeOf(b) => Expr::SomeOf(Box::new(copy_expr(b))),
        Expr::Binary(op, l, r) => Expr::Binary(*op, Box::new(copy_expr(l)), Box::new(copy_expr(r))),
    }
}

/// A contract assertion statement with its user-visible label.
fn assert_stmt(kind: &str, fn_name: &Vec<char>, pred: Expr, pred_text: &Vec<char>) -> (r: Stmt)
    ensures
        view_stmt(r) == StmtV::Assert(
            view_expr(pred),
            assert_label_spec(kind@, fn_name@, pred_text@),
        ),
{
    Stmt::Assert(pred, assert_label(kind, fn_name, pred_text))
}

/// The synthetic final assignment of the escape region: the original body's
/// trailing expression if it has one, the unit value if the return type is
/// void, and nothing otherwise (the rewritten body must then assign the slot
/// through an exit on every path).
pub open spec fn terminate_stmts_v(tail: Option<ExprV>, ret: RetTyV, slot: Seq<char>) -> Seq<
    StmtV,
> {
    match tail {
        Option::Some(e) => seq![StmtV::Assign(slot, ExprV::SomeOf(Box::new(e)))],
        Option::None => if is_void_v(ret) {
            seq![StmtV::Assign(slot, ExprV::SomeOf(Box::new(ExprV::Lit(Value::Unit))))]
        } else {
            Seq::empty()
        },
    }
}

/// The escape region: a single-iteration labeled loop around the rewritten
/// body, its trailing expression turned into a slot assignment, ended by an
/// unconditional exit.
pub open spec fn region_stmt_v(b: BlockV, ret: RetTyV, slot: Seq<char>, lbl: Seq<char>) -> StmtV {
    let rb = rw_block(b, slot, lbl);
    StmtV::Loop(
        Option::Some(lbl),
        BlockV {
            stmts: rb.stmts + terminate_stmts_v(rb.tail, ret, slot) + seq![
                StmtV::Break(Option::Some(lbl)),
            ],
            tail: Option::None,
        },
    )
}

/// `region_stmt_v`, executably: rewrites the body and wraps it.
pub fn make_body(body: Block, ret: &RetTy, slot: &Vec<char>, lbl: &Vec<char>) -> (r: Stmt)
    ensures
        view_stmt(r) == region_stmt_v(view_block(body), view_ret_ty(*ret), slot@, lbl@),
{
    let ghost bv = view_block(body);
    let rb = rewrite_block(body, slot, lbl);
    let ghost rbv = rw_block(bv, slot@, lbl@);
    let ghost rbvv = view_block(rb);
    let Block { stmts, tail } = rb;
    let mut inner = stmts;
    proof {
        assert(rbvv == rbv);
        assert(view_stmts(inner@) == rbv.stmts);
        assert(view_opt_expr(tail) == rbv.tail);
    }
    match tail {
        Option::Some(e) => {
            let ghost before = inner@;
            inner.push(Stmt::Assign(copy_chars(slot), Expr::SomeOf(Box::new(e))));
            proof {
                lemma_view_stmts_push(before, inner@.last());
                assert(view_stmts(inner@) =~= rbv.stmts + terminate_stmts_v(
                    rbv.tail,
                    view_ret_ty(*ret),
                    slot@,
                ));
            }
        },
        Option::None => {
            if is_void(ret) {
                let ghost before = inner@;
                inner.push(
                    Stmt::Assign(copy_chars(slot), Expr::SomeOf(Box::new(Expr::Lit(Value::Unit)))),
                );
                proof {
                    lemma_view_stmts_push(before, inner@.last());
                    assert(view_expr(Expr::Lit(Value::Unit)) == ExprV::Lit(Value::Unit));
                    assert(view_stmt(inner@.last()) == StmtV::Assign(
                        slot@,
                        ExprV::SomeOf(Box::new(ExprV::Lit(Value::Unit))),
                    ));
                    assert(view_stmts(inner@) =~= rbv.stmts + terminate_stmts_v(
                        rbv.tail,
                        view_ret_ty(*ret),
                        slot@,
                    ));
                }
            } else {
                proof {
                    assert(view_stmts(inner@) =~= rbv.stmts + terminate_stmts_v(
                        rbv.tail,
                        view_ret_ty(*ret),
                        slot@,
                    ));
                }
            }
        },
    }
    let ghost mid = inner@;
    inner.push(Stmt::Break(Option::Some(copy_chars(lbl))));
    proof {
        lemma_view_stmts_push(mid, inner@.last());
        assert(view_stmts(inner@) =~= rbv.stmts + terminate_stmts_v(
            rbv.tail,
            view_ret_ty(*ret),
            slot@,
        ) + seq![StmtV::Break(Option::Some(lbl@))]);
    }
    let r = Stmt::Loop(Option::Some(copy_chars(lbl)), Block { stmts: inner, tail: Option::None });
    proof {
        assert(view_stmt(r) =~~= region_stmt_v(bv, view_ret_ty(*ret), slot@, lbl@));
    }
    r
}

/// The whole synthesized body for one contract application.
pub open spec fn synth_body_v(
    c: Contract,
    pred: ExprV,
    pred_text: Seq<char>,
    fn_name: Seq<char>,
    body: BlockV,
    ret: RetTyV,
    run: nat,
) -> BlockV {
    let slot = result_name_spec(run);
    let lbl = loop_label_spec(run);
    let pre_stmts: Seq<StmtV> = if has_precond_v(c) {
        seq![StmtV::Assert(pred, assert_label_spec(pre_kind_v(c), fn_name, pred_text))]
    } else {
        Seq::empty()
    };
    let post_stmts: Seq<StmtV> = if has_postcond_v(c) {
        seq![
            StmtV::Assert(
                subst_alias_v(pred, slot),
                assert_label_spec(post_kind_v(c), fn_name, replace_all(pred_text, "return"@, slot)),
            ),
        ]
    } else {
        Seq::empty()
    };
    BlockV {
        stmts: pre_stmts + seq![
            StmtV::Let(slot, ExprV::Lit(Value::NoneV)),
            region_stmt_v(body, ret, slot, lbl),
            StmtV::Unwrap(slot),
        ] + post_stmts,
        tail: Option::Some(ExprV::Var(slot)),
    }
}

/// Builds the synthesized body from a declaration's name, return type, body
/// and contract metadata.  On malformed metadata the original body comes
/// back untouched beside the diagnostic.
pub fn contract_body(
    ident: &Vec<char>,
    output: &RetTy,
    body: Block,
    attr: &MetaItem,
    parsed_pred: Expr,
    contract: Contract,
    run: u32,
) -> (r: Result<Block, (Block, Diagnostic)>)
    ensures
        match r {
            Result::Ok(b2) => {
                &&& meta_pred_text(view_meta(*attr), short_kw_v(contract)) is Some
                &&& view_block(b2) == synth_body_v(
                    contract,
                    view_expr(parsed_pred),
                    meta_pred_text(view_meta(*attr), short_kw_v(contract)).unwrap(),
                    ident@,
                    view_block(body),
                    view_ret_ty(*output),
                    run as nat,
                )
            },
            Result::Err((b0, d)) => {
                &&& b0 == body
                &&& meta_pred_text(view_meta(*attr), short_kw_v(contract)) is None
                &&& d.kind == ErrorKind::MalformedContract
                &&& d.message@ == crate::extract::malformed_message(
                    view_meta(*attr),
                    short_kw_v(contract),
                )
            },
        },
{
    let pred_text = match make_predicate(attr, contract) {
        Result::Ok(t) => t,
        Result::Err(d) => {
            return Result::Err((body, d));
        },
    };
    let slot = result_name(run);
    let lbl = loop_label(run);
    let ghost predv = view_expr(parsed_pred);
    let mut stmts: Vec<Stmt> = Vec::new();
    let ghost mut pre_stmts: Seq<StmtV> = Seq::empty();
    let has_pre = contract.has_precond();
    let pre = if has_pre {
        Option::Some(copy_expr(&parsed_pred))
    } else {
        Option::None
    };
    match pre {
        Option::Some(p) => {
            let ghost before = stmts@;
            stmts.push(assert_stmt(contract.pre_str(), ident, p, &pred_text));
            proof {
                lemma_view_stmts_push(before, stmts@.last());
                pre_stmts = seq![
                    StmtV::Assert(
                        predv,
                        assert_label_spec(pre_kind_v(contract), ident@, pred_text@),
                    ),
                ];
                assert(view_stmts(stmts@) =~= pre_stmts);
            }
        },
        Option::None => {
            proof {
                assert(view_stmts(stmts@) =~= pre_stmts);
            }
        },
    }
    let ghost after_pre = stmts@;
    stmts.push(Stmt::Let(copy_chars(&slot), Expr::Lit(Value::NoneV)));
    proof {
        lemma_view_stmts_push(after_pre, stmts@.last());
    }
    let ghost after_let = stmts@;
    let ghost bodyv = view_block(body);
    stmts.push(make_body(body, output, &slot, &lbl));
    proof {
        lemma_view_stmts_push(after_let, stmts@.last());
    }
    let ghost after_region = stmts@;
    stmts.push(Stmt::Unwrap(copy_chars(&slot)));
    proof {
        lemma_view_stmts_push(after_region, stmts@.last());
    }
    let ghost after_unwrap = stmts@;
    let ghost mut post_stmts: Seq<StmtV> = Seq::empty();
    if contract.has_postcond() {
        let post_pred = subst_alias(parsed_pred, &slot);
        let rkw = return_kw();
        let post_text = replace_chars(&pred_text, &rkw, &slot);
        let ghost before = stmts@;
        stmts.push(assert_stmt(contract.post_str(), ident, post_pred, &post_text));
        proof {
            lemma_view_stmts_push(before, stmts@.last());
            post_stmts = seq![
                StmtV::Assert(
                    subst_alias_v(predv, result_name_spec(run as nat)),
                    assert_label_spec(
                        post_kind_v(contract),
                        ident@,
                        replace_all(pred_text@, "return"@, result_name_spec(run as nat)),
                    ),
                ),
            ];
        }
    }
    let b = Block { stmts, tail: Option::Some(Expr::Var(copy_chars(&slot))) };
    proof {
        let target = synth_body_v(
            contract,
            predv,
            pred_text@,
            ident@,
            bodyv,
            view_ret_ty(*output),
            run as nat,
        );
        assert(view_stmts(b.stmts@) =~= pre_stmts + seq![
            StmtV::Let(result_name_spec(run as nat), ExprV::Lit(Value::NoneV)),
            region_stmt_v(
                bodyv,
                view_ret_ty(*output),
                result_name_spec(run as nat),
                loop_label_spec(run as nat),
            ),
            StmtV::Unwrap(result_name_spec(run as nat)),
        ] + post_stmts);
        assert(view_block(b) =~~= target);
    }
    Result::Ok(b)
}

} // verus!
