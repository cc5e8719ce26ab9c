//! The library-wide guarantees, stated and proved over the spec-level trees.

use vstd::prelude::*;
use crate::ast::{BlockV, ExprV, StmtV, Value};
use crate::contract::{Contract, has_postcond_v, has_precond_v, post_kind_v, pre_kind_v};
use crate::rewrite::{rw_block, rw_stmt, rw_stmts};
use crate::sem::{
    BStepV, EnvV, Fault, FlowV, StepV, block_uses_label, eval_block, eval_expr, eval_pred,
    eval_stmt, eval_stmts, expr_mentions, lemma_eval_stmts_app, lemma_sim_stmts,
    lemma_subst_alias_eval,
};
use crate::synth::{is_void_v, region_stmt_v, subst_alias_v, synth_body_v, terminate_stmts_v};
use crate::text::{
    assert_label_spec, dec_digits, lemma_dec_digits_inj, loop_label_spec, replace_all,
    result_name_spec,
};
use crate::ast::RetTyV;

verus! {

/// What the synthesized body yields once the captured result `v` and the
/// environment `env2` at the original body's logical endpoint are known:
/// the result itself, unless the exit check has something to say.  The exit
/// predicate sees the alias bound to exactly `v`.
pub open spec fn checked_result(
    c: Contract,
    pred: ExprV,
    text: Seq<char>,
    fn_name: Seq<char>,
    env2: EnvV,
    v: Value,
    run: nat,
) -> BStepV {
    let slot = result_name_spec(run);
    let env4 = env2.insert(slot, v);
    if has_postcond_v(c) {
        match eval_pred(env4, pred, v) {
            Option::Some(Value::Bool(true)) => BStepV::BVal(env4, v),
            Option::Some(Value::Bool(false)) => BStepV::BStuck(
                Fault::ContractFail(
                    assert_label_spec(
                        post_kind_v(c),
                        fn_name,
                        replace_all(text, "return"@, slot),
                    ),
                ),
            ),
            _ => BStepV::BStuck(Fault::EvalFault),
        }
    } else {
        BStepV::BVal(env4, v)
    }
}

/// Transparency, early-exit coverage and postcondition binding.
///
/// Run the original body in the starting environment extended with the
/// fresh, still-empty result slot.  If it completes with value `v` —
/// falling through to its trailing expression, exiting early from any
/// depth, or falling off the end of a void body — then the synthesized
/// body, started after a passing entry check, yields exactly `v`, with the
/// same environment but for the slot, after an exit check that observed
/// exactly `v`; and if the original body gets stuck, the synthesized body
/// gets stuck the same way.
#[verifier::rlimit(60)]
pub proof fn lemma_contract_transparency(
    c: Contract,
    pred: ExprV,
    text: Seq<char>,
    fn_name: Seq<char>,
    body: BlockV,
    ret: RetTyV,
    run: nat,
    env: EnvV,
    fuel: nat,
)
    requires
        fuel > 0,
        !block_uses_label(body, loop_label_spec(run)),
        !expr_mentions(pred, result_name_spec(run)),
        body.tail is None ==> is_void_v(ret),
        has_precond_v(c) ==> eval_expr(env, pred) == Option::Some(Value::Bool(true)),
    ensures
        ({
            let slot = result_name_spec(run);
            let env1 = env.insert(slot, Value::NoneV);
            let out = eval_block(env, synth_body_v(c, pred, text, fn_name, body, ret, run), fuel);
            match eval_block(env1, body, fuel) {
                BStepV::BVal(env2, v) => out == checked_result(
                    c,
                    pred,
                    text,
                    fn_name,
                    env2,
                    v,
                    run,
                ),
                BStepV::BFlow(env2, FlowV::Ret(v)) => out == checked_result(
                    c,
                    pred,
                    text,
                    fn_name,
                    env2,
                    v,
                    run,
                ),
                BStepV::BStuck(f) => out == BStepV::BStuck(f),
                _ => true,
            }
        }),
{
    let slot = result_name_spec(run);
    let lbl = loop_label_spec(run);
    let env1 = env.insert(slot, Value::NoneV);
    let synth = synth_body_v(c, pred, text, fn_name, body, ret, run);
    let pre_stmts: Seq<StmtV> = if has_precond_v(c) {
        seq![StmtV::Assert(pred, assert_label_spec(pre_kind_v(c), fn_name, text))]
    } else {
        Seq::empty()
    };
    let post_stmts: Seq<StmtV> = if has_postcond_v(c) {
        seq![
            StmtV::Assert(
                subst_alias_v(pred, slot),
                assert_label_spec(post_kind_v(c), fn_name, replace_all(text, "return"@, slot)),
            ),
        ]
    } else {
        Seq::empty()
    };
    let region = region_stmt_v(body, ret, slot, lbl);
    let core: Seq<StmtV> = seq![
        StmtV::Let(slot, ExprV::Lit(Value::NoneV)),
        region,
        StmtV::Unwrap(slot),
    ];
    assert(synth.stmts == pre_stmts + core + post_stmts);
    lemma_eval_stmts_app(env, pre_stmts + core, post_stmts, fuel);
    lemma_eval_stmts_app(env, pre_stmts, core, fuel);
    // The entry check, if any, passes and leaves the environment alone.
    if has_precond_v(c) {
        crate::sem::lemma_eval_one(env, pre_stmts[0], fuel);
        assert(eval_stmts(env, pre_stmts, fuel) == StepV::Step(env, FlowV::Normal));
    } else {
        assert(eval_stmts(env, pre_stmts, fuel) == StepV::Step(env, FlowV::Normal));
    }
    // The slot declaration.
    assert(core[0] == StmtV::Let(slot, ExprV::Lit(Value::NoneV)));
    assert(eval_stmt(env, core[0], fuel) == StepV::Step(env1, FlowV::Normal));
    assert(core.drop_first() =~= seq![region, StmtV::Unwrap(slot)]);
    // The escape region around the rewritten body.
    let rb = rw_block(body, slot, lbl);
    let inner = BlockV {
        stmts: rb.stmts + terminate_stmts_v(rb.tail, ret, slot) + seq![
            StmtV::Break(Option::Some(lbl)),
        ],
        tail: Option::None,
    };
    assert(region == StmtV::Loop(Option::Some(lbl), inner));
    lemma_sim_stmts(env1, body.stmts, slot, lbl, fuel);
    lemma_eval_stmts_app(env1, rb.stmts + terminate_stmts_v(rb.tail, ret, slot), seq![
        StmtV::Break(Option::Some(lbl)),
    ], fuel);
    lemma_eval_stmts_app(env1, rb.stmts, terminate_stmts_v(rb.tail, ret, slot), fuel);
    assert(rb.stmts == rw_stmts(body.stmts, slot, lbl));
    assert(rb.tail == body.tail);
    let term = terminate_stmts_v(rb.tail, ret, slot);
    let brk = StmtV::Break(Option::Some(lbl));
    let whole = rb.stmts + term + seq![brk];
    match eval_stmts(env1, body.stmts, fuel) {
        StepV::Step(env2, FlowV::Normal) => {
            // Fall-through: the trailing expression (or the unit value)
            // lands in the slot, then the region is left.
            assert(eval_stmts(env1, rb.stmts, fuel) == StepV::Step(env2, FlowV::Normal));
            match body.tail {
                Option::Some(e) => {
                    let a = StmtV::Assign(slot, ExprV::SomeOf(Box::new(e)));
                    assert(term =~= seq![a]);
                    crate::sem::lemma_eval_one(env2, a, fuel);
                    match eval_expr(env2, e) {
                        Option::Some(v) => {
                            let env3 = env2.insert(slot, Value::SomeV(Box::new(v)));
                            assert(eval_stmts(env2, term, fuel) == StepV::Step(
                                env3,
                                FlowV::Normal,
                            ));
                            crate::sem::lemma_eval_one(env3, brk, fuel);
                            assert(eval_stmts(env1, whole, fuel) == StepV::Step(
                                env3,
                                FlowV::Brk(Option::Some(lbl)),
                            ));
                            assert(eval_block(env1, body, fuel) == BStepV::BVal(env2, v));
                            finish_region(
                                c, pred, text, fn_name, body, ret, run, env, fuel,
                                env2, env3, v,
                            );
                        },
                        Option::None => {
                            assert(eval_block(env1, body, fuel) == BStepV::BStuck(
                                Fault::EvalFault,
                            ));
                            assert(eval_stmts(env2, term, fuel) == StepV::Stuck(
                                Fault::EvalFault,
                            ));
                            assert(eval_stmts(env1, whole, fuel) == StepV::Stuck(
                                Fault::EvalFault,
                            ));
                            finish_region_stuck(
                                c, pred, text, fn_name, body, ret, run, env, fuel,
                                Fault::EvalFault,
                            );
                        },
                    }
                },
                Option::None => {
                    let v = Value::Unit;
                    let env3 = env2.insert(slot, Value::SomeV(Box::new(v)));
                    assert(is_void_v(ret));
                    let a = StmtV::Assign(slot, ExprV::SomeOf(Box::new(ExprV::Lit(Value::Unit))));
                    assert(term =~= seq![a]);
                    crate::sem::lemma_eval_one(env2, a, fuel);
                    assert(eval_expr(env2, ExprV::Lit(Value::Unit)) == Option::Some(Value::Unit));
                    assert(eval_expr(env2, ExprV::SomeOf(Box::new(ExprV::Lit(Value::Unit))))
                        == Option::Some(Value::SomeV(Box::new(Value::Unit))));
                    assert(eval_stmts(env2, term, fuel) == StepV::Step(env3, FlowV::Normal));
                    crate::sem::lemma_eval_one(env3, brk, fuel);
                    assert(eval_stmts(env1, whole, fuel) == StepV::Step(
                        env3,
                        FlowV::Brk(Option::Some(lbl)),
                    ));
                    assert(eval_block(env1, body, fuel) == BStepV::BVal(env2, v));
                    finish_region(
                        c, pred, text, fn_name, body, ret, run, env, fuel, env2, env3, v,
                    );
                },
            }
        },
        StepV::Step(env2, FlowV::Ret(v)) => {
            // An early exit from anywhere in the body: the simulation says
            // the rewritten body recorded `v` and broke out of the region.
            let env3 = env2.insert(slot, Value::SomeV(Box::new(v)));
            assert(eval_stmts(env1, rb.stmts, fuel) == StepV::Step(
                env3,
                FlowV::Brk(Option::Some(lbl)),
            ));
            assert(eval_stmts(env1, whole, fuel) == StepV::Step(
                env3,
                FlowV::Brk(Option::Some(lbl)),
            ));
            assert(eval_block(env1, body, fuel) == BStepV::BFlow(env2, FlowV::Ret(v)));
            finish_region(c, pred, text, fn_name, body, ret, run, env, fuel, env2, env3, v);
        },
        StepV::Step(env2, _) => {
        },
        StepV::Stuck(f) => {
            assert(eval_block(env1, body, fuel) == BStepV::BStuck(f));
            assert(eval_stmts(env1, rb.stmts, fuel) == StepV::Stuck(f));
            assert(eval_stmts(env1, whole, fuel) == StepV::Stuck(f));
            finish_region_stuck(c, pred, text, fn_name, body, ret, run, env, fuel, f);
        },
    }
}

/// From "the region's block got stuck" to the synthesized body's outcome.
#[verifier::rlimit(60)]
proof fn finish_region_stuck(
    c: Contract,
    pred: ExprV,
    text: Seq<char>,
    fn_name: Seq<char>,
    body: BlockV,
    ret: RetTyV,
    run: nat,
    env: EnvV,
    fuel: nat,
    f: Fault,
)
    requires
        fuel > 0,
        has_precond_v(c) ==> eval_expr(env, pred) == Option::Some(Value::Bool(true)),
        ({
            let slot = result_name_spec(run);
            let lbl = loop_label_spec(run);
            let rb = rw_block(body, slot, lbl);
            eval_stmts(
                env.insert(slot, Value::NoneV),
                rb.stmts + terminate_stmts_v(rb.tail, ret, slot) + seq![
                    StmtV::Break(Option::Some(lbl)),
                ],
                fuel,
            ) == StepV::Stuck(f)
        }),
    ensures
        eval_block(env, synth_body_v(c, pred, text, fn_name, body, ret, run), fuel)
            == BStepV::BStuck(f),
{
    let slot = result_name_spec(run);
    let lbl = loop_label_spec(run);
    let env1 = env.insert(slot, Value::NoneV);
    let synth = synth_body_v(c, pred, text, fn_name, body, ret, run);
    let pre_stmts: Seq<StmtV> = if has_precond_v(c) {
        seq![StmtV::Assert(pred, assert_label_spec(pre_kind_v(c), fn_name, text))]
    } else {
        Seq::empty()
    };
    let post_stmts: Seq<StmtV> = if has_postcond_v(c) {
        seq![
            StmtV::Assert(
                subst_alias_v(pred, slot),
                assert_label_spec(post_kind_v(c), fn_name, replace_all(text, "return"@, slot)),
            ),
        ]
    } else {
        Seq::empty()
    };
    let region = region_stmt_v(body, ret, slot, lbl);
    let core: Seq<StmtV> = seq![
        StmtV::Let(slot, ExprV::Lit(Value::NoneV)),
        region,
        StmtV::Unwrap(slot),
    ];
    assert(synth.stmts == pre_stmts + core + post_stmts);
    lemma_eval_stmts_app(env, pre_stmts + core, post_stmts, fuel);
    lemma_eval_stmts_app(env, pre_stmts, core, fuel);
    if has_precond_v(c) {
        crate::sem::lemma_eval_one(env, pre_stmts[0], fuel);
    }
    assert(eval_stmts(env, pre_stmts, fuel) == StepV::Step(env, FlowV::Normal));
    assert(eval_stmt(env, core[0], fuel) == StepV::Step(env1, FlowV::Normal));
    assert(core.drop_first() =~= seq![region, StmtV::Unwrap(slot)]);
    let rb = rw_block(body, slot, lbl);
    let inner = BlockV {
        stmts: rb.stmts + terminate_stmts_v(rb.tail, ret, slot) + seq![
            StmtV::Break(Option::Some(lbl)),
        ],
        tail: Option::None,
    };
    assert(region == StmtV::Loop(Option::Some(lbl), inner));
    assert(eval_block(env1, inner, fuel) == BStepV::BStuck(f));
    assert(eval_stmt(env1, region, fuel) == StepV::Stuck(f));
    crate::sem::lemma_eval_two(env1, region, StmtV::Unwrap(slot), fuel);
    assert(eval_stmts(env1, core.drop_first(), fuel) == StepV::Stuck(f));
    assert(eval_stmts(env, pre_stmts + core, fuel) == StepV::Stuck(f));
}

/// From "the region's block ended with `v` recorded in the slot and the
/// region left" to the synthesized body's final outcome.
#[verifier::rlimit(60)]
proof fn finish_region(
    c: Contract,
    pred: ExprV,
    text: Seq<char>,
    fn_name: Seq<char>,
    body: BlockV,
    ret: RetTyV,
    run: nat,
    env: EnvV,
    fuel: nat,
    env2: EnvV,
    env3: EnvV,
    v: Value,
)
    requires
        fuel > 0,
        !expr_mentions(pred, result_name_spec(run)),
        has_precond_v(c) ==> eval_expr(env, pred) == Option::Some(Value::Bool(true)),
        env3 == env2.insert(result_name_spec(run), Value::SomeV(Box::new(v))),
        ({
            let slot = result_name_spec(run);
            let lbl = loop_label_spec(run);
            let rb = rw_block(body, slot, lbl);
            eval_stmts(
                env.insert(slot, Value::NoneV),
                rb.stmts + terminate_stmts_v(rb.tail, ret, slot) + seq![
                    StmtV::Break(Option::Some(lbl)),
                ],
                fuel,
            ) == StepV::Step(env3, FlowV::Brk(Option::Some(lbl)))
        }),
    ensures
        eval_block(env, synth_body_v(c, pred, text, fn_name, body, ret, run), fuel)
            == checked_result(c, pred, text, fn_name, env2, v, run),
{
    let slot = result_name_spec(run);
    let lbl = loop_label_spec(run);
    let env1 = env.insert(slot, Value::NoneV);
    let synth = synth_body_v(c, pred, text, fn_name, body, ret, run);
    let pre_stmts: Seq<StmtV> = if has_precond_v(c) {
        seq![StmtV::Assert(pred, assert_label_spec(pre_kind_v(c), fn_name, text))]
    } else {
        Seq::empty()
    };
    let post_stmts: Seq<StmtV> = if has_postcond_v(c) {
        seq![
            StmtV::Assert(
                subst_alias_v(pred, slot),
                assert_label_spec(post_kind_v(c), fn_name, replace_all(text, "return"@, slot)),
            ),
        ]
    } else {
        Seq::empty()
    };
    let region = region_stmt_v(body, ret, slot, lbl);
    let core: Seq<StmtV> = seq![
        StmtV::Let(slot, ExprV::Lit(Value::NoneV)),
        region,
        StmtV::Unwrap(slot),
    ];
    assert(synth.stmts == pre_stmts + core + post_stmts);
    lemma_eval_stmts_app(env, pre_stmts + core, post_stmts, fuel);
    lemma_eval_stmts_app(env, pre_stmts, core, fuel);
    if has_precond_v(c) {
        crate::sem::lemma_eval_one(env, pre_stmts[0], fuel);
    }
    assert(eval_stmts(env, pre_stmts, fuel) == StepV::Step(env, FlowV::Normal));
    assert(eval_stmt(env, core[0], fuel) == StepV::Step(env1, FlowV::Normal));
    assert(core.drop_first() =~= seq![region, StmtV::Unwrap(slot)]);
    // The region's loop body flows `Brk(Some(lbl))`, which the region's own
    // label catches: one iteration, then out.
    let rb = rw_block(body, slot, lbl);
    let inner = BlockV {
        stmts: rb.stmts + terminate_stmts_v(rb.tail, ret, slot) + seq![
            StmtV::Break(Option::Some(lbl)),
        ],
        tail: Option::None,
    };
    assert(region == StmtV::Loop(Option::Some(lbl), inner));
    assert(eval_block(env1, inner, fuel) == BStepV::BFlow(env3, FlowV::Brk(Option::Some(lbl))));
    assert(eval_stmt(env1, region, fuel) == StepV::Step(env3, FlowV::Normal));
    // The defensive unwrap finds the recorded value.
    assert(env3.contains_key(slot) && env3[slot] == Value::SomeV(Box::new(v)));
    let env4 = env3.insert(slot, v);
    assert(eval_stmt(env3, StmtV::Unwrap(slot), fuel) == StepV::Step(env4, FlowV::Normal));
    assert(env4 =~= env2.insert(slot, v));
    crate::sem::lemma_eval_two(env1, region, StmtV::Unwrap(slot), fuel);
    assert(eval_stmts(env1, core.drop_first(), fuel) == StepV::Step(env4, FlowV::Normal));
    assert(eval_stmts(env, pre_stmts + core, fuel) == StepV::Step(env4, FlowV::Normal));
    // The exit check, if any, sees the alias bound to exactly `v`.
    if has_postcond_v(c) {
        assert(env4.contains_key(slot) && env4[slot] == v);
        lemma_subst_alias_eval(env4, pred, slot, v);
        crate::sem::lemma_eval_one(env4, post_stmts[0], fuel);
        match eval_pred(env4, pred, v) {
            Option::Some(Value::Bool(true)) => {
                assert(eval_stmts(env4, post_stmts, fuel) == StepV::Step(env4, FlowV::Normal));
                assert(eval_expr(env4, ExprV::Var(slot)) == Option::Some(v));
            },
            _ => {
            },
        }
    } else {
        assert(eval_stmts(env4, post_stmts, fuel) == StepV::Step(env4, FlowV::Normal));
        assert(eval_expr(env4, ExprV::Var(slot)) == Option::Some(v));
    }
}

/// Transparency against the declaration as the caller sees it: when the
/// synthesized slot name is genuinely fresh — the body neither mentions it
/// nor uses the escape label, as the instance counter guarantees — the
/// rewritten declaration yields exactly what the original body yields in
/// the same starting environment, with the same effects on every name but
/// the slot; with an always-true predicate the checks change nothing.
pub proof fn lemma_transparency_fresh_slot(
    c: Contract,
    pred: ExprV,
    text: Seq<char>,
    fn_name: Seq<char>,
    body: BlockV,
    ret: RetTyV,
    run: nat,
    env: EnvV,
    fuel: nat,
)
    requires
        fuel > 0,
        !block_uses_label(body, loop_label_spec(run)),
        !crate::sem::block_mentions(body, result_name_spec(run)),
        !expr_mentions(pred, result_name_spec(run)),
        body.tail is None ==> is_void_v(ret),
        has_precond_v(c) ==> eval_expr(env, pred) == Option::Some(Value::Bool(true)),
    ensures
        ({
            let out = eval_block(env, synth_body_v(c, pred, text, fn_name, body, ret, run), fuel);
            match eval_block(env, body, fuel) {
                BStepV::BVal(env2, v) => out == checked_result(
                    c,
                    pred,
                    text,
                    fn_name,
                    env2,
                    v,
                    run,
                ),
                BStepV::BFlow(env2, FlowV::Ret(v)) => out == checked_result(
                    c,
                    pred,
                    text,
                    fn_name,
                    env2,
                    v,
                    run,
                ),
                BStepV::BStuck(f) => out == BStepV::BStuck(f),
                _ => true,
            }
        }),
{
    let slot = result_name_spec(run);
    crate::sem::lemma_frame_block(env, body, slot, Value::NoneV, fuel);
    lemma_contract_transparency(c, pred, text, fn_name, body, ret, run, env, fuel);
    match eval_block(env, body, fuel) {
        BStepV::BVal(env2, v) => {
            assert(env2.insert(slot, Value::NoneV).insert(slot, v) =~= env2.insert(slot, v));
        },
        BStepV::BFlow(env2, FlowV::Ret(v)) => {
            assert(env2.insert(slot, Value::NoneV).insert(slot, v) =~= env2.insert(slot, v));
        },
        _ => (),
    }
}

/// Precondition ordering: when the entry check fails, the synthesized body
/// stops with exactly that check's label, before any statement of the
/// original body has run and with the environment untouched.
pub proof fn lemma_precondition_first(
    c: Contract,
    pred: ExprV,
    text: Seq<char>,
    fn_name: Seq<char>,
    body: BlockV,
    ret: RetTyV,
    run: nat,
    env: EnvV,
    fuel: nat,
)
    requires
        has_precond_v(c),
        eval_expr(env, pred) == Option::Some(Value::Bool(false)),
    ensures
        eval_block(env, synth_body_v(c, pred, text, fn_name, body, ret, run), fuel)
            == BStepV::BStuck(
            Fault::ContractFail(assert_label_spec(pre_kind_v(c), fn_name, text)),
        ),
{
    let slot = result_name_spec(run);
    let lbl = loop_label_spec(run);
    let synth = synth_body_v(c, pred, text, fn_name, body, ret, run);
    let pre = StmtV::Assert(pred, assert_label_spec(pre_kind_v(c), fn_name, text));
    assert(synth.stmts[0] == pre);
    assert(eval_stmt(env, pre, fuel) == StepV::Stuck(
        Fault::ContractFail(assert_label_spec(pre_kind_v(c), fn_name, text)),
    ));
}

/// Whether a statement still holds an early exit of the enclosing
/// declaration.  Exits inside nested function-like definitions belong to
/// their own scope and do not count.
pub open spec fn stmt_has_exit(s: StmtV) -> bool
    decreases s,
{
    match s {
        StmtV::Ret(_) => true,
        StmtV::If(_, t, e) => block_has_exit(t) || match e {
            Option::Some(b) => block_has_exit(b),
            Option::None => false,
        },
        StmtV::While(_, b) => block_has_exit(b),
        StmtV::Loop(_, b) => block_has_exit(b),
        StmtV::BlockStmt(b) => block_has_exit(b),
        _ => false,
    }
}

/// Whether any statement of a block still holds an early exit.
pub open spec fn blocks_have_exit(ss: Seq<StmtV>) -> bool
    decreases ss,
{
    if ss.len() == 0 {
        false
    } else {
        blocks_have_exit(ss.drop_last()) || stmt_has_exit(ss.last())
    }
}

pub open spec fn block_has_exit(b: BlockV) -> bool
    decreases b,
{
    blocks_have_exit(b.stmts)
}

/// Early-exit coverage, structurally: however deeply an exit is nested in
/// conditionals, loops and blocks, none survives the rewrite — each has
/// become a slot assignment followed by an exit of the escape region.
pub proof fn lemma_rw_removes_exits(s: StmtV, slot: Seq<char>, lbl: Seq<char>)
    ensures
        !stmt_has_exit(rw_stmt(s, slot, lbl)),
    decreases s,
{
    match s {
        StmtV::Ret(_) => {
            let r = rw_stmt(s, slot, lbl);
            match r {
                StmtV::BlockStmt(b) => {
                    assert(b.stmts.len() == 2);
                    assert(b.stmts.drop_last() =~= seq![b.stmts[0]]);
                    assert(seq![b.stmts[0]].drop_last() =~= Seq::<StmtV>::empty());
                    assert(!stmt_has_exit(b.stmts[0]));
                    assert(!stmt_has_exit(b.stmts.last()));
                    assert(!blocks_have_exit(Seq::<StmtV>::empty()));
                    assert(!blocks_have_exit(seq![b.stmts[0]]));
                    assert(!blocks_have_exit(b.stmts));
                },
                _ => {
                    assert(false);
                },
            }
        },
        StmtV::If(_, t, e) => {
            lemma_rw_removes_exits_block(t, slot, lbl);
            match e {
                Option::Some(b) => lemma_rw_removes_exits_block(b, slot, lbl),
                Option::None => (),
            }
        },
        StmtV::While(_, b) => lemma_rw_removes_exits_block(b, slot, lbl),
        StmtV::Loop(_, b) => lemma_rw_removes_exits_block(b, slot, lbl),
        StmtV::BlockStmt(b) => lemma_rw_removes_exits_block(b, slot, lbl),
        _ => (),
    }
}

pub proof fn lemma_rw_removes_exits_seq(ss: Seq<StmtV>, slot: Seq<char>, lbl: Seq<char>)
    ensures
        !blocks_have_exit(rw_stmts(ss, slot, lbl)),
    decreases ss,
{
    if ss.len() > 0 {
        lemma_rw_removes_exits_seq(ss.drop_last(), slot, lbl);
        lemma_rw_removes_exits(ss.last(), slot, lbl);
        let r = rw_stmts(ss, slot, lbl);
        assert(r.drop_last() =~= rw_stmts(ss.drop_last(), slot, lbl));
    }
}

pub proof fn lemma_rw_removes_exits_block(b: BlockV, slot: Seq<char>, lbl: Seq<char>)
    ensures
        !block_has_exit(rw_block(b, slot, lbl)),
    decreases b,
{
    lemma_rw_removes_exits_seq(b.stmts, slot, lbl);
}

/// A nested function-like definition passes through the rewrite untouched:
/// its own exits keep their meaning.
pub proof fn lemma_rw_keeps_nested_fn(n: Seq<char>, b: BlockV, slot: Seq<char>, lbl: Seq<char>)
    ensures
        rw_stmt(StmtV::NestedFn(n, b), slot, lbl) == StmtV::NestedFn(n, b),
{
}

/// Void handling: a body with no trailing expression and a void return type
/// gets a synthetic unit assignment into the slot, so no explicit exit
/// statement is needed for the slot to be filled.
pub proof fn lemma_void_body_gets_unit(b: BlockV, ret: RetTyV, slot: Seq<char>, lbl: Seq<char>)
    requires
        b.tail is None,
        is_void_v(ret),
    ensures
        region_stmt_v(b, ret, slot, lbl) == StmtV::Loop(
            Option::Some(lbl),
            BlockV {
                stmts: rw_block(b, slot, lbl).stmts + seq![
                    StmtV::Assign(slot, ExprV::SomeOf(Box::new(ExprV::Lit(Value::Unit)))),
                    StmtV::Break(Option::Some(lbl)),
                ],
                tail: Option::None,
            },
        ),
{
    let rb = rw_block(b, slot, lbl);
    assert(rb.tail is None);
    assert(terminate_stmts_v(rb.tail, ret, slot) + seq![StmtV::Break(Option::Some(lbl))] =~= seq![
        StmtV::Assign(slot, ExprV::SomeOf(Box::new(ExprV::Lit(Value::Unit)))),
        StmtV::Break(Option::Some(lbl)),
    ]);
    assert(rb.stmts + terminate_stmts_v(rb.tail, ret, slot) + seq![
        StmtV::Break(Option::Some(lbl)),
    ] =~= rb.stmts + (terminate_stmts_v(rb.tail, ret, slot) + seq![
        StmtV::Break(Option::Some(lbl)),
    ]));
}

proof fn lemma_prefixed_name_inj(p: Seq<char>, r1: nat, r2: nat)
    requires
        p + dec_digits(r1) == p + dec_digits(r2),
    ensures
        r1 == r2,
{
    let a = dec_digits(r1);
    let b = dec_digits(r2);
    assert((p + a).len() == (p + b).len());
    assert(a.len() == b.len());
    assert(a =~= b) by {
        assert(forall|i: int|
            0 <= i < a.len() ==> a[i] == (p + a)[p.len() + i] && b[i] == (p + b)[p.len() + i]);
    }
    lemma_dec_digits_inj(r1, r2);
}

/// Name non-collision: distinct rewrite instances never share a result-slot
/// name or an escape-region label, and a slot name is never a region label.
pub proof fn lemma_fresh_names_distinct(r1: nat, r2: nat)
    ensures
        r1 != r2 ==> result_name_spec(r1) != result_name_spec(r2),
        r1 != r2 ==> loop_label_spec(r1) != loop_label_spec(r2),
        result_name_spec(r1) != loop_label_spec(r2),
{
    if result_name_spec(r1) == result_name_spec(r2) {
        lemma_prefixed_name_inj("__result_"@, r1, r2);
    }
    if loop_label_spec(r1) == loop_label_spec(r2) {
        lemma_prefixed_name_inj("'__hoare_"@, r1, r2);
    }
    assert(result_name_spec(r1) != loop_label_spec(r2)) by {
        reveal_strlit("__result_");
        reveal_strlit("'__hoare_");
        assert(result_name_spec(r1)[0] == '_');
        assert(loop_label_spec(r2)[0] == '\'');
    }
}

} // verus!
