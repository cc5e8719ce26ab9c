//! A big-step semantics for the modeled language.
//!
//! The transformation's guarantees — transparency, early-exit coverage,
//! precondition ordering, postcondition binding — are statements about what
//! a rewritten body does when it runs, so the spec trees get an evaluator:
//! environments map names to values, statements step the environment and
//! produce a control flow, loops spend fuel, and a stuck evaluation tells a
//! failed contract check apart from a missing slot value or a plain fault.

use vstd::prelude::*;
use crate::ast::{BinOp, BlockV, ExprV, StmtV, Value};

verus! {

/// A runtime environment.
pub type EnvV = Map<Seq<char>, Value>;

/// Why an evaluation stopped without an outcome.
pub enum Fault {
    /// An expression had no value: an unbound name, an unbound return-alias,
    /// an ill-typed operation, overflow, division by zero.
    EvalFault,
    /// A contract assertion evaluated to false; carries its label.
    ContractFail(Seq<char>),
    /// The defensive unwrap saw no captured value: a rewriter bug, kept
    /// distinct from every user-facing contract violation.
    SlotFault,
    /// The fuel bound on loop iterations ran out.
    OutOfFuel,
}

/// Control flow after a statement.
pub enum FlowV {
    Normal,
    Brk(Option<Seq<char>>),
    Cont(Option<Seq<char>>),
    Ret(Value),
}

/// The outcome of a statement or statement sequence.
pub enum StepV {
    Step(EnvV, FlowV),
    Stuck(Fault),
}

/// The outcome of a block: a value on normal completion.
pub enum BStepV {
    BVal(EnvV, Value),
    BFlow(EnvV, FlowV),
    BStuck(Fault),
}

pub open spec fn eval_binop(op: BinOp, a: Value, b: Value) -> Option<Value> {
    match (op, a, b) {
        (BinOp::Add, Value::Int(x), Value::Int(y)) => if i64::MIN <= x + y <= i64::MAX {
            Option::Some(Value::Int((x + y) as i64))
        } else {
            Option::None
        },
        (BinOp::Sub, Value::Int(x), Value::Int(y)) => if i64::MIN <= x - y <= i64::MAX {
            Option::Some(Value::Int((x - y) as i64))
        } else {
            Option::None
        },
        (BinOp::Div, Value::Int(x), Value::Int(y)) => if y == 0 || !(i64::MIN <= x as int
            / y as int <= i64::MAX) {
            Option::None
        } else {
            Option::Some(Value::Int((x as int / y as int) as i64))
        },
        (BinOp::CmpEq, a, b) => Option::Some(Value::Bool(a == b)),
        (BinOp::CmpNe, a, b) => Option::Some(Value::Bool(a != b)),
        (BinOp::CmpLe, Value::Int(x), Value::Int(y)) => Option::Some(Value::Bool(x <= y)),
        (BinOp::CmpLt, Value::Int(x), Value::Int(y)) => Option::Some(Value::Bool(x < y)),
        (BinOp::CmpGe, Value::Int(x), Value::Int(y)) => Option::Some(Value::Bool(x >= y)),
        (BinOp::CmpGt, Value::Int(x), Value::Int(y)) => Option::Some(Value::Bool(x > y)),
        (BinOp::And, Value::Bool(x), Value::Bool(y)) => Option::Some(Value::Bool(x && y)),
        (BinOp::Or, Value::Bool(x), Value::Bool(y)) => Option::Some(Value::Bool(x || y)),
        _ => Option::None,
    }
}

/// Pure expression evaluation.  The reserved return-alias has no value of
/// its own: it must have been substituted away before the predicate runs.
pub open spec fn eval_expr(env: EnvV, e: ExprV) -> Option<Value>
    decreases e,
{
    match e {
        ExprV::Lit(v) => Option::Some(v),
        ExprV::Var(n) => if env.contains_key(n) {
            Option::Some(env[n])
        } else {
            Option::None
        },
        ExprV::ResultAlias => Option::None,
        ExprV::SomeOf(b) => match eval_expr(env, *b) {
            Option::Some(v) => Option::Some(Value::SomeV(Box::new(v))),
            Option::None => Option::None,
        },
        ExprV::Binary(op, l, r) => match (eval_expr(env, *l), eval_expr(env, *r)) {
            (Option::Some(a), Option::Some(b)) => eval_binop(op, a, b),
            _ => Option::None,
        },
    }
}

/// Evaluation of a statement.  Fuel bounds loop iterations only.
pub open spec fn eval_stmt(env: EnvV, s: StmtV, fuel: nat) -> StepV
    decreases fuel, s,
{
    match s {
        StmtV::Let(n, e) => match eval_expr(env, e) {
            Option::Some(v) => StepV::Step(env.insert(n, v), FlowV::Normal),
            Option::None => StepV::Stuck(Fault::EvalFault),
        },
        StmtV::Assign(n, e) => match eval_expr(env, e) {
            Option::Some(v) => StepV::Step(env.insert(n, v), FlowV::Normal),
            Option::None => StepV::Stuck(Fault::EvalFault),
        },
        StmtV::Semi(e) => match eval_expr(env, e) {
            Option::Some(_) => StepV::Step(env, FlowV::Normal),
            Option::None => StepV::Stuck(Fault::EvalFault),
        },
        StmtV::If(c, t, els) => match eval_expr(env, c) {
            Option::Some(Value::Bool(true)) => discard_value(eval_block(env, t, fuel)),
            Option::Some(Value::Bool(false)) => match els {
                Option::Some(b) => discard_value(eval_block(env, b, fuel)),
                Option::None => StepV::Step(env, FlowV::Normal),
            },
            _ => StepV::Stuck(Fault::EvalFault),
        },
        StmtV::While(c, b) => match eval_expr(env, c) {
            Option::Some(Value::Bool(false)) => StepV::Step(env, FlowV::Normal),
            Option::Some(Value::Bool(true)) => if fuel == 0 {
                StepV::Stuck(Fault::OutOfFuel)
            } else {
                match eval_block(env, b, fuel) {
                    BStepV::BVal(env2, _) => eval_stmt(env2, s, (fuel - 1) as nat),
                    BStepV::BFlow(env2, FlowV::Normal) => eval_stmt(env2, s, (fuel - 1) as nat),
                    BStepV::BFlow(env2, FlowV::Cont(Option::None)) => eval_stmt(
                        env2,
                        s,
                        (fuel - 1) as nat,
                    ),
                    BStepV::BFlow(env2, FlowV::Brk(Option::None)) => StepV::Step(
                        env2,
                        FlowV::Normal,
                    ),
                    BStepV::BFlow(env2, f) => StepV::Step(env2, f),
                    BStepV::BStuck(f) => StepV::Stuck(f),
                }
            },
            _ => StepV::Stuck(Fault::EvalFault),
        },
        StmtV::Loop(lab, b) => if fuel == 0 {
            StepV::Stuck(Fault::OutOfFuel)
        } else {
            match eval_block(env, b, fuel) {
                BStepV::BVal(env2, _) => eval_stmt(env2, s, (fuel - 1) as nat),
                BStepV::BFlow(env2, FlowV::Normal) => eval_stmt(env2, s, (fuel - 1) as nat),
                BStepV::BFlow(env2, FlowV::Cont(Option::None)) => eval_stmt(
                    env2,
                    s,
                    (fuel - 1) as nat,
                ),
                BStepV::BFlow(env2, FlowV::Cont(Option::Some(l))) => if lab
                    == Option::Some(l) {
                    eval_stmt(env2, s, (fuel - 1) as nat)
                } else {
                    StepV::Step(env2, FlowV::Cont(Option::Some(l)))
                },
                BStepV::BFlow(env2, FlowV::Brk(Option::None)) => StepV::Step(
                    env2,
                    FlowV::Normal,
                ),
                BStepV::BFlow(env2, FlowV::Brk(Option::Some(l))) => if lab
                    == Option::Some(l) {
                    StepV::Step(env2, FlowV::Normal)
                } else {
                    StepV::Step(env2, FlowV::Brk(Option::Some(l)))
                },
                BStepV::BFlow(env2, f) => StepV::Step(env2, f),
                BStepV::BStuck(f) => StepV::Stuck(f),
            }
        },
        StmtV::Break(l) => StepV::Step(env, FlowV::Brk(l)),
        StmtV::Continue(l) => StepV::Step(env, FlowV::Cont(l)),
        StmtV::Ret(Option::Some(e)) => match eval_expr(env, e) {
            Option::Some(v) => StepV::Step(env, FlowV::Ret(v)),
            Option::None => StepV::Stuck(Fault::EvalFault),
        },
        StmtV::Ret(Option::None) => StepV::Step(env, FlowV::Ret(Value::Unit)),
        StmtV::BlockStmt(b) => discard_value(eval_block(env, b, fuel)),
        StmtV::NestedFn(_, _) => StepV::Step(env, FlowV::Normal),
        StmtV::Assert(e, lbl) => match eval_expr(env, e) {
            Option::Some(Value::Bool(true)) => StepV::Step(env, FlowV::Normal),
            Option::Some(Value::Bool(false)) => StepV::Stuck(Fault::ContractFail(lbl)),
            _ => StepV::Stuck(Fault::EvalFault),
        },
        StmtV::Unwrap(n) => if env.contains_key(n) {
            match env[n] {
                Value::SomeV(v) => StepV::Step(env.insert(n, *v), FlowV::Normal),
                _ => StepV::Stuck(Fault::SlotFault),
            }
        } else {
            StepV::Stuck(Fault::SlotFault)
        },
    }
}

/// A block used as a statement: its value is dropped.
pub open spec fn discard_value(o: BStepV) -> StepV {
    match o {
        BStepV::BVal(env, _) => StepV::Step(env, FlowV::Normal),
        BStepV::BFlow(env, f) => StepV::Step(env, f),
        BStepV::BStuck(f) => StepV::Stuck(f),
    }
}

/// Sequential evaluation of statements.
pub open spec fn eval_stmts(env: EnvV, ss: Seq<StmtV>, fuel: nat) -> StepV
    decreases fuel, ss,
{
    if ss.len() == 0 {
        StepV::Step(env, FlowV::Normal)
    } else {
        match eval_stmt(env, ss[0], fuel) {
            StepV::Step(env2, FlowV::Normal) => eval_stmts(env2, ss.drop_first(), fuel),
            other => other,
        }
    }
}

/// Evaluation of a block: statements first, then the trailing expression.
pub open spec fn eval_block(env: EnvV, b: BlockV, fuel: nat) -> BStepV
    decreases fuel, b,
{
    match eval_stmts(env, b.stmts, fuel) {
        StepV::Step(env2, FlowV::Normal) => match b.tail {
            Option::Some(e) => match eval_expr(env2, e) {
                Option::Some(v) => BStepV::BVal(env2, v),
                Option::None => BStepV::BStuck(Fault::EvalFault),
            },
            Option::None => BStepV::BVal(env2, Value::Unit),
        },
        StepV::Step(env2, f) => BStepV::BFlow(env2, f),
        StepV::Stuck(f) => BStepV::BStuck(f),
    }
}

/// Predicate evaluation with the reserved return-alias bound to `r`.
pub open spec fn eval_pred(env: EnvV, e: ExprV, r: Value) -> Option<Value>
    decreases e,
{
    match e {
        ExprV::Lit(v) => Option::Some(v),
        ExprV::Var(n) => if env.contains_key(n) {
            Option::Some(env[n])
        } else {
            Option::None
        },
        ExprV::ResultAlias => Option::Some(r),
        ExprV::SomeOf(b) => match eval_pred(env, *b, r) {
            Option::Some(v) => Option::Some(Value::SomeV(Box::new(v))),
            Option::None => Option::None,
        },
        ExprV::Binary(op, l, rr) => match (eval_pred(env, *l, r), eval_pred(env, *rr, r)) {
            (Option::Some(a), Option::Some(b)) => eval_binop(op, a, b),
            _ => Option::None,
        },
    }
}

/// Whether an expression reads a name.
pub open spec fn expr_mentions(e: ExprV, x: Seq<char>) -> bool
    decreases e,
{
    match e {
        ExprV::Var(n) => n == x,
        ExprV::SomeOf(b) => expr_mentions(*b, x),
        ExprV::Binary(_, l, r) => expr_mentions(*l, x) || expr_mentions(*r, x),
        _ => false,
    }
}

/// Whether a statement reads or writes a name, anywhere in it.
pub open spec fn stmt_mentions(s: StmtV, x: Seq<char>) -> bool
    decreases s,
{
    match s {
        StmtV::Let(n, e) => n == x || expr_mentions(e, x),
        StmtV::Assign(n, e) => n == x || expr_mentions(e, x),
        StmtV::Semi(e) => expr_mentions(e, x),
        StmtV::If(c, t, els) => expr_mentions(c, x) || block_mentions(t, x) || match els {
            Option::Some(b) => block_mentions(b, x),
            Option::None => false,
        },
        StmtV::While(c, b) => expr_mentions(c, x) || block_mentions(b, x),
        StmtV::Loop(_, b) => block_mentions(b, x),
        StmtV::Ret(Option::Some(e)) => expr_mentions(e, x),
        StmtV::BlockStmt(b) => block_mentions(b, x),
        StmtV::NestedFn(_, b) => block_mentions(b, x),
        StmtV::Assert(e, _) => expr_mentions(e, x),
        StmtV::Unwrap(n) => n == x,
        _ => false,
    }
}

pub open spec fn stmts_mention(ss: Seq<StmtV>, x: Seq<char>) -> bool
    decreases ss,
{
    if ss.len() == 0 {
        false
    } else {
        stmt_mentions(ss[0], x) || stmts_mention(ss.drop_first(), x)
    }
}

pub open spec fn block_mentions(b: BlockV, x: Seq<char>) -> bool
    decreases b,
{
    stmts_mention(b.stmts, x) || match b.tail {
        Option::Some(e) => expr_mentions(e, x),
        Option::None => false,
    }
}

/// A binding for a name an expression never reads is invisible to it.
pub proof fn lemma_frame_expr(env: EnvV, e: ExprV, x: Seq<char>, w: Value)
    requires
        !expr_mentions(e, x),
    ensures
        eval_expr(env.insert(x, w), e) == eval_expr(env, e),
    decreases e,
{
    match e {
        ExprV::SomeOf(b) => {
            lemma_frame_expr(env, *b, x, w);
        },
        ExprV::Binary(_, l, r) => {
            lemma_frame_expr(env, *l, x, w);
            lemma_frame_expr(env, *r, x, w);
        },
        _ => (),
    }
}

/// What an outcome looks like with one extra, untouched binding.
pub open spec fn frame_step(o: StepV, x: Seq<char>, w: Value) -> StepV {
    match o {
        StepV::Step(env2, f) => StepV::Step(env2.insert(x, w), f),
        StepV::Stuck(f) => StepV::Stuck(f),
    }
}

pub open spec fn frame_bstep(o: BStepV, x: Seq<char>, w: Value) -> BStepV {
    match o {
        BStepV::BVal(env2, v) => BStepV::BVal(env2.insert(x, w), v),
        BStepV::BFlow(env2, f) => BStepV::BFlow(env2.insert(x, w), f),
        BStepV::BStuck(f) => BStepV::BStuck(f),
    }
}

/// The frame property: a binding for a name a statement never mentions
/// rides along unchanged and changes nothing else.
#[verifier::rlimit(60)]
pub proof fn lemma_frame_stmt(env: EnvV, s: StmtV, x: Seq<char>, w: Value, fuel: nat)
    requires
        !stmt_mentions(s, x),
    ensures
        eval_stmt(env.insert(x, w), s, fuel) == frame_step(eval_stmt(env, s, fuel), x, w),
    decreases fuel, s,
{
    let envx = env.insert(x, w);
    match s {
        StmtV::Let(n, e) => {
            lemma_frame_expr(env, e, x, w);
            match eval_expr(env, e) {
                Option::Some(v) => {
                    assert(envx.insert(n, v) =~= env.insert(n, v).insert(x, w));
                },
                Option::None => (),
            }
        },
        StmtV::Assign(n, e) => {
            lemma_frame_expr(env, e, x, w);
            match eval_expr(env, e) {
                Option::Some(v) => {
                    assert(envx.insert(n, v) =~= env.insert(n, v).insert(x, w));
                },
                Option::None => (),
            }
        },
        StmtV::Semi(e) => {
            lemma_frame_expr(env, e, x, w);
        },
        StmtV::If(c, t, els) => {
            lemma_frame_expr(env, c, x, w);
            match eval_expr(env, c) {
                Option::Some(Value::Bool(true)) => {
                    lemma_frame_block(env, t, x, w, fuel);
                },
                Option::Some(Value::Bool(false)) => {
                    match els {
                        Option::Some(b) => {
                            lemma_frame_block(env, b, x, w, fuel);
                        },
                        Option::None => (),
                    }
                },
                _ => (),
            }
        },
        StmtV::While(c, b) => {
            lemma_frame_expr(env, c, x, w);
            match eval_expr(env, c) {
                Option::Some(Value::Bool(true)) => {
                    if fuel > 0 {
                        lemma_frame_block(env, b, x, w, fuel);
                        match eval_block(env, b, fuel) {
                            BStepV::BVal(env2, _) => {
                                lemma_frame_stmt(env2, s, x, w, (fuel - 1) as nat);
                            },
                            BStepV::BFlow(env2, FlowV::Normal) => {
                                lemma_frame_stmt(env2, s, x, w, (fuel - 1) as nat);
                            },
                            BStepV::BFlow(env2, FlowV::Cont(Option::None)) => {
                                lemma_frame_stmt(env2, s, x, w, (fuel - 1) as nat);
                            },
                            _ => (),
                        }
                    }
                },
                _ => (),
            }
        },
        StmtV::Loop(lab, b) => {
            if fuel > 0 {
                lemma_frame_block(env, b, x, w, fuel);
                match eval_block(env, b, fuel) {
                    BStepV::BVal(env2, _) => {
                        lemma_frame_stmt(env2, s, x, w, (fuel - 1) as nat);
                    },
                    BStepV::BFlow(env2, FlowV::Normal) => {
                        lemma_frame_stmt(env2, s, x, w, (fuel - 1) as nat);
                    },
                    BStepV::BFlow(env2, FlowV::Cont(Option::None)) => {
                        lemma_frame_stmt(env2, s, x, w, (fuel - 1) as nat);
                    },
                    BStepV::BFlow(env2, FlowV::Cont(Option::Some(l2))) => {
                        if lab == Option::Some(l2) {
                            lemma_frame_stmt(env2, s, x, w, (fuel - 1) as nat);
                        }
                    },
                    _ => (),
                }
            }
        },
        StmtV::Ret(oe) => {
            match oe {
                Option::Some(e) => {
                    lemma_frame_expr(env, e, x, w);
                },
                Option::None => (),
            }
        },
        StmtV::BlockStmt(b) => {
            lemma_frame_block(env, b, x, w, fuel);
        },
        StmtV::Assert(e, _) => {
            lemma_frame_expr(env, e, x, w);
        },
        StmtV::Unwrap(n) => {
            if env.contains_key(n) {
                match env[n] {
                    Value::SomeV(v) => {
                        assert(envx.insert(n, *v) =~= env.insert(n, *v).insert(x, w));
                    },
                    _ => (),
                }
            }
        },
        _ => (),
    }
}

pub proof fn lemma_frame_stmts(env: EnvV, ss: Seq<StmtV>, x: Seq<char>, w: Value, fuel: nat)
    requires
        !stmts_mention(ss, x),
    ensures
        eval_stmts(env.insert(x, w), ss, fuel) == frame_step(eval_stmts(env, ss, fuel), x, w),
    decreases fuel, ss,
{
    if ss.len() > 0 {
        lemma_frame_stmt(env, ss[0], x, w, fuel);
        match eval_stmt(env, ss[0], fuel) {
            StepV::Step(env2, FlowV::Normal) => {
                lemma_frame_stmts(env2, ss.drop_first(), x, w, fuel);
            },
            _ => (),
        }
    }
}

pub proof fn lemma_frame_block(env: EnvV, b: BlockV, x: Seq<char>, w: Value, fuel: nat)
    requires
        !block_mentions(b, x),
    ensures
        eval_block(env.insert(x, w), b, fuel) == frame_bstep(eval_block(env, b, fuel), x, w),
    decreases fuel, b,
{
    lemma_frame_stmts(env, b.stmts, x, w, fuel);
    match eval_stmts(env, b.stmts, fuel) {
        StepV::Step(env2, FlowV::Normal) => {
            match b.tail {
                Option::Some(e) => {
                    lemma_frame_expr(env2, e, x, w);
                },
                Option::None => (),
            }
        },
        _ => (),
    }
}

/// Whether a statement uses a label: as a loop's own label or as the target
/// of a `break`/`continue`.  The escape region's label must be fresh.
pub open spec fn stmt_uses_label(s: StmtV, l: Seq<char>) -> bool
    decreases s,
{
    match s {
        StmtV::If(_, t, els) => block_uses_label(t, l) || match els {
            Option::Some(b) => block_uses_label(b, l),
            Option::None => false,
        },
        StmtV::While(_, b) => block_uses_label(b, l),
        StmtV::Loop(lab, b) => lab == Option::Some(l) || block_uses_label(b, l),
        StmtV::Break(lab) => lab == Option::Some(l),
        StmtV::Continue(lab) => lab == Option::Some(l),
        StmtV::BlockStmt(b) => block_uses_label(b, l),
        StmtV::NestedFn(_, b) => block_uses_label(b, l),
        _ => false,
    }
}

pub open spec fn stmts_use_label(ss: Seq<StmtV>, l: Seq<char>) -> bool
    decreases ss,
{
    if ss.len() == 0 {
        false
    } else {
        stmt_uses_label(ss[0], l) || stmts_use_label(ss.drop_first(), l)
    }
}

pub open spec fn block_uses_label(b: BlockV, l: Seq<char>) -> bool
    decreases b,
{
    stmts_use_label(b.stmts, l)
}

/// How one early exit shows up after the rewrite: the result recorded in
/// the slot, the flow a `break` out of the escape region.
pub open spec fn sim_step(o: StepV, slot: Seq<char>, lbl: Seq<char>) -> StepV {
    match o {
        StepV::Step(env2, FlowV::Ret(v)) => StepV::Step(
            env2.insert(slot, Value::SomeV(Box::new(v))),
            FlowV::Brk(Option::Some(lbl)),
        ),
        other => other,
    }
}

/// `sim_step` on block outcomes.
pub open spec fn sim_bstep(o: BStepV, slot: Seq<char>, lbl: Seq<char>) -> BStepV {
    match o {
        BStepV::BFlow(env2, FlowV::Ret(v)) => BStepV::BFlow(
            env2.insert(slot, Value::SomeV(Box::new(v))),
            FlowV::Brk(Option::Some(lbl)),
        ),
        other => other,
    }
}

pub proof fn lemma_eval_one(env: EnvV, a: StmtV, fuel: nat)
    ensures
        eval_stmts(env, seq![a], fuel) == eval_stmt(env, a, fuel),
{
    reveal_with_fuel(eval_stmts, 2);
    assert(seq![a][0] == a);
    assert(seq![a].drop_first() =~= Seq::<StmtV>::empty());
}

pub proof fn lemma_eval_two(env: EnvV, a: StmtV, b: StmtV, fuel: nat)
    ensures
        eval_stmts(env, seq![a, b], fuel) == match eval_stmt(env, a, fuel) {
            StepV::Step(env2, FlowV::Normal) => eval_stmt(env2, b, fuel),
            other => other,
        },
{
    assert(seq![a, b][0] == a);
    assert(seq![a, b].drop_first() =~= seq![b]);
    match eval_stmt(env, a, fuel) {
        StepV::Step(env2, f) => {
            if f is Normal {
                lemma_eval_one(env2, b, fuel);
            }
        },
        _ => (),
    }
}

/// The simulation: a rewritten statement evaluates exactly as the original
/// one, except that an early exit becomes "slot recorded, escape region
/// left".  The escape label must not already be in use.
#[verifier::rlimit(60)]
pub proof fn lemma_sim_stmt(env: EnvV, s: StmtV, slot: Seq<char>, lbl: Seq<char>, fuel: nat)
    requires
        !stmt_uses_label(s, lbl),
    ensures
        eval_stmt(env, crate::rewrite::rw_stmt(s, slot, lbl), fuel) == sim_step(
            eval_stmt(env, s, fuel),
            slot,
            lbl,
        ),
    decreases fuel, s,
{
    let r = crate::rewrite::rw_stmt(s, slot, lbl);
    match s {
        StmtV::Ret(oe) => {
            let e = match oe {
                Option::Some(e) => e,
                Option::None => ExprV::Lit(Value::Unit),
            };
            let a = StmtV::Assign(slot, ExprV::SomeOf(Box::new(e)));
            let br = StmtV::Break(Option::Some(lbl));
            let bb = BlockV { stmts: seq![a, br], tail: Option::None };
            assert(r == StmtV::BlockStmt(bb));
            lemma_eval_two(env, a, br, fuel);
            match eval_expr(env, e) {
                Option::Some(v) => {
                    let env2 = env.insert(slot, Value::SomeV(Box::new(v)));
                    assert(eval_stmt(env, a, fuel) == StepV::Step(env2, FlowV::Normal));
                    assert(eval_stmt(env2, br, fuel) == StepV::Step(
                        env2,
                        FlowV::Brk(Option::Some(lbl)),
                    ));
                    assert(eval_stmts(env, bb.stmts, fuel) == StepV::Step(
                        env2,
                        FlowV::Brk(Option::Some(lbl)),
                    ));
                    assert(eval_block(env, bb, fuel) == BStepV::BFlow(
                        env2,
                        FlowV::Brk(Option::Some(lbl)),
                    ));
                    assert(eval_stmt(env, r, fuel) == StepV::Step(
                        env2,
                        FlowV::Brk(Option::Some(lbl)),
                    ));
                    match oe {
                        Option::Some(_) => {
                            assert(eval_stmt(env, s, fuel) == StepV::Step(env, FlowV::Ret(v)));
                        },
                        Option::None => {
                            assert(v == Value::Unit);
                            assert(eval_stmt(env, s, fuel) == StepV::Step(
                                env,
                                FlowV::Ret(Value::Unit),
                            ));
                        },
                    }
                },
                Option::None => {
                    assert(oe is Some);
                    assert(eval_stmt(env, a, fuel) == StepV::Stuck(Fault::EvalFault));
                    assert(eval_stmts(env, bb.stmts, fuel) == StepV::Stuck(Fault::EvalFault));
                    assert(eval_block(env, bb, fuel) == BStepV::BStuck(Fault::EvalFault));
                    assert(eval_stmt(env, s, fuel) == StepV::Stuck(Fault::EvalFault));
                },
            }
        },
        StmtV::If(c, t, els) => {
            match eval_expr(env, c) {
                Option::Some(Value::Bool(true)) => {
                    lemma_sim_block(env, t, slot, lbl, fuel);
                },
                Option::Some(Value::Bool(false)) => {
                    match els {
                        Option::Some(b) => {
                            lemma_sim_block(env, b, slot, lbl, fuel);
                        },
                        Option::None => (),
                    }
                },
                _ => (),
            }
        },
        StmtV::While(c, b) => {
            match eval_expr(env, c) {
                Option::Some(Value::Bool(true)) => {
                    if fuel > 0 {
                        lemma_sim_block(env, b, slot, lbl, fuel);
                        match eval_block(env, b, fuel) {
                            BStepV::BVal(env2, _) => {
                                lemma_sim_stmt(env2, s, slot, lbl, (fuel - 1) as nat);
                            },
                            BStepV::BFlow(env2, FlowV::Normal) => {
                                lemma_sim_stmt(env2, s, slot, lbl, (fuel - 1) as nat);
                            },
                            BStepV::BFlow(env2, FlowV::Cont(Option::None)) => {
                                lemma_sim_stmt(env2, s, slot, lbl, (fuel - 1) as nat);
                            },
                            _ => (),
                        }
                    }
                },
                _ => (),
            }
        },
        StmtV::Loop(lab, b) => {
            if fuel > 0 {
                lemma_sim_block(env, b, slot, lbl, fuel);
                match eval_block(env, b, fuel) {
                    BStepV::BVal(env2, _) => {
                        lemma_sim_stmt(env2, s, slot, lbl, (fuel - 1) as nat);
                    },
                    BStepV::BFlow(env2, FlowV::Normal) => {
                        lemma_sim_stmt(env2, s, slot, lbl, (fuel - 1) as nat);
                    },
                    BStepV::BFlow(env2, FlowV::Cont(Option::None)) => {
                        lemma_sim_stmt(env2, s, slot, lbl, (fuel - 1) as nat);
                    },
                    BStepV::BFlow(env2, FlowV::Cont(Option::Some(l2))) => {
                        if lab == Option::Some(l2) {
                            lemma_sim_stmt(env2, s, slot, lbl, (fuel - 1) as nat);
                        }
                    },
                    _ => (),
                }
            }
        },
        StmtV::BlockStmt(b) => {
            lemma_sim_block(env, b, slot, lbl, fuel);
        },
        _ => (),
    }
}

pub proof fn lemma_sim_stmts(env: EnvV, ss: Seq<StmtV>, slot: Seq<char>, lbl: Seq<char>, fuel: nat)
    requires
        !stmts_use_label(ss, lbl),
    ensures
        eval_stmts(env, crate::rewrite::rw_stmts(ss, slot, lbl), fuel) == sim_step(
            eval_stmts(env, ss, fuel),
            slot,
            lbl,
        ),
    decreases fuel, ss,
{
    let r = crate::rewrite::rw_stmts(ss, slot, lbl);
    crate::rewrite::lemma_rw_stmts(ss, slot, lbl);
    if ss.len() == 0 {
        assert(r =~= Seq::<StmtV>::empty());
    } else {
        assert(r[0] == crate::rewrite::rw_stmt(ss[0], slot, lbl));
        assert(r.drop_first() =~= crate::rewrite::rw_stmts(ss.drop_first(), slot, lbl)) by {
            crate::rewrite::lemma_rw_stmts(ss.drop_first(), slot, lbl);
        }
        lemma_sim_stmt(env, ss[0], slot, lbl, fuel);
        match eval_stmt(env, ss[0], fuel) {
            StepV::Step(env2, FlowV::Normal) => {
                lemma_sim_stmts(env2, ss.drop_first(), slot, lbl, fuel);
            },
            _ => (),
        }
    }
}

pub proof fn lemma_sim_block(env: EnvV, b: BlockV, slot: Seq<char>, lbl: Seq<char>, fuel: nat)
    requires
        !block_uses_label(b, lbl),
    ensures
        eval_block(env, crate::rewrite::rw_block(b, slot, lbl), fuel) == sim_bstep(
            eval_block(env, b, fuel),
            slot,
            lbl,
        ),
    decreases fuel, b,
{
    lemma_sim_stmts(env, b.stmts, slot, lbl, fuel);
}

/// Sequential evaluation splits over concatenation.
pub proof fn lemma_eval_stmts_app(env: EnvV, s1: Seq<StmtV>, s2: Seq<StmtV>, fuel: nat)
    ensures
        eval_stmts(env, s1 + s2, fuel) == match eval_stmts(env, s1, fuel) {
            StepV::Step(env2, FlowV::Normal) => eval_stmts(env2, s2, fuel),
            other => other,
        },
    decreases s1,
{
    if s1.len() == 0 {
        assert(s1 + s2 =~= s2);
    } else {
        assert((s1 + s2)[0] == s1[0]);
        assert((s1 + s2).drop_first() =~= s1.drop_first() + s2);
        match eval_stmt(env, s1[0], fuel) {
            StepV::Step(env2, f) => {
                if f is Normal {
                    lemma_eval_stmts_app(env2, s1.drop_first(), s2, fuel);
                }
            },
            _ => (),
        }
    }
}

/// Binding the alias to a name the predicate itself never reads evaluates
/// exactly as the predicate with the alias bound to that name's value.
pub proof fn lemma_subst_alias_eval(env: EnvV, e: ExprV, x: Seq<char>, v: Value)
    requires
        !expr_mentions(e, x),
        env.contains_key(x),
        env[x] == v,
    ensures
        eval_expr(env, crate::synth::subst_alias_v(e, x)) == eval_pred(env, e, v),
    decreases e,
{
    match e {
        ExprV::SomeOf(b) => {
            lemma_subst_alias_eval(env, *b, x, v);
        },
        ExprV::Binary(_, l, r) => {
            lemma_subst_alias_eval(env, *l, x, v);
            lemma_subst_alias_eval(env, *r, x, v);
        },
        _ => (),
    }
}

} // verus!
