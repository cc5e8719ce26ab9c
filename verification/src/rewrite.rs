//! The early-exit rewriter.
//!
//! Given the enclosing escape region's label and the result slot's name,
//! every `Ret` lexically bound to the declaration being rewritten becomes
//! "assign the value to the slot, then break out of the escape region".
//! The rewrite recurses through conditionals, loops and nested blocks, but
//! not into nested function-like definitions, whose exits target their own
//! scope; loop `Break`/`Continue` are left untouched.

use vstd::prelude::*;
use crate::ast::{
    Block, BlockV, Expr, ExprV, Stmt, StmtV, Value, lemma_view_stmts, view_block, view_expr,
    view_stmt, view_stmts,
};

verus! {

/// What one early exit becomes: record the value, then leave the region.
pub open spec fn exit_stmt_v(e: ExprV, slot: Seq<char>, lbl: Seq<char>) -> StmtV {
    StmtV::BlockStmt(
        BlockV {
            stmts: seq![
                StmtV::Assign(slot, ExprV::SomeOf(Box::new(e))),
                StmtV::Break(Option::Some(lbl)),
            ],
            tail: Option::None,
        },
    )
}

/// The rewrite of one statement.
pub open spec fn rw_stmt(s: StmtV, slot: Seq<char>, lbl: Seq<char>) -> StmtV
    decreases s,
{
    match s {
        StmtV::Ret(Option::Some(e)) => exit_stmt_v(e, slot, lbl),
        StmtV::Ret(Option::None) => exit_stmt_v(ExprV::Lit(Value::Unit), slot, lbl),
        StmtV::If(c, t, e) => StmtV::If(
            c,
            rw_block(t, slot, lbl),
            match e {
                Option::Some(b) => Option::Some(rw_block(b, slot, lbl)),
                Option::None => Option::None,
            },
        ),
        StmtV::While(c, b) => StmtV::While(c, rw_block(b, slot, lbl)),
        StmtV::Loop(l, b) => StmtV::Loop(l, rw_block(b, slot, lbl)),
        StmtV::BlockStmt(b) => StmtV::BlockStmt(rw_block(b, slot, lbl)),
        _ => s,
    }
}

/// The rewrite of a statement sequence, statement by statement.
pub open spec fn rw_stmts(ss: Seq<StmtV>, slot: Seq<char>, lbl: Seq<char>) -> Seq<StmtV>
    decreases ss,
{
    if ss.len() == 0 {
        Seq::empty()
    } else {
        rw_stmts(ss.drop_last(), slot, lbl).push(rw_stmt(ss.last(), slot, lbl))
    }
}

/// The rewrite of a block: the trailing value expression is pure and stays.
pub open spec fn rw_block(b: BlockV, slot: Seq<char>, lbl: Seq<char>) -> BlockV
    decreases b,
{
    BlockV { stmts: rw_stmts(b.stmts, slot, lbl), tail: b.tail }
}

/// The rewrites of a statement sequence, element by element.
pub proof fn lemma_rw_stmts(ss: Seq<StmtV>, slot: Seq<char>, lbl: Seq<char>)
    ensures
        rw_stmts(ss, slot, lbl).len() == ss.len(),
        forall|i: int|
            0 <= i < ss.len() ==> rw_stmts(ss, slot, lbl)[i] == rw_stmt(ss[i], slot, lbl),
    decreases ss,
{
    if ss.len() > 0 {
        lemma_rw_stmts(ss.drop_last(), slot, lbl);
    }
}

/// A fresh copy of a name.
pub fn copy_chars(src: &Vec<char>) -> (r: Vec<char>)
    ensures
        r@ == src@,
{
    let mut r: Vec<char> = Vec::new();
    crate::text::append_chars(&mut r, src);
    r
}

fn exit_stmt(e: Expr, slot: &Vec<char>, lbl: &Vec<char>) -> (r: Stmt)
    ensures
        view_stmt(r) == exit_stmt_v(view_expr(e), slot@, lbl@),
{
    let ghost ev = view_expr(e);
    let mut stmts: Vec<Stmt> = Vec::new();
    stmts.push(Stmt::Assign(copy_chars(slot), Expr::SomeOf(Box::new(e))));
    stmts.push(Stmt::Break(Option::Some(copy_chars(lbl))));
    proof {
        lemma_view_stmts(stmts@);
        assert(view_stmts(stmts@) =~= seq![view_stmt(stmts@[0]), view_stmt(stmts@[1])]);
    }
    let r = Stmt::BlockStmt(Block { stmts, tail: Option::None });
    proof {
        assert(view_stmt(r) =~~= exit_stmt_v(ev, slot@, lbl@));
    }
    r
}

/// The executable rewrite of one statement.
pub fn rewrite_stmt(s: Stmt, slot: &Vec<char>, lbl: &Vec<char>) -> (r: Stmt)
    ensures
        view_stmt(r) == rw_stmt(view_stmt(s), slot@, lbl@),
    decreases s,
{
    match s {
        Stmt::Ret(Option::Some(e)) => exit_stmt(e, slot, lbl),
        Stmt::Ret(Option::None) => exit_stmt(Expr::Lit(Value::Unit), slot, lbl),
        Stmt::If(c, t, e) => {
            let t2 = rewrite_block(t, slot, lbl);
            let e2 = match e {
                Option::Some(b) => Option::Some(rewrite_block(b, slot, lbl)),
                Option::None => Option::None,
            };
            Stmt::If(c, t2, e2)
        },
        Stmt::While(c, b) => Stmt::While(c, rewrite_block(b, slot, lbl)),
        Stmt::Loop(l, b) => Stmt::Loop(l, rewrite_block(b, slot, lbl)),
        Stmt::BlockStmt(b) => Stmt::BlockStmt(rewrite_block(b, slot, lbl)),
        other => other,
    }
}

/// The executable rewrite of a statement sequence.
pub fn rewrite_stmts(ss: Vec<Stmt>, slot: &Vec<char>, lbl: &Vec<char>) -> (r: Vec<Stmt>)
    ensures
        view_stmts(r@) == rw_stmts(view_stmts(ss@), slot@, lbl@),
    decreases ss@,
{
    let ghost ss0 = ss@;
    let mut ss = ss;
    match ss.pop() {
        Option::None => {
            proof {
                assert(view_stmts(ss@) =~= Seq::<StmtV>::empty());
            }
            ss
        },
        Option::Some(last) => {
            proof {
                assert(ss@ == ss0.drop_last());
            }
            let mut front = rewrite_stmts(ss, slot, lbl);
            let ghost fp = front@;
            let last2 = rewrite_stmt(last, slot, lbl);
            front.push(last2);
            proof {
                let sv = view_stmts(ss0);
                assert(sv == view_stmts(ss0.drop_last()).push(view_stmt(ss0.last())));
                assert(sv.drop_last() =~= view_stmts(ss0.drop_last()));
                assert(sv.len() > 0);
                assert(sv.last() == view_stmt(ss0.last()));
                assert(rw_stmts(sv, slot@, lbl@) == rw_stmts(sv.drop_last(), slot@, lbl@).push(
                    rw_stmt(sv.last(), slot@, lbl@),
                ));
                assert(front@.drop_last() =~= fp);
                assert(front@.last() == last2);
                assert(view_stmts(front@) == view_stmts(front@.drop_last()).push(
                    view_stmt(front@.last()),
                ));
                assert(view_stmts(front@) == rw_stmts(sv, slot@, lbl@));
            }
            front
        },
    }
}

/// The executable rewrite of a block.
pub fn rewrite_block(b: Block, slot: &Vec<char>, lbl: &Vec<char>) -> (r: Block)
    ensures
        view_block(r) == rw_block(view_block(b), slot@, lbl@),
    decreases b,
{
    let Block { stmts, tail } = b;
    let stmts2 = rewrite_stmts(stmts, slot, lbl);
    let r = Block { stmts: stmts2, tail };
    proof {
        assert(view_block(r) =~~= rw_block(view_block(b), slot@, lbl@));
    }
    r
}

} // verus!
