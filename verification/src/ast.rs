//! The declaration and expression trees that the rewrite works on, together
//! with their mathematical views.
//!
//! The executable types hold their text in `Vec<char>` and their children in
//! `Vec`/`Box`; each has a spec-level counterpart over `Seq` used by every
//! contract.  The body language keeps early exits (`Ret`) at statement level:
//! an exit nested inside conditionals, loops and blocks is reachable by the
//! recursive rewrite, while expressions stay pure.

use vstd::prelude::*;

verus! {

/// A runtime value of the modeled language.  `NoneV`/`SomeV` are the
/// optional values that the synthesized result slot holds.
#[derive(PartialEq, Eq, Debug)]
pub enum Value {
    Unit,
    Bool(bool),
    Int(i64),
    NoneV,
    SomeV(Box<Value>),
}

/// Binary operators of the predicate/body expression language.
#[derive(Clone, Copy, PartialEq, Eq, Debug)]
pub enum BinOp {
    Add,
    Sub,
    Div,
    CmpEq,
    CmpNe,
    CmpLe,
    CmpLt,
    CmpGe,
    CmpGt,
    And,
    Or,
}

/// A pure expression.  `ResultAlias` is the reserved return-alias token that
/// postcondition predicate text may use for the function's final value; the
/// synthesizer binds it to the captured result before the exit check runs.
#[derive(PartialEq, Eq, Debug)]
pub enum Expr {
    Lit(Value),
    Var(Vec<char>),
    ResultAlias,
    SomeOf(Box<Expr>),
    Binary(BinOp, Box<Expr>, Box<Expr>),
}

/// A statement.  `Ret` is the early exit that the rewrite redirects;
/// `Break`/`Continue` target loops and are left alone; `NestedFn` is a
/// function-like definition whose own exits must not be rewritten.
/// `Assert`/`Unwrap` only appear in synthesized bodies.
#[derive(PartialEq, Eq, Debug)]
pub enum Stmt {
    Let(Vec<char>, Expr),
    Assign(Vec<char>, Expr),
    Semi(Expr),
    If(Expr, Block, Option<Block>),
    While(Expr, Block),
    Loop(Option<Vec<char>>, Block),
    Break(Option<Vec<char>>),
    Continue(Option<Vec<char>>),
    Ret(Option<Expr>),
    BlockStmt(Block),
    NestedFn(Vec<char>, Block),
    Assert(Expr, Vec<char>),
    Unwrap(Vec<char>),
}

/// A block: statements followed by an optional trailing value expression.
#[derive(PartialEq, Eq, Debug)]
pub struct Block {
    pub stmts: Vec<Stmt>,
    pub tail: Option<Expr>,
}

/// A type as far as the rewrite reads it: enough to decide voidness.
#[derive(PartialEq, Eq, Debug)]
pub enum Ty {
    Tup(Vec<Ty>),
    Named(Vec<char>),
}

/// A declared return type: either elided or explicit.
#[derive(PartialEq, Eq, Debug)]
pub enum RetTy {
    DefaultRet,
    Ty(Ty),
}

#[derive(PartialEq, Eq, Debug)]
pub struct Param {
    pub name: Vec<char>,
    pub ty: Ty,
}

/// A function signature's parameter/return part.
#[derive(PartialEq, Eq, Debug)]
pub struct FnDecl {
    pub inputs: Vec<Param>,
    pub output: RetTy,
}

/// Qualifiers that the rebuilt declaration must keep unchanged.
#[derive(PartialEq, Eq, Debug)]
pub struct FnQuals {
    pub unsafety: bool,
    pub constness: bool,
    pub abi: Vec<char>,
}

#[derive(Clone, Copy, PartialEq, Eq, Debug)]
pub enum Visibility {
    Public,
    Inherited,
}

/// A literal inside a metadata entry.
#[derive(PartialEq, Eq, Debug)]
pub enum MetaLit {
    Str(Vec<char>),
    IntLit(i64),
    BoolLit(bool),
}

/// A metadata entry attached to a declaration; a contract arrives as
/// `NameValue(keyword, Str(predicate text))`.
#[derive(PartialEq, Eq, Debug)]
pub enum MetaItem {
    Word(Vec<char>),
    NameValue(Vec<char>, MetaLit),
    List(Vec<char>, Vec<MetaItem>),
}

/// What a free item is; only functions can carry a contract.
#[derive(PartialEq, Eq, Debug)]
pub enum ItemKind {
    Fn(FnQuals, FnDecl, Block),
    OtherItem,
}

/// A free item.
#[derive(PartialEq, Eq, Debug)]
pub struct Item {
    pub ident: Vec<char>,
    pub attrs: Vec<MetaItem>,
    pub vis: Visibility,
    pub kind: ItemKind,
}

#[derive(PartialEq, Eq, Debug)]
pub struct MethodSig {
    pub quals: FnQuals,
    pub decl: FnDecl,
}

#[derive(PartialEq, Eq, Debug)]
pub enum ImplItemKind {
    Method(MethodSig, Block),
    OtherImplItem,
}

/// An item inside an `impl` block.
#[derive(PartialEq, Eq, Debug)]
pub struct ImplItem {
    pub ident: Vec<char>,
    pub attrs: Vec<MetaItem>,
    pub vis: Visibility,
    pub kind: ImplItemKind,
}

#[derive(PartialEq, Eq, Debug)]
pub enum TraitItemKind {
    Method(MethodSig, Option<Block>),
    OtherTraitItem,
}

/// An item inside a trait: a method may or may not have a default body.
#[derive(PartialEq, Eq, Debug)]
pub struct TraitItem {
    pub ident: Vec<char>,
    pub attrs: Vec<MetaItem>,
    pub kind: TraitItemKind,
}

/// The declaration-like entities a contract can be attached to.
#[derive(PartialEq, Eq, Debug)]
pub enum Annotatable {
    Item(Item),
    ImplItem(ImplItem),
    TraitItem(TraitItem),
}

// ---------------------------------------------------------------------------
// Spec-level counterparts.
// ---------------------------------------------------------------------------

pub enum ExprV {
    Lit(Value),
    Var(Seq<char>),
    ResultAlias,
    SomeOf(Box<ExprV>),
    Binary(BinOp, Box<ExprV>, Box<ExprV>),
}

pub enum StmtV {
    Let(Seq<char>, ExprV),
    Assign(Seq<char>, ExprV),
    Semi(ExprV),
    If(ExprV, BlockV, Option<BlockV>),
    While(ExprV, BlockV),
    Loop(Option<Seq<char>>, BlockV),
    Break(Option<Seq<char>>),
    Continue(Option<Seq<char>>),
    Ret(Option<ExprV>),
    BlockStmt(BlockV),
    NestedFn(Seq<char>, BlockV),
    Assert(ExprV, Seq<char>),
    Unwrap(Seq<char>),
}

pub struct BlockV {
    pub stmts: Seq<StmtV>,
    pub tail: Option<ExprV>,
}

pub enum TyV {
    Tup(Seq<TyV>),
    Named(Seq<char>),
}

pub enum RetTyV {
    DefaultRet,
    Ty(TyV),
}

pub struct ParamV {
    pub name: Seq<char>,
    pub ty: TyV,
}

pub struct FnDeclV {
    pub inputs: Seq<ParamV>,
    pub output: RetTyV,
}

pub struct FnQualsV {
    pub unsafety: bool,
    pub constness: bool,
    pub abi: Seq<char>,
}

pub enum MetaLitV {
    Str(Seq<char>),
    IntLit(i64),
    BoolLit(bool),
}

pub enum MetaItemV {
    Word(Seq<char>),
    NameValue(Seq<char>, MetaLitV),
    List(Seq<char>, Seq<MetaItemV>),
}

pub enum ItemKindV {
    Fn(FnQualsV, FnDeclV, BlockV),
    OtherItem,
}

pub struct ItemV {
    pub ident: Seq<char>,
    pub attrs: Seq<MetaItemV>,
    pub vis: Visibility,
    pub kind: ItemKindV,
}

pub struct MethodSigV {
    pub quals: FnQualsV,
    pub decl: FnDeclV,
}

pub enum ImplItemKindV {
    Method(MethodSigV, BlockV),
    OtherImplItem,
}

pub struct ImplItemV {
    pub ident: Seq<char>,
    pub attrs: Seq<MetaItemV>,
    pub vis: Visibility,
    pub kind: ImplItemKindV,
}

pub enum TraitItemKindV {
    Method(MethodSigV, Option<BlockV>),
    OtherTraitItem,
}

pub struct TraitItemV {
    pub ident: Seq<char>,
    pub attrs: Seq<MetaItemV>,
    pub kind: TraitItemKindV,
}

pub enum AnnotatableV {
    Item(ItemV),
    ImplItem(ImplItemV),
    TraitItem(TraitItemV),
}

// ---------------------------------------------------------------------------
// View functions from the executable trees to the spec trees.
// ---------------------------------------------------------------------------

pub open spec fn view_expr(e: Expr) -> ExprV
    decreases e,
{
    match e {
        Expr::Lit(v) => ExprV::Lit(v),
        Expr::Var(n) => ExprV::Var(n@),
        Expr::ResultAlias => ExprV::ResultAlias,
        Expr::SomeOf(b) => ExprV::SomeOf(Box::new(view_expr(*b))),
        Expr::Binary(op, l, r) => ExprV::Binary(
            op,
            Box::new(view_expr(*l)),
            Box::new(view_expr(*r)),
        ),
    }
}

pub open spec fn view_opt_expr(e: Option<Expr>) -> Option<ExprV> {
    match e {
        Option::Some(e) => Option::Some(view_expr(e)),
        Option::None => Option::None,
    }
}

pub open spec fn view_opt_name(n: Option<Vec<char>>) -> Option<Seq<char>> {
    match n {
        Option::Some(n) => Option::Some(n@),
        Option::None => Option::None,
    }
}

pub open spec fn view_stmt(s: Stmt) -> StmtV
    decreases s,
{
    match s {
        Stmt::Let(n, e) => StmtV::Let(n@, view_expr(e)),
        Stmt::Assign(n, e) => StmtV::Assign(n@, view_expr(e)),
        Stmt::Semi(e) => StmtV::Semi(view_expr(e)),
        Stmt::If(c, t, e) => StmtV::If(
            view_expr(c),
            view_block(t),
            match e {
                Option::Some(e) => Option::Some(view_block(e)),
                Option::None => Option::None,
            },
        ),
        Stmt::While(c, b) => StmtV::While(view_expr(c), view_block(b)),
        Stmt::Loop(l, b) => StmtV::Loop(view_opt_name(l), view_block(b)),
        Stmt::Break(l) => StmtV::Break(view_opt_name(l)),
        Stmt::Continue(l) => StmtV::Continue(view_opt_name(l)),
        Stmt::Ret(e) => StmtV::Ret(view_opt_expr(e)),
        Stmt::BlockStmt(b) => StmtV::BlockStmt(view_block(b)),
        Stmt::NestedFn(n, b) => StmtV::NestedFn(n@, view_block(b)),
        Stmt::Assert(e, l) => StmtV::Assert(view_expr(e), l@),
        Stmt::Unwrap(n) => StmtV::Unwrap(n@),
    }
}

pub open spec fn view_stmts(ss: Seq<Stmt>) -> Seq<StmtV>
    decreases ss,
{
    if ss.len() == 0 {
        Seq::empty()
    } else {
        view_stmts(ss.drop_last()).push(view_stmt(ss.last()))
    }
}

pub open spec fn view_block(b: Block) -> BlockV
    decreases b,
{
    BlockV { stmts: view_stmts(b.stmts@), tail: view_opt_expr(b.tail) }
}

pub open spec fn view_tys(ts: Seq<Ty>) -> Seq<TyV>
    decreases ts,
{
    if ts.len() == 0 {
        Seq::empty()
    } else {
        view_tys(ts.drop_last()).push(view_ty(ts.last()))
    }
}

pub open spec fn view_ty(t: Ty) -> TyV
    decreases t,
{
    match t {
        Ty::Tup(ts) => TyV::Tup(view_tys(ts@)),
        Ty::Named(n) => TyV::Named(n@),
    }
}

/// Viewing distributes over appending one statement.
pub proof fn lemma_view_stmts_push(ss: Seq<Stmt>, x: Stmt)
    ensures
        view_stmts(ss.push(x)) == view_stmts(ss).push(view_stmt(x)),
{
    assert(ss.push(x).drop_last() =~= ss);
    assert(ss.push(x).last() == x);
}

/// The views of a statement sequence, element by element.
pub proof fn lemma_view_stmts(ss: Seq<Stmt>)
    ensures
        view_stmts(ss).len() == ss.len(),
        forall|i: int| 0 <= i < ss.len() ==> view_stmts(ss)[i] == view_stmt(ss[i]),
    decreases ss,
{
    if ss.len() > 0 {
        lemma_view_stmts(ss.drop_last());
    }
}

pub open spec fn view_ret_ty(r: RetTy) -> RetTyV {
    match r {
        RetTy::DefaultRet => RetTyV::DefaultRet,
        RetTy::Ty(t) => RetTyV::Ty(view_ty(t)),
    }
}

pub open spec fn view_params(ps: Seq<Param>) -> Seq<ParamV>
    decreases ps,
{
    if ps.len() == 0 {
        Seq::empty()
    } else {
        view_params(ps.drop_last()).push(
            ParamV { name: ps.last().name@, ty: view_ty(ps.last().ty) },
        )
    }
}

pub open spec fn view_decl(d: FnDecl) -> FnDeclV {
    FnDeclV { inputs: view_params(d.inputs@), output: view_ret_ty(d.output) }
}

pub open spec fn view_quals(q: FnQuals) -> FnQualsV {
    FnQualsV { unsafety: q.unsafety, constness: q.constness, abi: q.abi@ }
}

pub open spec fn view_meta_lit(l: MetaLit) -> MetaLitV {
    match l {
        MetaLit::Str(s) => MetaLitV::Str(s@),
        MetaLit::IntLit(i) => MetaLitV::IntLit(i),
        MetaLit::BoolLit(b) => MetaLitV::BoolLit(b),
    }
}

pub open spec fn view_meta(m: MetaItem) -> MetaItemV
    decreases m,
{
    match m {
        MetaItem::Word(n) => MetaItemV::Word(n@),
        MetaItem::NameValue(n, l) => MetaItemV::NameValue(n@, view_meta_lit(l)),
        MetaItem::List(n, ms) => MetaItemV::List(n@, view_meta_seq(ms@)),
    }
}

pub open spec fn view_meta_seq(ms: Seq<MetaItem>) -> Seq<MetaItemV>
    decreases ms,
{
    if ms.len() == 0 {
        Seq::empty()
    } else {
        view_meta_seq(ms.drop_last()).push(view_meta(ms.last()))
    }
}

pub open spec fn view_metas(ms: Vec<MetaItem>) -> Seq<MetaItemV> {
    view_meta_seq(ms@)
}

pub open spec fn view_sig(s: MethodSig) -> MethodSigV {
    MethodSigV { quals: view_quals(s.quals), decl: view_decl(s.decl) }
}

pub open spec fn view_item(it: Item) -> ItemV {
    ItemV {
        ident: it.ident@,
        attrs: view_metas(it.attrs),
        vis: it.vis,
        kind: match it.kind {
            ItemKind::Fn(q, d, b) => ItemKindV::Fn(view_quals(q), view_decl(d), view_block(b)),
            ItemKind::OtherItem => ItemKindV::OtherItem,
        },
    }
}

pub open spec fn view_impl_item(it: ImplItem) -> ImplItemV {
    ImplItemV {
        ident: it.ident@,
        attrs: view_metas(it.attrs),
        vis: it.vis,
        kind: match it.kind {
            ImplItemKind::Method(s, b) => ImplItemKindV::Method(view_sig(s), view_block(b)),
            ImplItemKind::OtherImplItem => ImplItemKindV::OtherImplItem,
        },
    }
}

pub open spec fn view_trait_item(it: TraitItem) -> TraitItemV {
    TraitItemV {
        ident: it.ident@,
        attrs: view_metas(it.attrs),
        kind: match it.kind {
            TraitItemKind::Method(s, b) => TraitItemKindV::Method(
                view_sig(s),
                match b {
                    Option::Some(b) => Option::Some(view_block(b)),
                    Option::None => Option::None,
                },
            ),
            TraitItemKind::OtherTraitItem => TraitItemKindV::OtherTraitItem,
        },
    }
}

pub open spec fn view_annotatable(a: Annotatable) -> AnnotatableV {
    match a {
        Annotatable::Item(it) => AnnotatableV::Item(view_item(it)),
        Annotatable::ImplItem(it) => AnnotatableV::ImplItem(view_impl_item(it)),
        Annotatable::TraitItem(it) => AnnotatableV::TraitItem(view_trait_item(it)),
    }
}

} // verus!
