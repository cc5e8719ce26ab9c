//! The contract dispatcher.
//!
//! It classifies the annotated declaration (free function, impl method,
//! trait method with a default body), lets the synthesizer build the new
//! body, and rebuilds the declaration with every other field unchanged.
//! Shapes without a rewritable body, and malformed metadata, produce a
//! diagnostic and hand the declaration back untouched: the rewrite is a
//! no-op on error, never partial.

use vstd::prelude::*;
use crate::ast::{
    Annotatable, AnnotatableV, Expr, ExprV, ImplItem, ImplItemKind, ImplItemKindV, ImplItemV,
    Item, ItemKind, ItemKindV, ItemV, MetaItem, MetaItemV, TraitItem, TraitItemKind,
    TraitItemKindV, TraitItemV, view_annotatable, view_expr, view_meta,
};
use crate::contract::{Contract, long_kind_v, short_kw_v};
use crate::diag::{Diagnostic, DiagnosticV, ErrorKind, view_opt_diag};
use crate::extract::{malformed_message, meta_pred_text};
use crate::synth::{contract_body, synth_body_v};
use crate::text::{append_chars, chars_of};

verus! {

/// Whether the metadata entry forms a contract for this kind.
pub open spec fn contract_applies(attrv: MetaItemV, c: Contract) -> bool {
    meta_pred_text(attrv, short_kw_v(c)) is Some
}

/// The diagnostic for malformed metadata.
pub open spec fn malformed_diag(attrv: MetaItemV, c: Contract) -> DiagnosticV {
    DiagnosticV {
        kind: ErrorKind::MalformedContract,
        message: malformed_message(attrv, short_kw_v(c)),
    }
}

/// The message for a declaration shape without a rewritable body.
pub open spec fn unsupported_message(itv: AnnotatableV, c: Contract) -> Seq<char> {
    match itv {
        AnnotatableV::Item(_) => long_kind_v(c) + " on non-function item"@,
        AnnotatableV::ImplItem(_) => long_kind_v(c) + " on non-function impl item"@,
        AnnotatableV::TraitItem(_) => long_kind_v(c) + " on non-function trait item"@,
    }
}

/// The diagnostic for such a shape.
pub open spec fn unsupported_diag(itv: AnnotatableV, c: Contract) -> DiagnosticV {
    DiagnosticV { kind: ErrorKind::UnsupportedTarget, message: unsupported_message(itv, c) }
}

/// Whether the declaration has a body the rewrite can wrap.
pub open spec fn has_rewritable_body(itv: AnnotatableV) -> bool {
    match itv {
        AnnotatableV::Item(it) => it.kind is Fn,
        AnnotatableV::ImplItem(it) => it.kind is Method,
        AnnotatableV::TraitItem(it) => match it.kind {
            TraitItemKindV::Method(_, b) => b is Some,
            _ => false,
        },
    }
}

/// The successfully rewritten declaration: the synthesized body in place of
/// the original one, every other field unchanged.
pub open spec fn rewritten_of(
    itv: AnnotatableV,
    attrv: MetaItemV,
    predv: ExprV,
    c: Contract,
    run: nat,
) -> AnnotatableV {
    let text = meta_pred_text(attrv, short_kw_v(c)).unwrap();
    match itv {
        AnnotatableV::Item(it) => match it.kind {
            ItemKindV::Fn(q, dcl, b) => AnnotatableV::Item(
                ItemV {
                    ident: it.ident,
                    attrs: it.attrs,
                    vis: it.vis,
                    kind: ItemKindV::Fn(
                        q,
                        dcl,
                        synth_body_v(c, predv, text, it.ident, b, dcl.output, run),
                    ),
                },
            ),
            _ => itv,
        },
        AnnotatableV::ImplItem(it) => match it.kind {
            ImplItemKindV::Method(sig, b) => AnnotatableV::ImplItem(
                ImplItemV {
                    ident: it.ident,
                    attrs: it.attrs,
                    vis: it.vis,
                    kind: ImplItemKindV::Method(
                        sig,
                        synth_body_v(c, predv, text, it.ident, b, sig.decl.output, run),
                    ),
                },
            ),
            _ => itv,
        },
        AnnotatableV::TraitItem(it) => match it.kind {
            TraitItemKindV::Method(sig, Option::Some(b)) => AnnotatableV::TraitItem(
                TraitItemV {
                    ident: it.ident,
                    attrs: it.attrs,
                    kind: TraitItemKindV::Method(
                        sig,
                        Option::Some(
                            synth_body_v(c, predv, text, it.ident, b, sig.decl.output, run),
                        ),
                    ),
                },
            ),
            _ => itv,
        },
    }
}

/// What one contract application does: rewrites the body when the shape and
/// the metadata allow it, and otherwise reports the error and leaves the
/// declaration as it was.
pub open spec fn rewrite_outcome(
    itv: AnnotatableV,
    attrv: MetaItemV,
    predv: ExprV,
    c: Contract,
    run: nat,
    outv: AnnotatableV,
    d: Option<DiagnosticV>,
) -> bool {
    if !has_rewritable_body(itv) {
        outv == itv && d == Option::Some(unsupported_diag(itv, c))
    } else if contract_applies(attrv, c) {
        outv == rewritten_of(itv, attrv, predv, c, run) && d is None
    } else {
        outv == itv && d == Option::Some(malformed_diag(attrv, c))
    }
}

/// One outcome fits a given application: the relation determines the
/// rewritten declaration and the diagnostic.
pub proof fn lemma_rewrite_outcome_functional(
    itv: AnnotatableV,
    attrv: MetaItemV,
    predv: ExprV,
    c: Contract,
    run: nat,
    o1: AnnotatableV,
    d1: Option<DiagnosticV>,
    o2: AnnotatableV,
    d2: Option<DiagnosticV>,
)
    requires
        rewrite_outcome(itv, attrv, predv, c, run, o1, d1),
        rewrite_outcome(itv, attrv, predv, c, run, o2, d2),
    ensures
        o1 == o2,
        d1 == d2,
{
}

fn unsupported(item: Annotatable, contract: Contract, suffix: &str) -> (r: (
    Annotatable,
    Option<Diagnostic>,
))
    requires
        !has_rewritable_body(view_annotatable(item)),
        suffix@ == match view_annotatable(item) {
            AnnotatableV::Item(_) => " on non-function item"@,
            AnnotatableV::ImplItem(_) => " on non-function impl item"@,
            AnnotatableV::TraitItem(_) => " on non-function trait item"@,
        },
    ensures
        r.0 == item,
        view_opt_diag(r.1) == Option::Some(unsupported_diag(view_annotatable(item), contract)),
{
    let mut message = chars_of(contract.long_str());
    let sfx = chars_of(suffix);
    append_chars(&mut message, &sfx);
    (item, Option::Some(Diagnostic { kind: ErrorKind::UnsupportedTarget, message }))
}

/// Applies one contract of the given kind to a declaration-like entity.
pub fn map_annotatble(
    attr: &MetaItem,
    parsed_pred: Expr,
    item: Annotatable,
    contract: Contract,
    run: u32,
) -> (r: (Annotatable, Option<Diagnostic>))
    ensures
        rewrite_outcome(
            view_annotatable(item),
            view_meta(*attr),
            view_expr(parsed_pred),
            contract,
            run as nat,
            view_annotatable(r.0),
            view_opt_diag(r.1),
        ),
        r.1 is Some ==> r.0 == item,
{
    match item {
        Annotatable::Item(it) => {
            let Item { ident, attrs, vis, kind } = it;
            match kind {
                ItemKind::Fn(quals, decl, body) => {
                    match contract_body(
                        &ident,
                        &decl.output,
                        body,
                        attr,
                        parsed_pred,
                        contract,
                        run,
                    ) {
                        Result::Ok(b2) => (
                            Annotatable::Item(
                                Item { ident, attrs, vis, kind: ItemKind::Fn(quals, decl, b2) },
                            ),
                            Option::None,
                        ),
                        Result::Err((b0, d)) => (
                            Annotatable::Item(
                                Item { ident, attrs, vis, kind: ItemKind::Fn(quals, decl, b0) },
                            ),
                            Option::Some(d),
                        ),
                    }
                },
                ItemKind::OtherItem => unsupported(
                    Annotatable::Item(Item { ident, attrs, vis, kind: ItemKind::OtherItem }),
                    contract,
                    " on non-function item",
                ),
            }
        },
        Annotatable::ImplItem(it) => {
            let ImplItem { ident, attrs, vis, kind } = it;
            match kind {
                ImplItemKind::Method(sig, body) => {
                    match contract_body(
                        &ident,
                        &sig.decl.output,
                        body,
                        attr,
                        parsed_pred,
                        contract,
                        run,
                    ) {
                        Result::Ok(b2) => (
                            Annotatable::ImplItem(
                                ImplItem {
                                    ident,
                                    attrs,
                                    vis,
                                    kind: ImplItemKind::Method(sig, b2),
                                },
                            ),
                            Option::None,
                        ),
                        Result::Err((b0, d)) => (
                            Annotatable::ImplItem(
                                ImplItem {
                                    ident,
                                    attrs,
                                    vis,
                                    kind: ImplItemKind::Method(sig, b0),
                                },
                            ),
                            Option::Some(d),
                        ),
                    }
                },
                ImplItemKind::OtherImplItem => unsupported(
                    Annotatable::ImplItem(
                        ImplItem { ident, attrs, vis, kind: ImplItemKind::OtherImplItem },
                    ),
                    contract,
                    " on non-function impl item",
                ),
            }
        },
        Annotatable::TraitItem(it) => {
            let TraitItem { ident, attrs, kind } = it;
            match kind {
                TraitItemKind::Method(sig, Option::Some(body)) => {
                    match contract_body(
                        &ident,
                        &sig.decl.output,
                        body,
                        attr,
                        parsed_pred,
                        contract,
                        run,
                    ) {
                        Result::Ok(b2) => (
                            Annotatable::TraitItem(
                                TraitItem {
                                    ident,
                                    attrs,
                                    kind: TraitItemKind::Method(sig, Option::Some(b2)),
                                },
                            ),
                            Option::None,
                        ),
                        Result::Err((b0, d)) => (
                            Annotatable::TraitItem(
                                TraitItem {
                                    ident,
                                    attrs,
                                    kind: TraitItemKind::Method(sig, Option::Some(b0)),
                                },
                            ),
                            Option::Some(d),
                        ),
                    }
                },
                TraitItemKind::Method(sig, Option::None) => unsupported(
                    Annotatable::TraitItem(
                        TraitItem { ident, attrs, kind: TraitItemKind::Method(sig, Option::None) },
                    ),
                    contract,
                    " on non-function trait item",
                ),
                TraitItemKind::OtherTraitItem => unsupported(
                    Annotatable::TraitItem(
                        TraitItem { ident, attrs, kind: TraitItemKind::OtherTraitItem },
                    ),
                    contract,
                    " on non-function trait item",
                ),
            }
        },
    }
}

/// Applies a precondition contract.
pub fn precond(attr: &MetaItem, parsed_pred: Expr, item: Annotatable, run: u32) -> (r: (
    Annotatable,
    Option<Diagnostic>,
))
    ensures
        rewrite_outcome(
            view_annotatable(item),
            view_meta(*attr),
            view_expr(parsed_pred),
            Contract::Precond,
            run as nat,
            view_annotatable(r.0),
            view_opt_diag(r.1),
        ),
        r.1 is Some ==> r.0 == item,
{
    map_annotatble(attr, parsed_pred, item, Contract::Precond, run)
}

/// Applies a postcondition contract.
pub fn postcond(attr: &MetaItem, parsed_pred: Expr, item: Annotatable, run: u32) -> (r: (
    Annotatable,
    Option<Diagnostic>,
))
    ensures
        rewrite_outcome(
            view_annotatable(item),
            view_meta(*attr),
            view_expr(parsed_pred),
            Contract::Postcond,
            run as nat,
            view_annotatable(r.0),
            view_opt_diag(r.1),
        ),
        r.1 is Some ==> r.0 == item,
{
    map_annotatble(attr, parsed_pred, item, Contract::Postcond, run)
}

/// Applies an invariant contract: entry and exit checks with paired labels.
pub fn apply_invariant(attr: &MetaItem, parsed_pred: Expr, item: Annotatable, run: u32) -> (r: (
    Annotatable,
    Option<Diagnostic>,
))
    ensures
        rewrite_outcome(
            view_annotatable(item),
            view_meta(*attr),
            view_expr(parsed_pred),
            Contract::Invariant,
            run as nat,
            view_annotatable(r.0),
            view_opt_diag(r.1),
        ),
        r.1 is Some ==> r.0 == item,
{
    map_annotatble(attr, parsed_pred, item, Contract::Invariant, run)
}

/// Applies a debug-only precondition: a no-op unless the build-mode signal
/// says debug assertions are enabled.
pub fn debug_precond(
    attr: &MetaItem,
    parsed_pred: Expr,
    item: Annotatable,
    run: u32,
    debug_enabled: bool,
) -> (r: (Annotatable, Option<Diagnostic>))
    ensures
        debug_enabled ==> rewrite_outcome(
            view_annotatable(item),
            view_meta(*attr),
            view_expr(parsed_pred),
            Contract::Precond,
            run as nat,
            view_annotatable(r.0),
            view_opt_diag(r.1),
        ) && (r.1 is Some ==> r.0 == item),
        !debug_enabled ==> r.0 == item && r.1 is None,
{
    if debug_enabled {
        precond(attr, parsed_pred, item, run)
    } else {
        (item, Option::None)
    }
}

/// Applies a debug-only postcondition: a no-op unless debug assertions are
/// enabled.
pub fn debug_postcond(
    attr: &MetaItem,
    parsed_pred: Expr,
    item: Annotatable,
    run: u32,
    debug_enabled: bool,
) -> (r: (Annotatable, Option<Diagnostic>))
    ensures
        debug_enabled ==> rewrite_outcome(
            view_annotatable(item),
            view_meta(*attr),
            view_expr(parsed_pred),
            Contract::Postcond,
            run as nat,
            view_annotatable(r.0),
            view_opt_diag(r.1),
        ) && (r.1 is Some ==> r.0 == item),
        !debug_enabled ==> r.0 == item && r.1 is None,
{
    if debug_enabled {
        postcond(attr, parsed_pred, item, run)
    } else {
        (item, Option::None)
    }
}

/// Applies a debug-only invariant: a no-op unless debug assertions are
/// enabled.
pub fn debug_invariant(
    attr: &MetaItem,
    parsed_pred: Expr,
    item: Annotatable,
    run: u32,
    debug_enabled: bool,
) -> (r: (Annotatable, Option<Diagnostic>))
    ensures
        debug_enabled ==> rewrite_outcome(
            view_annotatable(item),
            view_meta(*attr),
            view_expr(parsed_pred),
            Contract::Invariant,
            run as nat,
            view_annotatable(r.0),
            view_opt_diag(r.1),
        ) && (r.1 is Some ==> r.0 == item),
        !debug_enabled ==> r.0 == item && r.1 is None,
{
    if debug_enabled {
        apply_invariant(attr, parsed_pred, item, run)
    } else {
        (item, Option::None)
    }
}

/// The rewrite-instance counter, threaded explicitly through a
/// transformation pass: one fresh number per contract application keeps
/// every synthesized slot name and region label unique.
pub struct RewriteCounter {
    pub next: u32,
}

impl RewriteCounter {
    pub fn new() -> (r: RewriteCounter)
        ensures
            r.next == 0,
    {
        RewriteCounter { next: 0 }
    }

    /// The next unused instance number.
    pub fn fresh(&mut self) -> (r: u32)
        requires
            old(self).next < u32::MAX,
        ensures
            final(self).next == old(self).next + 1,
            r == old(self).next,
    {
        let r = self.next;
        self.next = self.next + 1;
        r
    }
}

} // verus!
