//! The predicate extractor.
//!
//! A contract arrives as one metadata entry `keyword = "predicate text"`.
//! The extractor checks that the entry's name is the expected contract
//! keyword (or its debug-prefixed form) and that its value is a string
//! literal, and hands back the literal's text; anything else is a
//! `MalformedContract` condition and leaves the declaration untouched.

use vstd::prelude::*;
use crate::ast::{MetaItem, MetaItemV, MetaLit, MetaLitV, view_meta};
use crate::contract::{Contract, short_kw_v};
use crate::diag::{Diagnostic, ErrorKind};
use crate::text::{chars_eq, chars_of};

verus! {

/// The predicate text that a metadata entry supplies for keyword `kw`, if
/// the entry is well-formed: name equal to `kw` or its debug form, value a
/// string literal.
pub open spec fn meta_pred_text(m: MetaItemV, kw: Seq<char>) -> Option<Seq<char>> {
    match m {
        MetaItemV::NameValue(name, MetaLitV::Str(text)) => if name == kw || name == "debug_"@
            + kw {
            Option::Some(text)
        } else {
            Option::None
        },
        _ => Option::None,
    }
}

/// The message reported for a malformed entry.
pub open spec fn malformed_message(m: MetaItemV, kw: Seq<char>) -> Seq<char> {
    match m {
        MetaItemV::NameValue(name, lit) => if name == kw || name == "debug_"@ + kw {
            "unexpected kind of predicate for condition"@
        } else {
            "unexpected name in condition: "@ + name
        },
        _ => "unexpected format of condition"@,
    }
}

/// Validates the metadata entry against the contract kind and extracts the
/// predicate text.
pub fn make_predicate(attr: &MetaItem, contract: Contract) -> (r: Result<Vec<char>, Diagnostic>)
    ensures
        match r {
            Result::Ok(text) => meta_pred_text(view_meta(*attr), short_kw_v(contract))
                == Option::Some(text@),
            Result::Err(d) => {
                &&& meta_pred_text(view_meta(*attr), short_kw_v(contract)) is None
                &&& d.kind == ErrorKind::MalformedContract
                &&& d.message@ == malformed_message(view_meta(*attr), short_kw_v(contract))
            },
        },
{
    let kw = chars_of(contract.short_str());
    let mut dkw = chars_of("debug_");
    crate::text::append_chars(&mut dkw, &kw);
    proof {
        assert(kw@ == short_kw_v(contract));
    }
    match attr {
        MetaItem::NameValue(name, lit) => {
            if chars_eq(name, &kw) || chars_eq(name, &dkw) {
                match lit {
                    MetaLit::Str(text) => Result::Ok(crate::rewrite::copy_chars(text)),
                    _ => Result::Err(
                        Diagnostic {
                            kind: ErrorKind::MalformedContract,
                            message: chars_of("unexpected kind of predicate for condition"),
                        },
                    ),
                }
            } else {
                let mut message = chars_of("unexpected name in condition: ");
                crate::text::append_chars(&mut message, name);
                Result::Err(Diagnostic { kind: ErrorKind::MalformedContract, message })
            }
        },
        _ => Result::Err(
            Diagnostic {
                kind: ErrorKind::MalformedContract,
                message: chars_of("unexpected format of condition"),
            },
        ),
    }
}

} // verus!
