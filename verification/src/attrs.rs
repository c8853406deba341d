//! The attribute extractor: reads one variant's metadata block and yields
//! its four optional metadata fields.
//!
//! Recognized keys are exactly `status`, `tag`, `code` and `message`;
//! unrecognized keys are ignored, and a later entry for the same key
//! overrides an earlier one. `status` and `code` accept any expression,
//! carried through as source text; `tag` and `message` must be string
//! literals, and any other value aborts extraction naming the offending
//! key. Absent keys stay unset: no defaults are synthesized here.

use vstd::prelude::*;

use crate::decl::ExpandError;
use crate::decl::MetaEntry;
use crate::decl::MetaKey;
use crate::decl::MetaValue;
use crate::decl::SpecExpandError;
use crate::decl::SpecMetaEntry;
use crate::decl::SpecMetaValue;
use crate::decl::SpecVariantDecl;
use crate::decl::VariantDecl;
use crate::text::push_rust_str_lit;
use crate::text::rust_str_lit;
use crate::text::str_eq;

verus! {

/// The four metadata fields extracted from one variant's metadata block.
/// `status` and `code` hold expression source text; `tag` and `message`
/// hold the contents of the declared string literal. An absent key leaves
/// its field unset.
pub struct BaxeAttributes {
    pub status: Option<String>,
    pub tag: Option<String>,
    pub code: Option<String>,
    pub message: Option<String>,
}

/// Mathematical model of `BaxeAttributes`.
pub ghost struct SpecBaxeAttributes {
    pub status: Option<Seq<char>>,
    pub tag: Option<Seq<char>>,
    pub code: Option<Seq<char>>,
    pub message: Option<Seq<char>>,
}

/// The view of an optional string.
pub open spec fn opt_view(o: Option<String>) -> Option<Seq<char>> {
    match o {
        Some(s) => Some(s@),
        None => None,
    }
}

impl View for BaxeAttributes {
    type V = SpecBaxeAttributes;

    open spec fn view(&self) -> SpecBaxeAttributes {
        SpecBaxeAttributes {
            status: opt_view(self.status),
            tag: opt_view(self.tag),
            code: opt_view(self.code),
            message: opt_view(self.message),
        }
    }
}

/// The extraction state before any entry has been read: all four fields
/// unset.
pub open spec fn empty_attrs() -> SpecBaxeAttributes {
    SpecBaxeAttributes { status: None, tag: None, code: None, message: None }
}

/// A metadata value as expression source text: a string literal becomes a
/// quoted literal, any other expression is kept verbatim.
pub open spec fn spec_value_text(v: SpecMetaValue) -> Seq<char> {
    match v {
        SpecMetaValue::StrLit(s) => rust_str_lit(s),
        SpecMetaValue::Expr(t) => t,
    }
}

/// How one metadata entry updates the extraction state. A recognized key
/// overwrites its field; `tag` and `message` reject a value that is not a
/// string literal; an unrecognized key changes nothing.
pub open spec fn spec_attr_step(m: SpecBaxeAttributes, e: SpecMetaEntry) -> Result<
    SpecBaxeAttributes,
    MetaKey,
> {
    if e.key == "status"@ {
        Ok(
            SpecBaxeAttributes {
                status: Some(spec_value_text(e.value)),
                tag: m.tag,
                code: m.code,
                message: m.message,
            },
        )
    } else if e.key == "tag"@ {
        match e.value {
            SpecMetaValue::StrLit(s) => Ok(
                SpecBaxeAttributes {
                    status: m.status,
                    tag: Some(s),
                    code: m.code,
                    message: m.message,
                },
            ),
            SpecMetaValue::Expr(_) => Err(MetaKey::Tag),
        }
    } else if e.key == "code"@ {
        Ok(
            SpecBaxeAttributes {
                status: m.status,
                tag: m.tag,
                code: Some(spec_value_text(e.value)),
                message: m.message,
            },
        )
    } else if e.key == "message"@ {
        match e.value {
            SpecMetaValue::StrLit(s) => Ok(
                SpecBaxeAttributes {
                    status: m.status,
                    tag: m.tag,
                    code: m.code,
                    message: Some(s),
                },
            ),
            SpecMetaValue::Expr(_) => Err(MetaKey::Message),
        }
    } else {
        Ok(m)
    }
}

/// Extraction over the first `n` entries of a metadata block, in order,
/// stopping at the first rejected entry.
pub open spec fn spec_extract_prefix(attrs: Seq<SpecMetaEntry>, n: int) -> Result<
    SpecBaxeAttributes,
    MetaKey,
> decreases n,
{
    if n <= 0 {
        Ok(empty_attrs())
    } else {
        match spec_extract_prefix(attrs, n - 1) {
            Ok(m) => spec_attr_step(m, attrs[n - 1]),
            Err(k) => Err(k),
        }
    }
}

/// Extraction over a whole metadata block.
pub open spec fn spec_extract(attrs: Seq<SpecMetaEntry>) -> Result<SpecBaxeAttributes, MetaKey> {
    spec_extract_prefix(attrs, attrs.len() as int)
}

/// Extraction for one variant, wrapping a rejected key into the error
/// that names the variant.
pub open spec fn spec_meta_of(v: SpecVariantDecl) -> Result<SpecBaxeAttributes, SpecExpandError> {
    match spec_extract(v.attrs) {
        Ok(m) => Ok(m),
        Err(k) => Err(SpecExpandError::NonStringValue { variant: v.name, key: k }),
    }
}

/// Once a prefix of the metadata block is rejected, every longer prefix
/// is rejected with the same key.
pub proof fn lemma_extract_err_sticky(attrs: Seq<SpecMetaEntry>, n: int, m: int)
    requires
        0 <= n <= m <= attrs.len(),
        spec_extract_prefix(attrs, n) is Err,
    ensures
        spec_extract_prefix(attrs, m) == spec_extract_prefix(attrs, n),
    decreases m - n,
{
    if m > n {
        lemma_extract_err_sticky(attrs, n, m - 1);
    }
}

/// A metadata value as expression source text.
pub fn value_text(v: &MetaValue) -> (r: String)
    ensures
        r@ == spec_value_text(v@),
{
    match v {
        MetaValue::StrLit(s) => {
            let mut out = String::new();
            push_rust_str_lit(&mut out, s.as_str());
            out
        },
        MetaValue::Expr(t) => t.clone(),
    }
}

/// Reads one variant's metadata block and yields its four metadata
/// fields, or the error naming the variant and the first key whose value
/// was required to be a string literal and was not.
pub fn parse_baxe_attributes(variant: &VariantDecl) -> (r: Result<BaxeAttributes, ExpandError>)
    ensures
        match spec_extract(variant@.attrs) {
            Ok(m) => r matches Ok(a) && a@ == m,
            Err(k) => r matches Err(e) && e@ == (SpecExpandError::NonStringValue {
                variant: variant@.name,
                key: k,
            }),
        },
{
    let mut acc = BaxeAttributes { status: None, tag: None, code: None, message: None };
    let n = variant.attrs.len();
    let mut i: usize = 0;
    while i < n
        invariant
            n == variant.attrs@.len(),
            i <= n,
            variant@.attrs.len() == n,
            spec_extract_prefix(variant@.attrs, i as int) == Ok::<SpecBaxeAttributes, MetaKey>(
                acc@,
            ),
        decreases n - i,
    {
        let entry = &variant.attrs[i];
        proof {
            assert(variant@.attrs[i as int] == entry@);
        }
        if str_eq(entry.key.as_str(), "status") {
            acc.status = Some(value_text(&entry.value));
        } else if str_eq(entry.key.as_str(), "tag") {
            match &entry.value {
                MetaValue::StrLit(s) => {
                    acc.tag = Some(s.clone());
                },
                MetaValue::Expr(_) => {
                    proof {
                        lemma_extract_err_sticky(variant@.attrs, i + 1, n as int);
                    }
                    return Err(
                        ExpandError::NonStringValue {
                            variant: variant.name.clone(),
                            key: MetaKey::Tag,
                        },
                    );
                },
            }
        } else if str_eq(entry.key.as_str(), "code") {
            acc.code = Some(value_text(&entry.value));
        } else if str_eq(entry.key.as_str(), "message") {
            match &entry.value {
                MetaValue::StrLit(s) => {
                    acc.message = Some(s.clone());
                },
                MetaValue::Expr(_) => {
                    proof {
                        lemma_extract_err_sticky(variant@.attrs, i + 1, n as int);
                    }
                    return Err(
                        ExpandError::NonStringValue {
                            variant: variant.name.clone(),
                            key: MetaKey::Message,
                        },
                    );
                },
            }
        }
        i = i + 1;
    }
    Ok(acc)
}

} // verus!
