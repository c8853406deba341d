//! The taxonomy expander: the single pass that turns one declaration
//! into the whole generated unit, or aborts with the first error.

use vstd::prelude::*;

use crate::attrs::SpecBaxeAttributes;
use crate::attrs::spec_meta_of;
use crate::decl::Declaration;
use crate::decl::ExpandError;
use crate::decl::SpecDeclData;
use crate::decl::SpecDeclaration;
use crate::decl::SpecExpandError;
use crate::render::render;
use crate::render::spec_generated;
use crate::taxonomy::all_meta_ok;
use crate::taxonomy::build_taxonomy;
use crate::taxonomy::spec_taxonomy;

verus! {

/// The generated source text for an enum-shaped declaration whose
/// metadata all extracts cleanly: a pure function of the declaration
/// alone, so expansion is deterministic.
pub open spec fn spec_expansion(d: SpecDeclaration) -> Seq<char> {
    spec_generated(spec_taxonomy(d.name, d.data->Enum_0))
}

/// Expands one declaration into generated source text.
///
/// A declaration that is not enum-shaped is rejected whole. An
/// enum-shaped declaration expands successfully exactly when every
/// variant's metadata block extracts cleanly; the produced text is a
/// function of the declaration alone, so re-running expansion on an
/// unchanged declaration gives byte-identical output. Otherwise the
/// first variant (in declaration order) whose `tag` or `message` holds a
/// non-string value is reported, and nothing is emitted.
pub fn error(item: &Declaration) -> (r: Result<String, ExpandError>)
    ensures
        match item@.data {
            SpecDeclData::Enum(vs) => {
                &&& (all_meta_ok(vs) <==> r is Ok)
                &&& (r matches Ok(s) ==> s@ == spec_expansion(item@))
                &&& (r matches Err(e) ==> exists|j: int|
                    #![trigger vs[j]]
                    0 <= j < vs.len() && (forall|k: int|
                        0 <= k < j ==> (#[trigger] spec_meta_of(vs[k])) is Ok) && spec_meta_of(
                        vs[j],
                    ) == Err::<SpecBaxeAttributes, SpecExpandError>(e@))
            },
            _ => r matches Err(e) && e@ == SpecExpandError::NotAnEnum,
        },
{
    match build_taxonomy(item) {
        Ok(t) => Ok(render(&t)),
        Err(e) => Err(e),
    }
}

} // verus!
