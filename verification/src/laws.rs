//! The expander's structural laws, stated and proved over the same spec
//! functions that the executable contracts use.

use vstd::prelude::*;

use crate::attrs::SpecBaxeAttributes;
use crate::attrs::spec_meta_of;
use crate::decl::SpecDeclaration;
use crate::decl::SpecShape;
use crate::decl::SpecVariantDecl;
use crate::expand::spec_expansion;
use crate::taxonomy::spec_arm_of;
use crate::taxonomy::spec_pattern;
use crate::taxonomy::spec_taxonomy;
use crate::taxonomy::spec_variant_def;

verus! {

/// A taxonomy synthesized from a declaration with N variants has exactly
/// N constructors and N entries in every per-variant column, one per
/// original variant, in original declaration order.
pub proof fn lemma_expansion_complete(name: Seq<char>, vs: Seq<SpecVariantDecl>)
    ensures
        spec_taxonomy(name, vs).variant_defs.len() == vs.len(),
        spec_taxonomy(name, vs).patterns.len() == vs.len(),
        spec_taxonomy(name, vs).statuses.len() == vs.len(),
        spec_taxonomy(name, vs).tags.len() == vs.len(),
        spec_taxonomy(name, vs).codes.len() == vs.len(),
        spec_taxonomy(name, vs).messages.len() == vs.len(),
        forall|i: int|
            0 <= i < vs.len() ==> spec_taxonomy(name, vs).variant_defs[i] == spec_variant_def(
                #[trigger] vs[i],
            ),
        forall|i: int|
            0 <= i < vs.len() ==> spec_taxonomy(name, vs).patterns[i] == spec_pattern(
                name,
                #[trigger] vs[i],
            ),
{
}

/// Each variant's metadata is threaded into the columns exactly as
/// extracted: a set field arrives verbatim, and an unset field arrives
/// as the same unset marker, never defaulted and never borrowed from
/// another variant.
pub proof fn lemma_metadata_threaded(
    name: Seq<char>,
    vs: Seq<SpecVariantDecl>,
    i: int,
    m: SpecBaxeAttributes,
)
    requires
        0 <= i < vs.len(),
        spec_meta_of(vs[i]) == Ok::<SpecBaxeAttributes, crate::decl::SpecExpandError>(m),
    ensures
        spec_taxonomy(name, vs).statuses[i] == m.status,
        spec_taxonomy(name, vs).tags[i] == m.tag,
        spec_taxonomy(name, vs).codes[i] == m.code,
        spec_taxonomy(name, vs).messages[i] == m.message,
{
    assert(spec_arm_of(name, vs[i]).status == m.status);
}

/// No cross-variant leakage: what the expansion synthesizes for the
/// variant at one position depends on that variant's own declaration
/// alone, never on the metadata of its neighbours.
pub proof fn lemma_no_cross_variant_leakage(
    name: Seq<char>,
    vs1: Seq<SpecVariantDecl>,
    vs2: Seq<SpecVariantDecl>,
    i: int,
)
    requires
        0 <= i < vs1.len(),
        0 <= i < vs2.len(),
        vs1[i] == vs2[i],
    ensures
        spec_taxonomy(name, vs1).variant_defs[i] == spec_taxonomy(name, vs2).variant_defs[i],
        spec_taxonomy(name, vs1).patterns[i] == spec_taxonomy(name, vs2).patterns[i],
        spec_taxonomy(name, vs1).statuses[i] == spec_taxonomy(name, vs2).statuses[i],
        spec_taxonomy(name, vs1).tags[i] == spec_taxonomy(name, vs2).tags[i],
        spec_taxonomy(name, vs1).codes[i] == spec_taxonomy(name, vs2).codes[i],
        spec_taxonomy(name, vs1).messages[i] == spec_taxonomy(name, vs2).messages[i],
{
}

/// The match pattern synthesized for a variant never reads the variant's
/// payload: two variants of the same name and the same shape class get
/// the same pattern, whatever data they carry.
pub proof fn lemma_pattern_ignores_payload(
    enum_name: Seq<char>,
    v1: SpecVariantDecl,
    v2: SpecVariantDecl,
)
    requires
        v1.name == v2.name,
        v1.shape is Unit <==> v2.shape is Unit,
        v1.shape is Positional <==> v2.shape is Positional,
        v1.shape is Named <==> v2.shape is Named,
    ensures
        spec_pattern(enum_name, v1) == spec_pattern(enum_name, v2),
{
    match v1.shape {
        SpecShape::Unit => {},
        SpecShape::Positional(_) => {},
        SpecShape::Named(_) => {},
    }
}

/// The three accessors and the display text read only a variant's name
/// and metadata block: the variant's data shape and payload types play
/// no part in what is extracted for them.
pub proof fn lemma_accessors_ignore_payload(v1: SpecVariantDecl, v2: SpecVariantDecl)
    requires
        v1.name == v2.name,
        v1.attrs == v2.attrs,
    ensures
        spec_meta_of(v1) == spec_meta_of(v2),
{
}

/// Expansion is deterministic: two expansions of one unchanged
/// declaration are byte-identical, because each equals the one spec-level
/// text that the declaration determines.
pub proof fn lemma_expansion_deterministic(d: SpecDeclaration, a: Seq<char>, b: Seq<char>)
    requires
        a == spec_expansion(d),
        b == spec_expansion(d),
    ensures
        a == b,
{
}

} // verus!
