//! Per-variant synthesis: the redeclared variant list, the match pattern
//! for each variant, and the five parallel per-variant columns that the
//! generated functions are assembled from.

use vstd::prelude::*;

use crate::attrs::BaxeAttributes;
use crate::attrs::SpecBaxeAttributes;
use crate::attrs::opt_view;
use crate::attrs::parse_baxe_attributes;
use crate::attrs::spec_meta_of;
use crate::decl::Declaration;
use crate::decl::DeclData;
use crate::decl::ExpandError;
use crate::decl::Shape;
use crate::decl::SpecDeclData;
use crate::decl::SpecExpandError;
use crate::decl::SpecFieldDecl;
use crate::decl::SpecShape;
use crate::decl::SpecVariantDecl;
use crate::decl::VariantDecl;
use crate::text::join_comma;
use crate::text::push_join_comma;
use crate::text::views_of;

verus! {

/// One named field as it is redeclared: `name: Type`.
pub open spec fn spec_field_def(f: SpecFieldDecl) -> Seq<char> {
    f.name + ": "@ + f.ty
}

/// How one variant is redeclared in the generated type, shape-preserving:
/// the bare name, `Name(T, U)`, or `Name { a: A, b: B }`.
pub open spec fn spec_variant_def(v: SpecVariantDecl) -> Seq<char> {
    match v.shape {
        SpecShape::Unit => v.name,
        SpecShape::Positional(tys) => v.name + "("@ + join_comma(tys) + ")"@,
        SpecShape::Named(fs) => v.name + " { "@ + join_comma(
            fs.map_values(|f: SpecFieldDecl| spec_field_def(f)),
        ) + " }"@,
    }
}

/// The match pattern used for one variant in every generated function.
/// The pattern never binds the variant's data: positional data is matched
/// with `(..)` and named data with `{ .. }`.
pub open spec fn spec_pattern(enum_name: Seq<char>, v: SpecVariantDecl) -> Seq<char> {
    enum_name + "::"@ + v.name + match v.shape {
        SpecShape::Unit => Seq::<char>::empty(),
        SpecShape::Positional(_) => "(..)"@,
        SpecShape::Named(_) => " { .. }"@,
    }
}

/// The synthesized per-variant pieces, one row per declared variant: the
/// match pattern and the four metadata fields threaded into the four
/// generated functions.
pub struct ArmData {
    pub pattern: String,
    pub status: Option<String>,
    pub tag: Option<String>,
    pub code: Option<String>,
    pub message: Option<String>,
}

/// Mathematical model of an `ArmData`.
pub ghost struct SpecArmData {
    pub pattern: Seq<char>,
    pub status: Option<Seq<char>>,
    pub tag: Option<Seq<char>>,
    pub code: Option<Seq<char>>,
    pub message: Option<Seq<char>>,
}

impl View for ArmData {
    type V = SpecArmData;

    open spec fn view(&self) -> SpecArmData {
        SpecArmData {
            pattern: self.pattern@,
            status: opt_view(self.status),
            tag: opt_view(self.tag),
            code: opt_view(self.code),
            message: opt_view(self.message),
        }
    }
}

/// The row synthesized for one variant whose metadata extracted cleanly.
pub open spec fn spec_arm_of(enum_name: Seq<char>, v: SpecVariantDecl) -> SpecArmData {
    let m = match spec_meta_of(v) {
        Ok(m) => m,
        Err(_) => crate::attrs::empty_attrs(),
    };
    SpecArmData {
        pattern: spec_pattern(enum_name, v),
        status: m.status,
        tag: m.tag,
        code: m.code,
        message: m.message,
    }
}

/// The whole synthesized taxonomy: the generated type's name, the
/// redeclared variant list, and the five parallel per-variant columns.
/// Every column has one entry per declared variant, in declaration order.
pub struct GeneratedTaxonomy {
    pub enum_name: String,
    pub variant_defs: Vec<String>,
    pub patterns: Vec<String>,
    pub statuses: Vec<Option<String>>,
    pub tags: Vec<Option<String>>,
    pub codes: Vec<Option<String>>,
    pub messages: Vec<Option<String>>,
}

/// Mathematical model of a `GeneratedTaxonomy`.
pub ghost struct SpecGeneratedTaxonomy {
    pub enum_name: Seq<char>,
    pub variant_defs: Seq<Seq<char>>,
    pub patterns: Seq<Seq<char>>,
    pub statuses: Seq<Option<Seq<char>>>,
    pub tags: Seq<Option<Seq<char>>>,
    pub codes: Seq<Option<Seq<char>>>,
    pub messages: Seq<Option<Seq<char>>>,
}

/// The view of one optional-string column.
pub open spec fn col_view(c: Seq<Option<String>>) -> Seq<Option<Seq<char>>> {
    c.map_values(|o: Option<String>| opt_view(o))
}

impl View for GeneratedTaxonomy {
    type V = SpecGeneratedTaxonomy;

    open spec fn view(&self) -> SpecGeneratedTaxonomy {
        SpecGeneratedTaxonomy {
            enum_name: self.enum_name@,
            variant_defs: views_of(self.variant_defs@),
            patterns: views_of(self.patterns@),
            statuses: col_view(self.statuses@),
            tags: col_view(self.tags@),
            codes: col_view(self.codes@),
            messages: col_view(self.messages@),
        }
    }
}

impl SpecGeneratedTaxonomy {
    /// The defensive arity invariant: the redeclared variant list and all
    /// five columns have the same length.
    pub open spec fn wf(self) -> bool {
        &&& self.variant_defs.len() == self.patterns.len()
        &&& self.statuses.len() == self.patterns.len()
        &&& self.tags.len() == self.patterns.len()
        &&& self.codes.len() == self.patterns.len()
        &&& self.messages.len() == self.patterns.len()
    }
}

/// Whether every variant's metadata block extracts without error.
pub open spec fn all_meta_ok(vs: Seq<SpecVariantDecl>) -> bool {
    forall|i: int| 0 <= i < vs.len() ==> (#[trigger] spec_meta_of(vs[i])) is Ok
}

/// The taxonomy synthesized from an enum-shaped declaration whose
/// metadata all extracts cleanly: one row per variant, in declaration
/// order, each row derived from that variant alone.
pub open spec fn spec_taxonomy(name: Seq<char>, vs: Seq<SpecVariantDecl>) -> SpecGeneratedTaxonomy {
    SpecGeneratedTaxonomy {
        enum_name: name,
        variant_defs: vs.map_values(|v: SpecVariantDecl| spec_variant_def(v)),
        patterns: vs.map_values(|v: SpecVariantDecl| spec_pattern(name, v)),
        statuses: vs.map_values(|v: SpecVariantDecl| spec_arm_of(name, v).status),
        tags: vs.map_values(|v: SpecVariantDecl| spec_arm_of(name, v).tag),
        codes: vs.map_values(|v: SpecVariantDecl| spec_arm_of(name, v).code),
        messages: vs.map_values(|v: SpecVariantDecl| spec_arm_of(name, v).message),
    }
}

/// How one variant is redeclared in the generated type.
pub fn variant_def(v: &VariantDecl) -> (r: String)
    ensures
        r@ == spec_variant_def(v@),
{
    match &v.shape {
        Shape::Unit => v.name.clone(),
        Shape::Positional(tys) => {
            let mut out = v.name.clone();
            out.append("(");
            push_join_comma(&mut out, tys);
            out.append(")");
            proof {
                assert(views_of(tys@) =~= v@.shape->Positional_0);
                assert(out@ =~= spec_variant_def(v@));
            }
            out
        },
        Shape::Named(fields) => {
            let mut rendered: Vec<String> = Vec::new();
            let mut j: usize = 0;
            while j < fields.len()
                invariant
                    j <= fields@.len(),
                    rendered@.len() == j,
                    forall|k: int|
                        0 <= k < j ==> (#[trigger] rendered@[k])@ == spec_field_def(fields@[k]@),
                decreases fields@.len() - j,
            {
                let mut f = fields[j].name.clone();
                f.append(": ");
                f.append(fields[j].ty.as_str());
                rendered.push(f);
                j = j + 1;
            }
            let mut out = v.name.clone();
            out.append(" { ");
            push_join_comma(&mut out, &rendered);
            out.append(" }");
            proof {
                let fs = v@.shape->Named_0;
                assert(views_of(rendered@) =~= fs.map_values(|f: SpecFieldDecl| spec_field_def(f)));
                assert(out@ =~= spec_variant_def(v@));
            }
            out
        },
    }
}

/// The match pattern used for one variant in every generated function.
pub fn pattern_of(enum_name: &str, v: &VariantDecl) -> (r: String)
    ensures
        r@ == spec_pattern(enum_name@, v@),
{
    let mut out = String::new();
    out.append(enum_name);
    out.append("::");
    out.append(v.name.as_str());
    match &v.shape {
        Shape::Unit => {},
        Shape::Positional(_) => {
            out.append("(..)");
        },
        Shape::Named(_) => {
            out.append(" { .. }");
        },
    }
    proof {
        assert(out@ =~= spec_pattern(enum_name@, v@));
    }
    out
}

/// Clones one optional string.
fn clone_opt(o: &Option<String>) -> (r: Option<String>)
    ensures
        opt_view(r) == opt_view(*o),
{
    match o {
        Some(s) => Some(s.clone()),
        None => None,
    }
}

/// Splits the collected per-variant rows into their five parallel
/// columns, preserving length and order of each.
pub fn unzip_n_vec(arms: Vec<ArmData>) -> (r: (
    Vec<String>,
    Vec<Option<String>>,
    Vec<Option<String>>,
    Vec<Option<String>>,
    Vec<Option<String>>,
))
    ensures
        r.0@.len() == arms@.len(),
        r.1@.len() == arms@.len(),
        r.2@.len() == arms@.len(),
        r.3@.len() == arms@.len(),
        r.4@.len() == arms@.len(),
        forall|i: int|
            0 <= i < arms@.len() ==> (#[trigger] r.0@[i])@ == arms@[i]@.pattern,
        forall|i: int|
            0 <= i < arms@.len() ==> opt_view(#[trigger] r.1@[i]) == arms@[i]@.status,
        forall|i: int|
            0 <= i < arms@.len() ==> opt_view(#[trigger] r.2@[i]) == arms@[i]@.tag,
        forall|i: int|
            0 <= i < arms@.len() ==> opt_view(#[trigger] r.3@[i]) == arms@[i]@.code,
        forall|i: int|
            0 <= i < arms@.len() ==> opt_view(#[trigger] r.4@[i]) == arms@[i]@.message,
{
    let mut t1: Vec<String> = Vec::new();
    let mut t2: Vec<Option<String>> = Vec::new();
    let mut t3: Vec<Option<String>> = Vec::new();
    let mut t4: Vec<Option<String>> = Vec::new();
    let mut t5: Vec<Option<String>> = Vec::new();
    let mut i: usize = 0;
    while i < arms.len()
        invariant
            i <= arms@.len(),
            t1@.len() == i,
            t2@.len() == i,
            t3@.len() == i,
            t4@.len() == i,
            t5@.len() == i,
            forall|k: int| 0 <= k < i ==> (#[trigger] t1@[k])@ == arms@[k]@.pattern,
            forall|k: int| 0 <= k < i ==> opt_view(#[trigger] t2@[k]) == arms@[k]@.status,
            forall|k: int| 0 <= k < i ==> opt_view(#[trigger] t3@[k]) == arms@[k]@.tag,
            forall|k: int| 0 <= k < i ==> opt_view(#[trigger] t4@[k]) == arms@[k]@.code,
            forall|k: int| 0 <= k < i ==> opt_view(#[trigger] t5@[k]) == arms@[k]@.message,
        decreases arms@.len() - i,
    {
        let a = &arms[i];
        t1.push(a.pattern.clone());
        t2.push(clone_opt(&a.status));
        t3.push(clone_opt(&a.tag));
        t4.push(clone_opt(&a.code));
        t5.push(clone_opt(&a.message));
        i = i + 1;
    }
    (t1, t2, t3, t4, t5)
}

/// Assembles the synthesized taxonomy from an enum-shaped declaration:
/// the variant list is redeclared shape-preservingly, every declared
/// variant yields exactly one row, rows stand in declaration order, and
/// each row is derived from its own variant's metadata alone. A
/// declaration that is not enum-shaped is rejected, as is the first
/// variant whose metadata block holds a non-string `tag` or `message`.
#[verifier::rlimit(100)]
pub fn build_taxonomy(item: &Declaration) -> (r: Result<GeneratedTaxonomy, ExpandError>)
    ensures
        match item@.data {
            SpecDeclData::Enum(vs) => {
                &&& (all_meta_ok(vs) <==> r is Ok)
                &&& (r matches Ok(t) ==> t@ == spec_taxonomy(item@.name, vs))
                &&& (r matches Err(e) ==> exists|j: int|
                    #![trigger vs[j]]
                    0 <= j < vs.len() && (forall|k: int|
                        0 <= k < j ==> (#[trigger] spec_meta_of(vs[k])) is Ok) && spec_meta_of(
                        vs[j],
                    ) == Err::<SpecBaxeAttributes, SpecExpandError>(e@))
            },
            _ => r matches Err(e) && e@ == SpecExpandError::NotAnEnum,
        },
{
    let variants: &Vec<VariantDecl> = match &item.data {
        DeclData::Enum(vs) => vs,
        DeclData::Struct => {
            return Err(ExpandError::NotAnEnum);
        },
        DeclData::Union => {
            return Err(ExpandError::NotAnEnum);
        },
    };
    let ghost vs = item@.data->Enum_0;
    let mut variant_defs: Vec<String> = Vec::new();
    let mut arms: Vec<ArmData> = Vec::new();
    let mut i: usize = 0;
    while i < variants.len()
        invariant
            i <= variants@.len(),
            item@.data is Enum,
            vs == item@.data->Enum_0,
            vs == variants@.map_values(|v: VariantDecl| v@),
            variant_defs@.len() == i,
            arms@.len() == i,
            forall|k: int|
                0 <= k < i ==> (#[trigger] variant_defs@[k])@ == spec_variant_def(vs[k]),
            forall|k: int| 0 <= k < i ==> (#[trigger] spec_meta_of(vs[k])) is Ok,
            forall|k: int| 0 <= k < i ==> (#[trigger] arms@[k])@ == spec_arm_of(item@.name, vs[k]),
        decreases variants@.len() - i,
    {
        let v = &variants[i];
        proof {
            assert(vs[i as int] == v@);
        }
        variant_defs.push(variant_def(v));
        let attrs = match parse_baxe_attributes(v) {
            Ok(a) => a,
            Err(e) => {
                proof {
                    let j = i as int;
                    assert(spec_meta_of(vs[j]) is Err);
                    assert(!all_meta_ok(vs));
                    assert(0 <= j < vs.len() && (forall|k: int|
                        0 <= k < j ==> (#[trigger] spec_meta_of(vs[k])) is Ok) && spec_meta_of(
                        vs[j],
                    ) == Err::<SpecBaxeAttributes, SpecExpandError>(e@));
                    assert(exists|j: int|
                        #![trigger vs[j]]
                        0 <= j < vs.len() && (forall|k: int|
                            0 <= k < j ==> (#[trigger] spec_meta_of(vs[k])) is Ok) && spec_meta_of(
                            vs[j],
                        ) == Err::<SpecBaxeAttributes, SpecExpandError>(e@));
                }
                return Err(e);
            },
        };
        let pattern = pattern_of(item.name.as_str(), v);
        arms.push(
            ArmData {
                pattern,
                status: attrs.status,
                tag: attrs.tag,
                code: attrs.code,
                message: attrs.message,
            },
        );
        i = i + 1;
    }
    let (patterns, statuses, tags, codes, messages) = unzip_n_vec(arms);
    let t = GeneratedTaxonomy {
        enum_name: item.name.clone(),
        variant_defs,
        patterns,
        statuses,
        tags,
        codes,
        messages,
    };
    proof {
        assert(t@.variant_defs =~= spec_taxonomy(item@.name, vs).variant_defs);
        assert(t@.patterns =~= spec_taxonomy(item@.name, vs).patterns);
        assert(t@.statuses =~= spec_taxonomy(item@.name, vs).statuses);
        assert(t@.tags =~= spec_taxonomy(item@.name, vs).tags);
        assert(t@.codes =~= spec_taxonomy(item@.name, vs).codes);
        assert(t@.messages =~= spec_taxonomy(item@.name, vs).messages);
    }
    Ok(t)
}

} // verus!
