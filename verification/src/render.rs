//! Rendering of a synthesized taxonomy into generated source text: the
//! generated type, the display function, the three accessors, and the two
//! conversions, each match built from the same per-variant columns.

use vstd::prelude::*;

use crate::attrs::opt_view;
use crate::taxonomy::GeneratedTaxonomy;
use crate::text::push_rust_str_lit;
use crate::text::rust_str_lit;
use crate::text::views_of;

verus! {

/// Expression text of an optional column entry: an unset field renders
/// as nothing at all, the same unset marker wherever it is woven in.
pub open spec fn opt_text(o: Option<Seq<char>>) -> Seq<char> {
    match o {
        Some(t) => t,
        None => Seq::<char>::empty(),
    }
}

/// The arm body for the tag accessor: the tag re-quoted as a string
/// literal, or nothing when unset.
pub open spec fn spec_tag_body(t: Option<Seq<char>>) -> Seq<char> {
    match t {
        Some(s) => rust_str_lit(s),
        None => Seq::<char>::empty(),
    }
}

/// The arm body for the display function: the message written verbatim
/// as the format string, or nothing in its place when unset.
pub open spec fn spec_display_body(m: Option<Seq<char>>) -> Seq<char> {
    "write!(f, "@ + spec_tag_body(m) + ")"@
}

/// One generated match arm.
pub open spec fn spec_arm(p: Seq<char>, b: Seq<char>) -> Seq<char> {
    "            "@ + p + " => "@ + b + ",\n"@
}

/// The generated match arms, one per variant, in declaration order.
pub open spec fn spec_arms(patterns: Seq<Seq<char>>, bodies: Seq<Seq<char>>) -> Seq<char>
    decreases patterns.len(),
{
    if patterns.len() == 0 {
        Seq::empty()
    } else {
        spec_arms(patterns.drop_last(), bodies.drop_last()) + spec_arm(
            patterns.last(),
            bodies.last(),
        )
    }
}

/// The redeclared variant list, one line per variant, in declaration
/// order.
pub open spec fn spec_variant_list(defs: Seq<Seq<char>>) -> Seq<char>
    decreases defs.len(),
{
    if defs.len() == 0 {
        Seq::empty()
    } else {
        spec_variant_list(defs.drop_last()) + "    "@ + defs.last() + ",\n"@
    }
}

/// The generated taxonomy type, one constructor per declared variant.
pub open spec fn spec_enum_section(name: Seq<char>, defs: Seq<Seq<char>>) -> Seq<char> {
    "#[derive(Debug)]\npub enum "@ + name + " {\n"@ + spec_variant_list(defs) + "}\n"@
}

/// The generated display function: variant to message.
pub open spec fn spec_display_section(
    name: Seq<char>,
    patterns: Seq<Seq<char>>,
    messages: Seq<Option<Seq<char>>>,
) -> Seq<char> {
    "\nimpl std::fmt::Display for "@ + name
        + " {\n    fn fmt(&self, f: &mut std::fmt::Formatter<'_>) -> std::fmt::Result {\n        match self {\n"@
        + spec_arms(patterns, messages.map_values(|m: Option<Seq<char>>| spec_display_body(m)))
        + "        }\n    }\n}\n"@
}

/// The generated marker implementation of the standard error trait.
pub open spec fn spec_error_section(name: Seq<char>) -> Seq<char> {
    "\nimpl std::error::Error for "@ + name + " {}\n"@
}

/// The three generated classification accessors: variant to status
/// expression, to tag string, and to code expression.
pub open spec fn spec_backend_section(
    name: Seq<char>,
    patterns: Seq<Seq<char>>,
    statuses: Seq<Option<Seq<char>>>,
    tags: Seq<Option<Seq<char>>>,
    codes: Seq<Option<Seq<char>>>,
) -> Seq<char> {
    "\nimpl baxe::BackendError for "@ + name
        + " {\n    fn to_status_code(&self) -> axum::http::StatusCode {\n        match self {\n"@
        + spec_arms(patterns, statuses.map_values(|o: Option<Seq<char>>| opt_text(o)))
        + "        }\n    }\n\n    fn to_error_tag(&self) -> &str {\n        match self {\n"@
        + spec_arms(patterns, tags.map_values(|t: Option<Seq<char>>| spec_tag_body(t)))
        + "        }\n    }\n\n    fn to_error_code(&self) -> u16 {\n        match self {\n"@
        + spec_arms(patterns, codes.map_values(|o: Option<Seq<char>>| opt_text(o)))
        + "        }\n    }\n}\n"@
}

/// The generated conversion into the generic error envelope: the status
/// is fetched first and stored separately, then tag, code and message
/// fill the envelope's own fields.
pub open spec fn spec_from_section(name: Seq<char>) -> Seq<char> {
    "\nimpl From<"@ + name + "> for baxe::BaxeError {\n    fn from(error: "@ + name
        + ") -> Self {\n        let status = error.to_status_code();\n        baxe::BaxeError {\n            status_code: status,\n            error_tag: error.to_error_tag().to_string(),\n            code: error.to_error_code(),\n            message: error.to_string(),\n        }\n    }\n}\n"@
}

/// The generated conversion into a transport response: the status paired
/// with the serialized envelope.
pub open spec fn spec_response_section(name: Seq<char>) -> Seq<char> {
    "\nimpl axum::response::IntoResponse for "@ + name
        + " {\n    fn into_response(self) -> axum::response::Response {\n        (self.to_status_code(), axum::Json(baxe::BaxeError::from(self))).into_response()\n    }\n}\n"@
}

/// The whole generated unit, a pure function of the synthesized
/// taxonomy: the same taxonomy always renders to the same text.
pub open spec fn spec_generated(t: crate::taxonomy::SpecGeneratedTaxonomy) -> Seq<char> {
    spec_enum_section(t.enum_name, t.variant_defs) + spec_display_section(
        t.enum_name,
        t.patterns,
        t.messages,
    ) + spec_error_section(t.enum_name) + spec_backend_section(
        t.enum_name,
        t.patterns,
        t.statuses,
        t.tags,
        t.codes,
    ) + spec_from_section(t.enum_name) + spec_response_section(t.enum_name)
}

/// The arm bodies of the display function, one per variant.
fn display_bodies(messages: &Vec<Option<String>>) -> (r: Vec<String>)
    ensures
        r@.len() == messages@.len(),
        forall|i: int|
            0 <= i < messages@.len() ==> (#[trigger] r@[i])@ == spec_display_body(
                opt_view(messages@[i]),
            ),
{
    let mut r: Vec<String> = Vec::new();
    let mut i: usize = 0;
    while i < messages.len()
        invariant
            i <= messages@.len(),
            r@.len() == i,
            forall|k: int|
                0 <= k < i ==> (#[trigger] r@[k])@ == spec_display_body(opt_view(messages@[k])),
        decreases messages@.len() - i,
    {
        let mut b = String::new();
        b.append("write!(f, ");
        match &messages[i] {
            Some(s) => {
                push_rust_str_lit(&mut b, s.as_str());
            },
            None => {},
        }
        b.append(")");
        proof {
            assert(b@ =~= spec_display_body(opt_view(messages@[i as int])));
        }
        r.push(b);
        i = i + 1;
    }
    r
}

/// The arm bodies of the tag accessor, one per variant.
fn tag_bodies(tags: &Vec<Option<String>>) -> (r: Vec<String>)
    ensures
        r@.len() == tags@.len(),
        forall|i: int|
            0 <= i < tags@.len() ==> (#[trigger] r@[i])@ == spec_tag_body(opt_view(tags@[i])),
{
    let mut r: Vec<String> = Vec::new();
    let mut i: usize = 0;
    while i < tags.len()
        invariant
            i <= tags@.len(),
            r@.len() == i,
            forall|k: int|
                0 <= k < i ==> (#[trigger] r@[k])@ == spec_tag_body(opt_view(tags@[k])),
        decreases tags@.len() - i,
    {
        let mut b = String::new();
        match &tags[i] {
            Some(s) => {
                push_rust_str_lit(&mut b, s.as_str());
            },
            None => {},
        }
        proof {
            assert(b@ =~= spec_tag_body(opt_view(tags@[i as int])));
        }
        r.push(b);
        i = i + 1;
    }
    r
}

/// The arm bodies of the status and code accessors, one per variant: the
/// captured expression verbatim, or nothing when unset.
fn expr_bodies(col: &Vec<Option<String>>) -> (r: Vec<String>)
    ensures
        r@.len() == col@.len(),
        forall|i: int|
            0 <= i < col@.len() ==> (#[trigger] r@[i])@ == opt_text(opt_view(col@[i])),
{
    let mut r: Vec<String> = Vec::new();
    let mut i: usize = 0;
    while i < col.len()
        invariant
            i <= col@.len(),
            r@.len() == i,
            forall|k: int| 0 <= k < i ==> (#[trigger] r@[k])@ == opt_text(opt_view(col@[k])),
        decreases col@.len() - i,
    {
        let b = match &col[i] {
            Some(t) => t.clone(),
            None => String::new(),
        };
        r.push(b);
        i = i + 1;
    }
    r
}

/// Appends the generated match arms, one per variant, in order.
fn push_arms(out: &mut String, patterns: &Vec<String>, bodies: &Vec<String>)
    requires
        patterns@.len() == bodies@.len(),
    ensures
        final(out)@ == old(out)@ + spec_arms(views_of(patterns@), views_of(bodies@)),
{
    let mut i: usize = 0;
    while i < patterns.len()
        invariant
            patterns@.len() == bodies@.len(),
            i <= patterns@.len(),
            out@ == old(out)@ + spec_arms(
                views_of(patterns@.take(i as int)),
                views_of(bodies@.take(i as int)),
            ),
        decreases patterns@.len() - i,
    {
        out.append("            ");
        out.append(patterns[i].as_str());
        out.append(" => ");
        out.append(bodies[i].as_str());
        out.append(",\n");
        proof {
            let p = views_of(patterns@.take(i + 1));
            let b = views_of(bodies@.take(i + 1));
            assert(p.drop_last() =~= views_of(patterns@.take(i as int)));
            assert(b.drop_last() =~= views_of(bodies@.take(i as int)));
            assert(p.last() == patterns@[i as int]@);
            assert(b.last() == bodies@[i as int]@);
            assert(out@ =~= old(out)@ + spec_arms(p, b));
        }
        i = i + 1;
    }
    proof {
        assert(views_of(patterns@.take(patterns@.len() as int)) =~= views_of(patterns@));
        assert(views_of(bodies@.take(bodies@.len() as int)) =~= views_of(bodies@));
    }
}

/// Appends the redeclared variant list, one line per variant, in order.
fn push_variant_list(out: &mut String, defs: &Vec<String>)
    ensures
        final(out)@ == old(out)@ + spec_variant_list(views_of(defs@)),
{
    let mut i: usize = 0;
    while i < defs.len()
        invariant
            i <= defs@.len(),
            out@ == old(out)@ + spec_variant_list(views_of(defs@.take(i as int))),
        decreases defs@.len() - i,
    {
        out.append("    ");
        out.append(defs[i].as_str());
        out.append(",\n");
        proof {
            let d = views_of(defs@.take(i + 1));
            assert(d.drop_last() =~= views_of(defs@.take(i as int)));
            assert(d.last() == defs@[i as int]@);
            assert(out@ =~= old(out)@ + spec_variant_list(d));
        }
        i = i + 1;
    }
    proof {
        assert(views_of(defs@.take(defs@.len() as int)) =~= views_of(defs@));
    }
}

/// Renders the synthesized taxonomy as one generated source unit. The
/// output is a pure function of the taxonomy: rendering the same
/// taxonomy twice gives byte-identical text.
pub fn render(t: &GeneratedTaxonomy) -> (r: String)
    requires
        t@.wf(),
    ensures
        r@ == spec_generated(t@),
{
    let mut out = String::new();

    out.append("#[derive(Debug)]\npub enum ");
    out.append(t.enum_name.as_str());
    out.append(" {\n");
    push_variant_list(&mut out, &t.variant_defs);
    out.append("}\n");
    proof {
        assert(out@ =~= spec_enum_section(t@.enum_name, t@.variant_defs));
    }
    let ghost sec1 = out@;

    out.append("\nimpl std::fmt::Display for ");
    out.append(t.enum_name.as_str());
    out.append(
        " {\n    fn fmt(&self, f: &mut std::fmt::Formatter<'_>) -> std::fmt::Result {\n        match self {\n",
    );
    let dbodies = display_bodies(&t.messages);
    push_arms(&mut out, &t.patterns, &dbodies);
    out.append("        }\n    }\n}\n");
    proof {
        assert(views_of(dbodies@) =~= t@.messages.map_values(
            |m: Option<Seq<char>>| spec_display_body(m),
        ));
        assert(out@ =~= sec1 + spec_display_section(t@.enum_name, t@.patterns, t@.messages));
    }
    let ghost sec2 = out@;

    out.append("\nimpl std::error::Error for ");
    out.append(t.enum_name.as_str());
    out.append(" {}\n");
    proof {
        assert(out@ =~= sec2 + spec_error_section(t@.enum_name));
    }
    let ghost sec3 = out@;

    out.append("\nimpl baxe::BackendError for ");
    out.append(t.enum_name.as_str());
    out.append(" {\n    fn to_status_code(&self) -> axum::http::StatusCode {\n        match self {\n");
    let sbodies = expr_bodies(&t.statuses);
    push_arms(&mut out, &t.patterns, &sbodies);
    out.append("        }\n    }\n\n    fn to_error_tag(&self) -> &str {\n        match self {\n");
    let tbodies = tag_bodies(&t.tags);
    push_arms(&mut out, &t.patterns, &tbodies);
    out.append("        }\n    }\n\n    fn to_error_code(&self) -> u16 {\n        match self {\n");
    let cbodies = expr_bodies(&t.codes);
    push_arms(&mut out, &t.patterns, &cbodies);
    out.append("        }\n    }\n}\n");
    proof {
        assert(views_of(sbodies@) =~= t@.statuses.map_values(|o: Option<Seq<char>>| opt_text(o)));
        assert(views_of(tbodies@) =~= t@.tags.map_values(|x: Option<Seq<char>>| spec_tag_body(x)));
        assert(views_of(cbodies@) =~= t@.codes.map_values(|o: Option<Seq<char>>| opt_text(o)));
        assert(out@ =~= sec3 + spec_backend_section(
            t@.enum_name,
            t@.patterns,
            t@.statuses,
            t@.tags,
            t@.codes,
        ));
    }
    let ghost sec4 = out@;

    out.append("\nimpl From<");
    out.append(t.enum_name.as_str());
    out.append("> for baxe::BaxeError {\n    fn from(error: ");
    out.append(t.enum_name.as_str());
    out.append(
        ") -> Self {\n        let status = error.to_status_code();\n        baxe::BaxeError {\n            status_code: status,\n            error_tag: error.to_error_tag().to_string(),\n            code: error.to_error_code(),\n            message: error.to_string(),\n        }\n    }\n}\n",
    );
    proof {
        assert(out@ =~= sec4 + spec_from_section(t@.enum_name));
    }
    let ghost sec5 = out@;

    out.append("\nimpl axum::response::IntoResponse for ");
    out.append(t.enum_name.as_str());
    out.append(
        " {\n    fn into_response(self) -> axum::response::Response {\n        (self.to_status_code(), axum::Json(baxe::BaxeError::from(self))).into_response()\n    }\n}\n",
    );
    proof {
        assert(out@ =~= sec5 + spec_response_section(t@.enum_name));
        assert(out@ =~= spec_generated(t@));
    }
    out
}

} // verus!
