use baxe::decl::DeclData;
use baxe::decl::Declaration;
use baxe::decl::ExpandError;
use baxe::decl::FieldDecl;
use baxe::decl::MetaEntry;
use baxe::decl::MetaKey;
use baxe::decl::MetaValue;
use baxe::decl::Shape;
use baxe::decl::VariantDecl;
use baxe::expand::error;

fn entry(key: &str, value: MetaValue) -> MetaEntry {
    MetaEntry { key: key.to_string(), value }
}

fn lit(s: &str) -> MetaValue {
    MetaValue::StrLit(s.to_string())
}

fn expr(s: &str) -> MetaValue {
    MetaValue::Expr(s.to_string())
}

fn variant(name: &str, attrs: Vec<MetaEntry>, shape: Shape) -> VariantDecl {
    VariantDecl { name: name.to_string(), attrs, shape }
}

fn enum_decl(name: &str, variants: Vec<VariantDecl>) -> Declaration {
    Declaration { name: name.to_string(), data: DeclData::Enum(variants) }
}

fn full_variant(name: &str, status: &str, tag: &str, code: &str, message: &str, shape: Shape) -> VariantDecl {
    variant(
        name,
        vec![
            entry("status", expr(status)),
            entry("tag", lit(tag)),
            entry("code", expr(code)),
            entry("message", lit(message)),
        ],
        shape,
    )
}

fn three_shape_decl() -> Declaration {
    enum_decl(
        "ApiError",
        vec![
            full_variant(
                "NotFound",
                "axum::http::StatusCode::NOT_FOUND",
                "not_found",
                "404",
                "resource not found",
                Shape::Unit,
            ),
            full_variant(
                "Invalid",
                "axum::http::StatusCode::BAD_REQUEST",
                "invalid",
                "1001",
                "invalid: {0}",
                Shape::Positional(vec!["String".to_string(), "u32".to_string()]),
            ),
            full_variant(
                "Conflict",
                "axum::http::StatusCode::CONFLICT",
                "conflict",
                "1002",
                "conflict",
                Shape::Named(vec![FieldDecl { name: "field".to_string(), ty: "String".to_string() }]),
            ),
        ],
    )
}

#[test]
fn single_variant_exact_output() {
    let d = enum_decl(
        "ApiError",
        vec![full_variant(
            "BadRequest",
            "axum::http::StatusCode::BAD_REQUEST",
            "bad_request",
            "1001",
            "Invalid input",
            Shape::Unit,
        )],
    );
    let out = error(&d).unwrap();
    let expected = "#[derive(Debug)]\n\
pub enum ApiError {\n    BadRequest,\n}\n\
\n\
impl std::fmt::Display for ApiError {\n    fn fmt(&self, f: &mut std::fmt::Formatter<'_>) -> std::fmt::Result {\n        match self {\n            ApiError::BadRequest => write!(f, \"Invalid input\"),\n        }\n    }\n}\n\
\n\
impl std::error::Error for ApiError {}\n\
\n\
impl baxe::BackendError for ApiError {\n    fn to_status_code(&self) -> axum::http::StatusCode {\n        match self {\n            ApiError::BadRequest => axum::http::StatusCode::BAD_REQUEST,\n        }\n    }\n\n    fn to_error_tag(&self) -> &str {\n        match self {\n            ApiError::BadRequest => \"bad_request\",\n        }\n    }\n\n    fn to_error_code(&self) -> u16 {\n        match self {\n            ApiError::BadRequest => 1001,\n        }\n    }\n}\n\
\n\
impl From<ApiError> for baxe::BaxeError {\n    fn from(error: ApiError) -> Self {\n        let status = error.to_status_code();\n        baxe::BaxeError {\n            status_code: status,\n            error_tag: error.to_error_tag().to_string(),\n            code: error.to_error_code(),\n            message: error.to_string(),\n        }\n    }\n}\n\
\n\
impl axum::response::IntoResponse for ApiError {\n    fn into_response(self) -> axum::response::Response {\n        (self.to_status_code(), axum::Json(baxe::BaxeError::from(self))).into_response()\n    }\n}\n";
    assert_eq!(out, expected);
}

#[test]
fn every_variant_in_every_function_in_order() {
    let out = error(&three_shape_decl()).unwrap();
    // The generated type lists the three constructors, shape-preserving,
    // in declaration order.
    let e_nf = out.find("    NotFound,\n").unwrap();
    let e_in = out.find("    Invalid(String, u32),\n").unwrap();
    let e_cf = out.find("    Conflict { field: String },\n").unwrap();
    assert!(e_nf < e_in && e_in < e_cf);
    // Each of the four generated functions holds one arm per variant:
    // four occurrences of each pattern over the whole unit.
    for pat in [
        "            ApiError::NotFound => ",
        "            ApiError::Invalid(..) => ",
        "            ApiError::Conflict { .. } => ",
    ] {
        assert_eq!(out.matches(pat).count(), 4, "{pat}");
    }
    // Arms keep declaration order inside each match.
    let mut from = 0;
    for _ in 0..4 {
        let a = out[from..].find("ApiError::NotFound =>").unwrap();
        let b = out[from..].find("ApiError::Invalid(..) =>").unwrap();
        let c = out[from..].find("ApiError::Conflict { .. } =>").unwrap();
        assert!(a < b && b < c);
        from += c + 1;
    }
}

#[test]
fn accessors_need_no_payload() {
    // Whatever the shape, the accessor arms never bind the payload: the
    // arm bodies are exactly the declared metadata.
    let out = error(&three_shape_decl()).unwrap();
    assert!(out.contains("            ApiError::Invalid(..) => axum::http::StatusCode::BAD_REQUEST,\n"));
    assert!(out.contains("            ApiError::Invalid(..) => \"invalid\",\n"));
    assert!(out.contains("            ApiError::Invalid(..) => 1001,\n"));
    assert!(out.contains("            ApiError::Conflict { .. } => axum::http::StatusCode::CONFLICT,\n"));
    assert!(out.contains("            ApiError::Conflict { .. } => \"conflict\",\n"));
    assert!(out.contains("            ApiError::Conflict { .. } => 1002,\n"));
    // Only the display arm carries the message template that may read
    // the payload.
    assert!(out.contains("            ApiError::Invalid(..) => write!(f, \"invalid: {0}\"),\n"));
}

#[test]
fn expansion_is_idempotent() {
    let a = error(&three_shape_decl()).unwrap();
    let b = error(&three_shape_decl()).unwrap();
    assert_eq!(a, b);
}

#[test]
fn unset_fields_stay_unset() {
    let d = enum_decl(
        "E",
        vec![
            full_variant("Full", "400", "full", "7", "all set", Shape::Unit),
            variant("Bare", vec![], Shape::Unit),
        ],
    );
    let out = error(&d).unwrap();
    // The bare variant's arms carry the unset marker: nothing at all,
    // in all four functions.
    assert!(out.contains("            E::Bare => write!(f, ),\n"));
    assert_eq!(out.matches("            E::Bare => ,\n").count(), 3);
    // Nothing leaked across from the neighbouring variant.
    assert_eq!(out.matches("400").count(), 1);
    assert_eq!(out.matches("\"full\"").count(), 1);
    assert_eq!(out.matches("7").count(), 1);
    assert_eq!(out.matches("\"all set\"").count(), 1);
}

#[test]
fn non_string_tag_aborts_naming_the_variant() {
    let d = enum_decl(
        "E",
        vec![
            full_variant("Good", "400", "good", "1", "ok", Shape::Unit),
            variant("Bad", vec![entry("tag", expr("42"))], Shape::Unit),
        ],
    );
    match error(&d) {
        Err(ExpandError::NonStringValue { variant, key }) => {
            assert_eq!(variant, "Bad");
            assert_eq!(key, MetaKey::Tag);
        },
        other => panic!("expected a non-string tag error, got {:?}", other.map(|_| ())),
    }
}

#[test]
fn non_string_message_aborts_naming_the_variant() {
    let d = enum_decl(
        "E",
        vec![variant("Bad", vec![entry("message", expr("1 + 2"))], Shape::Unit)],
    );
    match error(&d) {
        Err(ExpandError::NonStringValue { variant, key }) => {
            assert_eq!(variant, "Bad");
            assert_eq!(key, MetaKey::Message);
        },
        other => panic!("expected a non-string message error, got {:?}", other.map(|_| ())),
    }
}

#[test]
fn struct_declaration_aborts_with_shape_error() {
    let d = Declaration { name: "NotAnEnumType".to_string(), data: DeclData::Struct };
    assert!(matches!(error(&d), Err(ExpandError::NotAnEnum)));
    let u = Declaration { name: "U".to_string(), data: DeclData::Union };
    assert!(matches!(error(&u), Err(ExpandError::NotAnEnum)));
}

#[test]
fn unrecognized_keys_are_ignored() {
    let with_extra = enum_decl(
        "E",
        vec![variant(
            "V",
            vec![
                entry("status", expr("400")),
                entry("severity", lit("high")),
                entry("tag", lit("t")),
            ],
            Shape::Unit,
        )],
    );
    let without = enum_decl(
        "E",
        vec![variant(
            "V",
            vec![entry("status", expr("400")), entry("tag", lit("t"))],
            Shape::Unit,
        )],
    );
    assert_eq!(error(&with_extra).unwrap(), error(&without).unwrap());
}

#[test]
fn later_entry_overrides_earlier() {
    let d = enum_decl(
        "E",
        vec![variant(
            "V",
            vec![entry("tag", lit("first")), entry("tag", lit("second"))],
            Shape::Unit,
        )],
    );
    let out = error(&d).unwrap();
    assert!(out.contains("            E::V => \"second\",\n"));
    assert!(!out.contains("\"first\""));
}

#[test]
fn string_status_is_requoted_as_expression() {
    let d = enum_decl(
        "E",
        vec![variant("V", vec![entry("status", lit("teapot"))], Shape::Unit)],
    );
    let out = error(&d).unwrap();
    assert!(out.contains("            E::V => \"teapot\",\n"));
}

#[test]
fn message_contents_are_escaped_in_the_literal() {
    let d = enum_decl(
        "E",
        vec![variant(
            "V",
            vec![entry("message", lit("say \"hi\"\\now\n"))],
            Shape::Unit,
        )],
    );
    let out = error(&d).unwrap();
    assert!(out.contains("E::V => write!(f, \"say \\\"hi\\\"\\\\now\\n\"),"));
}

#[test]
fn first_failing_variant_is_reported() {
    let d = enum_decl(
        "E",
        vec![
            variant("A", vec![entry("tag", expr("1"))], Shape::Unit),
            variant("B", vec![entry("message", expr("2"))], Shape::Unit),
        ],
    );
    match error(&d) {
        Err(ExpandError::NonStringValue { variant, key }) => {
            assert_eq!(variant, "A");
            assert_eq!(key, MetaKey::Tag);
        },
        _ => panic!("expected the first failing variant"),
    }
}
