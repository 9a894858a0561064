use baxe::conversion::{
    write_conversion, write_log_statement, write_message_expression, write_response,
};
use baxe::generate::generate;
use baxe::render::{expand, stack, write_definitions, write_dispatch_fn};
use baxe::schema::{
    Annotation, BaxeAttributes, ClassKey, EnumDecl, EnumSpec, Field, GenError, Options, Shape,
    VariantDecl, VariantSpec,
};
use baxe::error;

fn texts(parts: &[&str]) -> Vec<String> {
    parts.iter().map(|part| part.to_string()).collect()
}

fn entry(key: &str, value: &str) -> Annotation {
    Annotation { key: key.to_string(), value: value.to_string() }
}

fn complete() -> Vec<Annotation> {
    vec![entry("status", "S"), entry("tag", "T"), entry("code", "7"), entry("message", "\"m\"")]
}

fn without(key: &str) -> Vec<Annotation> {
    complete().into_iter().filter(|entry| entry.key != key).collect()
}

fn unit(name: &str, annotations: Vec<Annotation>) -> VariantDecl {
    VariantDecl { name: name.to_string(), shape: Shape::Unit, annotations }
}

fn item(variants: Vec<VariantDecl>) -> EnumDecl {
    EnumDecl { name: "E".to_string(), attributes: vec![], variants }
}

fn plain() -> Options {
    Options { log_message_with: None, hide_message: false }
}

fn with(log_message_with: Option<&str>, hide_message: bool) -> Options {
    Options { log_message_with: log_message_with.map(|target| target.to_string()), hide_message }
}

const SMALL: &str = r#"#[derive(Debug)]
pub enum E {
    A,
    B { id: u64 },
}

impl std::fmt::Display for E {
    fn fmt(&self, f: &mut std::fmt::Formatter<'_>) -> std::fmt::Result {
        match self {
            E::A => { write!(f, "m") },
            E::B { id } => { let formatted_message = format!("m", id); write!(f, "{formatted_message}") },
        }
    }
}

impl std::error::Error for E {}

impl BackendError for E {
    fn to_status_code(&self) -> axum::http::StatusCode {
        match self {
            E::A => S,
            E::B { id } => S,
        }
    }

    fn to_error_tag(&self) -> impl std::fmt::Display {
        match self {
            E::A => T,
            E::B { id } => T,
        }
    }

    fn to_error_code(&self) -> u16 {
        match self {
            E::A => 7,
            E::B { id } => 7,
        }
    }
}

impl From<E> for BaxeError {
    fn from(error: E) -> Self {
        tracing :: error!("{}", error.to_string());
        let status = error.to_status_code();
        let tag: String = error.to_error_tag().to_string();
        BaxeError::new(status, None, error.to_error_code(), tag)
    }
}

impl IntoResponse for E {
    fn into_response(self) -> axum::response::Response {
        (self.to_status_code(), Json(BaxeError::from(self))).into_response()
    }
}
"#;

fn small() -> EnumDecl {
    item(vec![
        unit("A", complete()),
        VariantDecl {
            name: "B".to_string(),
            shape: Shape::Named(vec![Field { name: "id".to_string(), ty: "u64".to_string() }]),
            annotations: complete(),
        },
    ])
}

#[test]
fn whole_expansion_with_both_options() {
    assert_eq!(
        error("logMessageWith=tracing::error, hideMessage", &small()),
        Some(Ok(SMALL.to_string()))
    );
    assert_eq!(generate(&with(Some("tracing :: error"), true), &small()), Ok(SMALL.to_string()));
}

#[test]
fn expansion_of_an_enum_without_variants_parses() {
    let generated = error("", &item(vec![])).unwrap().unwrap();
    let file = syn::parse_file(&generated).unwrap();
    assert_eq!(file.items.len(), 6);
    assert!(generated.starts_with("#[derive(Debug)]\npub enum E {\n}\n\n"));
}

#[test]
fn log_target_is_written_as_its_tokens() {
    let commented = error("logMessageWith=tracing::error // and the rest\n", &small()).unwrap().unwrap();
    assert!(commented.contains("        tracing :: error!(\"{}\", error.to_string());\n        let status"));
    assert!(!commented.contains("and the rest"));
    syn::parse_file(&commented).unwrap();
}

#[test]
fn refused_options_write_nothing() {
    assert_eq!(error("logMessageWith=", &small()), None);
    assert_eq!(error("logMessageWith=)(", &item(vec![unit("A", vec![])])), None);
}

#[test]
fn variant_missing_status_fails_the_whole_enum() {
    let decl = item(vec![unit("A", complete()), unit("B", without("status")), unit("C", complete())]);
    assert_eq!(
        error("", &decl),
        Some(Err(GenError::MissingAttribute { variant: "B".to_string(), key: ClassKey::Status }))
    );
}

#[test]
fn variant_missing_tag_fails_the_whole_enum() {
    let decl = item(vec![unit("A", complete()), unit("B", without("tag"))]);
    assert_eq!(
        error("", &decl),
        Some(Err(GenError::MissingAttribute { variant: "B".to_string(), key: ClassKey::Tag }))
    );
}

#[test]
fn variant_missing_code_fails_the_whole_enum() {
    let decl = item(vec![unit("A", without("code")), unit("B", complete())]);
    assert_eq!(
        error("hideMessage", &decl),
        Some(Err(GenError::MissingAttribute { variant: "A".to_string(), key: ClassKey::Code }))
    );
}

#[test]
fn variant_missing_message_fails_the_whole_enum() {
    let decl = item(vec![unit("A", without("message"))]);
    assert_eq!(
        error("", &decl),
        Some(Err(GenError::MissingAttribute { variant: "A".to_string(), key: ClassKey::Message }))
    );
}

#[test]
fn variant_without_annotation_fails_the_whole_enum() {
    let decl = item(vec![unit("A", complete()), unit("Bare", vec![])]);
    assert_eq!(
        generate(&plain(), &decl),
        Err(GenError::MissingAttribute { variant: "Bare".to_string(), key: ClassKey::Status })
    );
}

#[test]
fn annotation_on_the_enum_fails_generation() {
    let decl = EnumDecl {
        name: "E".to_string(),
        attributes: texts(&["baxe"]),
        variants: vec![unit("A", complete())],
    };
    assert_eq!(error("", &decl), Some(Err(GenError::InvalidPlacement)));
}

#[test]
fn log_statement_follows_the_log_option_only() {
    assert_eq!(write_log_statement(&with(None, false)), "");
    assert_eq!(write_log_statement(&with(None, true)), "");
    let expected = "        tracing::error!(\"{}\", error.to_string());\n";
    assert_eq!(write_log_statement(&with(Some("tracing::error"), false)), expected);
    assert_eq!(write_log_statement(&with(Some("tracing::error"), true)), expected);
}

#[test]
fn message_expression_follows_the_hide_option_only() {
    assert_eq!(write_message_expression(&with(None, false)), "error.to_string().into()");
    assert_eq!(write_message_expression(&with(Some("log::warn"), false)), "error.to_string().into()");
    assert_eq!(write_message_expression(&with(None, true)), "None");
    assert_eq!(write_message_expression(&with(Some("log::warn"), true)), "None");
}

#[test]
fn conversion_without_options() {
    assert_eq!(
        write_conversion(&plain(), "AppError"),
        "impl From<AppError> for BaxeError {\n    fn from(error: AppError) -> Self {\n        let status = error.to_status_code();\n        let tag: String = error.to_error_tag().to_string();\n        BaxeError::new(status, error.to_string().into(), error.to_error_code(), tag)\n    }\n}\n\n"
    );
}

#[test]
fn hidden_message_is_none_in_every_conversion() {
    for name in ["A", "AppError", "Other"] {
        for target in [None, Some("tracing::error")] {
            let text = write_conversion(&with(target, true), name);
            assert!(text.contains("BaxeError::new(status, None, error.to_error_code(), tag)"));
            assert!(!text.contains("error.to_string().into()"));
        }
    }
}

#[test]
fn response_pairs_status_and_envelope() {
    assert_eq!(
        write_response("AppError"),
        "impl IntoResponse for AppError {\n    fn into_response(self) -> axum::response::Response {\n        (self.to_status_code(), Json(BaxeError::from(self))).into_response()\n    }\n}\n"
    );
}

#[test]
fn stack_indents_and_ends_every_line() {
    assert_eq!(stack(&texts(&[]), "  ", ",\n"), "");
    assert_eq!(stack(&texts(&["a"]), "  ", ",\n"), "  a,\n");
    assert_eq!(stack(&texts(&["a", "b"]), "  ", ",\n"), "  a,\n  b,\n");
    assert_eq!(stack(&texts(&["a", "b"]), "", ";"), "a;b;");
}

#[test]
fn dispatch_fn_is_a_match_over_its_arms_and_nothing_else() {
    assert_eq!(
        write_dispatch_fn("to_error_code(&self) -> u16", &texts(&["E::A => 1", "E::B => 2"])),
        "    fn to_error_code(&self) -> u16 {\n        match self {\n            E::A => 1,\n            E::B => 2,\n        }\n    }\n"
    );
    assert_eq!(
        write_dispatch_fn("to_error_code(&self) -> u16", &texts(&[])),
        "    fn to_error_code(&self) -> u16 {\n        match self {\n        }\n    }\n"
    );
}

fn classified() -> EnumSpec {
    let attributes = BaxeAttributes {
        status: "S".to_string(),
        tag: "T".to_string(),
        code: "7".to_string(),
        message: "\"m\"".to_string(),
    };
    EnumSpec {
        name: "E".to_string(),
        variants: vec![
            VariantSpec { name: "A".to_string(), shape: Shape::Unit, attributes: attributes.clone() },
            VariantSpec {
                name: "B".to_string(),
                shape: Shape::Named(vec![Field { name: "id".to_string(), ty: "u64".to_string() }]),
                attributes,
            },
        ],
    }
}

#[test]
fn definitions_drop_the_annotations() {
    assert_eq!(write_definitions(&classified()), texts(&["A", "B { id: u64 }"]));
}

#[test]
fn expand_writes_the_same_text_as_the_whole_generator() {
    assert_eq!(expand(&with(Some("tracing :: error"), true), &classified()), SMALL);
}

#[test]
fn every_variant_has_exactly_one_arm_in_each_dispatch() {
    let generated = expand(&plain(), &classified());
    for arm in ["E::A => S,", "E::B { id } => S,", "E::A => T,", "E::B { id } => T,", "E::A => 7,", "E::B { id } => 7,", "E::A => { write!(f, \"m\") },"] {
        assert_eq!(generated.matches(arm).count(), 1);
    }
    assert!(!generated.contains("_ =>"));
}
