use baxe::dispatch::{plan, plan_variant, unzip_n_vec};
use baxe::message::compile_message;
use baxe::schema::{BaxeAttributes, EnumSpec, Field, Shape, VariantSpec};
use baxe::shape::{define_variant, name_fields, name_positional, resolve, Binding};

fn texts(parts: &[&str]) -> Vec<String> {
    parts.iter().map(|part| part.to_string()).collect()
}

fn field(name: &str, ty: &str) -> Field {
    Field { name: name.to_string(), ty: ty.to_string() }
}

fn attributes(status: &str, tag: &str, code: &str, message: &str) -> BaxeAttributes {
    BaxeAttributes {
        status: status.to_string(),
        tag: tag.to_string(),
        code: code.to_string(),
        message: message.to_string(),
    }
}

#[test]
fn positional_fields_are_named_by_position() {
    assert_eq!(name_positional(0), texts(&[]));
    assert_eq!(name_positional(1), texts(&["arg0"]));
    assert_eq!(name_positional(3), texts(&["arg0", "arg1", "arg2"]));
    let twelve = name_positional(12);
    assert_eq!(twelve[9], "arg9");
    assert_eq!(twelve[10], "arg10");
    assert_eq!(twelve[11], "arg11");
}

#[test]
fn named_fields_keep_their_names() {
    assert_eq!(name_fields(&vec![]), texts(&[]));
    assert_eq!(
        name_fields(&vec![field("id", "u64"), field("reason", "String")]),
        texts(&["id", "reason"])
    );
}

#[test]
fn unit_variant_binds_nothing() {
    assert_eq!(
        resolve("AppError", "NotFound", &Shape::Unit),
        Binding { pattern: "AppError::NotFound".to_string(), names: vec![], unit: true }
    );
}

#[test]
fn positional_variant_binds_every_field_in_order() {
    let shape = Shape::Positional(texts(&["String", "Vec<usize>"]));
    assert_eq!(
        resolve("AppError", "BadRequest", &shape),
        Binding {
            pattern: "AppError::BadRequest(arg0, arg1)".to_string(),
            names: texts(&["arg0", "arg1"]),
            unit: false,
        }
    );
}

#[test]
fn named_variant_binds_the_declared_names() {
    let shape = Shape::Named(vec![field("id", "u64"), field("reason", "String")]);
    assert_eq!(
        resolve("AppError", "Gone", &shape),
        Binding {
            pattern: "AppError::Gone { id, reason }".to_string(),
            names: texts(&["id", "reason"]),
            unit: false,
        }
    );
}

#[test]
fn empty_field_lists_are_not_unit() {
    assert_eq!(
        resolve("E", "V", &Shape::Positional(vec![])),
        Binding { pattern: "E::V()".to_string(), names: vec![], unit: false }
    );
    assert_eq!(
        resolve("E", "V", &Shape::Named(vec![])),
        Binding { pattern: "E::V {  }".to_string(), names: vec![], unit: false }
    );
}

#[test]
fn variants_are_declared_with_their_types() {
    assert_eq!(define_variant("NotFound", &Shape::Unit), "NotFound");
    assert_eq!(
        define_variant("BadRequest", &Shape::Positional(texts(&["String", "Vec<usize>"]))),
        "BadRequest(String, Vec<usize>)"
    );
    assert_eq!(
        define_variant("Gone", &Shape::Named(vec![field("id", "u64"), field("reason", "String")])),
        "Gone { id: u64, reason: String }"
    );
    assert_eq!(define_variant("V", &Shape::Positional(vec![])), "V()");
}

#[test]
fn unit_message_is_written_as_it_is() {
    let bound = resolve("AppError", "NotFound", &Shape::Unit);
    assert_eq!(
        compile_message(&bound, "\"Resource not found\""),
        "AppError::NotFound => { write!(f, \"Resource not found\") }"
    );
}

#[test]
fn positional_message_is_formatted_with_the_bound_names() {
    let bound = resolve("AppError", "BadRequest", &Shape::Positional(texts(&["String", "Vec<usize>"])));
    assert_eq!(
        compile_message(&bound, "\"Bad request data: {0}, requests {1:?}\""),
        "AppError::BadRequest(arg0, arg1) => { let formatted_message = format!(\"Bad request data: {0}, requests {1:?}\", arg0, arg1); write!(f, \"{formatted_message}\") }"
    );
}

#[test]
fn named_message_is_formatted_with_the_declared_names() {
    let bound = resolve("AppError", "Gone", &Shape::Named(vec![field("id", "u64")]));
    assert_eq!(
        compile_message(&bound, "\"gone: {0}\""),
        "AppError::Gone { id } => { let formatted_message = format!(\"gone: {0}\", id); write!(f, \"{formatted_message}\") }"
    );
}

#[test]
fn template_is_not_checked_against_the_fields() {
    let bound = resolve("E", "V", &Shape::Positional(texts(&["u8"])));
    assert_eq!(
        compile_message(&bound, "\"{0} {1} {2}\""),
        "E::V(arg0) => { let formatted_message = format!(\"{0} {1} {2}\", arg0); write!(f, \"{formatted_message}\") }"
    );
    let empty = resolve("E", "V", &Shape::Positional(vec![]));
    assert_eq!(
        compile_message(&empty, "\"plain\""),
        "E::V() => { let formatted_message = format!(\"plain\", ); write!(f, \"{formatted_message}\") }"
    );
}

#[test]
fn unzip_keeps_the_order_of_every_column() {
    let rows = vec![(1u8, 'a', "x", true, 10u32), (2, 'b', "y", false, 20), (3, 'c', "z", true, 30)];
    let (t1, t2, t3, t4, t5) = unzip_n_vec(rows);
    assert_eq!(t1, vec![1, 2, 3]);
    assert_eq!(t2, vec!['a', 'b', 'c']);
    assert_eq!(t3, vec!["x", "y", "z"]);
    assert_eq!(t4, vec![true, false, true]);
    assert_eq!(t5, vec![10, 20, 30]);
}

#[test]
fn unzip_of_nothing_is_five_empty_columns() {
    let rows: Vec<(u8, u8, u8, u8, u8)> = vec![];
    let (t1, t2, t3, t4, t5) = unzip_n_vec(rows);
    assert!(t1.is_empty() && t2.is_empty() && t3.is_empty() && t4.is_empty() && t5.is_empty());
}

fn sample() -> EnumSpec {
    EnumSpec {
        name: "AppError".to_string(),
        variants: vec![
            VariantSpec {
                name: "NotFound".to_string(),
                shape: Shape::Unit,
                attributes: attributes("StatusCode::NOT_FOUND", "Tags::NotFound", "404", "\"nf\""),
            },
            VariantSpec {
                name: "BadRequest".to_string(),
                shape: Shape::Positional(texts(&["String"])),
                attributes: attributes("StatusCode::BAD_REQUEST", "Tags::BadRequest", "4000", "\"bad: {0}\""),
            },
            VariantSpec {
                name: "Gone".to_string(),
                shape: Shape::Named(vec![field("id", "u64")]),
                attributes: attributes("StatusCode::GONE", "Tags::Gone", "410", "\"gone: {0}\""),
            },
        ],
    }
}

#[test]
fn one_variant_contributes_its_binding_and_its_literals() {
    let spec = sample();
    let row = plan_variant("AppError", &spec.variants[1]);
    assert_eq!(row.0, "AppError::BadRequest(arg0)");
    assert_eq!(row.1, "StatusCode::BAD_REQUEST");
    assert_eq!(row.2, "Tags::BadRequest");
    assert_eq!(row.3, "4000");
    assert_eq!(
        row.4,
        "AppError::BadRequest(arg0) => { let formatted_message = format!(\"bad: {0}\", arg0); write!(f, \"{formatted_message}\") }"
    );
}

#[test]
fn every_dispatch_has_one_entry_per_variant_in_declaration_order() {
    let table = plan(&sample());
    assert_eq!(
        table.patterns,
        texts(&["AppError::NotFound", "AppError::BadRequest(arg0)", "AppError::Gone { id }"])
    );
    assert_eq!(
        table.statuses,
        texts(&["StatusCode::NOT_FOUND", "StatusCode::BAD_REQUEST", "StatusCode::GONE"])
    );
    assert_eq!(table.tags, texts(&["Tags::NotFound", "Tags::BadRequest", "Tags::Gone"]));
    assert_eq!(table.codes, texts(&["404", "4000", "410"]));
    assert_eq!(table.messages.len(), 3);
    assert_eq!(table.messages[0], "AppError::NotFound => { write!(f, \"nf\") }");
    for (pattern, message) in table.patterns.iter().zip(table.messages.iter()) {
        assert!(message.starts_with(&format!("{} => ", pattern)));
    }
}

#[test]
fn enum_without_variants_has_empty_dispatches() {
    let table = plan(&EnumSpec { name: "Never".to_string(), variants: vec![] });
    assert!(table.patterns.is_empty());
    assert!(table.statuses.is_empty());
    assert!(table.tags.is_empty());
    assert!(table.codes.is_empty());
    assert!(table.messages.is_empty());
}
