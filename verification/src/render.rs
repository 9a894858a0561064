//! Writes the source text of everything generated for a classified enum.

use crate::conversion::{conversion_impl, response_impl, write_conversion, write_response};
use crate::dispatch::{dispatch, plan, DispatchView};
use crate::schema::{EnumSpec, EnumSpecView, Options, OptionsView};
use crate::shape::{define_variant, variant_definition};
use vstd::prelude::*;

verus! {

/// `lines` one after another, each behind `indent` and followed by `end`.
pub open spec fn stacked(lines: Seq<Seq<char>>, indent: Seq<char>, end: Seq<char>) -> Seq<char>
    decreases lines.len(),
{
    if lines.len() == 0 {
        Seq::<char>::empty()
    } else {
        stacked(lines.drop_last(), indent, end) + indent + lines.last() + end
    }
}

/// The arms `pattern => value`, one per position. Both lists are expected
/// to have the same length.
pub open spec fn arms(patterns: Seq<Seq<char>>, values: Seq<Seq<char>>) -> Seq<Seq<char>> {
    Seq::new(patterns.len(), |i: int| patterns[i] + " => "@ + values[i])
}

/// The variants of the enum as they are declared, in declaration order.
pub open spec fn definitions(spec: EnumSpecView) -> Seq<Seq<char>> {
    Seq::new(
        spec.variants.len(),
        |i: int| variant_definition(spec.variants[i].name, spec.variants[i].shape),
    )
}

/// The enum itself, declared public and with `Debug`, every variant
/// stripped of its annotations.
pub open spec fn enum_definition(name: Seq<char>, definitions: Seq<Seq<char>>) -> Seq<char> {
    "#[derive(Debug)]\npub enum "@ + name + " {\n"@ + stacked(definitions, "    "@, ",\n"@)
        + "}\n\n"@
}

/// The textual rendering of the enum: a match with one rendering arm per
/// variant and no other arm.
pub open spec fn display_impl(name: Seq<char>, messages: Seq<Seq<char>>) -> Seq<char> {
    "impl std::fmt::Display for "@ + name
        + " {\n    fn fmt(&self, f: &mut std::fmt::Formatter<'_>) -> std::fmt::Result {\n        match self {\n"@
        + stacked(messages, "            "@, ",\n"@) + "        }\n    }\n}\n\n"@
}

/// The marker that makes the enum an error type.
pub open spec fn error_impl(name: Seq<char>) -> Seq<char> {
    "impl std::error::Error for "@ + name + " {}\n\n"@
}

/// One dispatch: a method whose body is a match over `arms` and nothing
/// else.
pub open spec fn dispatch_fn(signature: Seq<char>, arms: Seq<Seq<char>>) -> Seq<char> {
    "    fn "@ + signature + " {\n        match self {\n"@ + stacked(
        arms,
        "            "@,
        ",\n"@,
    ) + "        }\n    }\n"@
}

/// The three accessors of the enum: status, tag and code.
pub open spec fn backend_impl(name: Seq<char>, table: DispatchView) -> Seq<char> {
    "impl BackendError for "@ + name + " {\n"@ + dispatch_fn(
        "to_status_code(&self) -> axum::http::StatusCode"@,
        arms(table.patterns, table.statuses),
    ) + "\n"@ + dispatch_fn(
        "to_error_tag(&self) -> impl std::fmt::Display"@,
        arms(table.patterns, table.tags),
    ) + "\n"@ + dispatch_fn("to_error_code(&self) -> u16"@, arms(table.patterns, table.codes))
        + "}\n\n"@
}

/// Everything generated for a classified enum, in order: the enum, its
/// rendering, the error marker, the accessors, the conversion into the
/// envelope and the conversion into a response.
pub open spec fn expansion(options: OptionsView, spec: EnumSpecView) -> Seq<char> {
    enum_definition(spec.name, definitions(spec)) + display_impl(
        spec.name,
        dispatch(spec).messages,
    ) + error_impl(spec.name) + backend_impl(spec.name, dispatch(spec)) + conversion_impl(
        options,
        spec.name,
    ) + response_impl(spec.name)
}

/// Writes `lines` one after another, each behind `indent` and followed by
/// `end`.
pub fn stack(lines: &Vec<String>, indent: &str, end: &str) -> (out: String)
    ensures
        out@ == stacked(lines.deep_view(), indent@, end@),
{
    let mut out = String::new();
    let mut i: usize = 0;
    assert(lines.deep_view().take(0) == Seq::<Seq<char>>::empty());
    while i < lines.len()
        invariant
            i <= lines.len(),
            out@ == stacked(lines.deep_view().take(i as int), indent@, end@),
        decreases lines.len() - i,
    {
        assert(lines.deep_view().take(i + 1).drop_last() == lines.deep_view().take(i as int));
        assert(lines.deep_view().take(i + 1).last() == lines[i as int]@);
        out.append(indent);
        out.append(lines[i].as_str());
        out.append(end);
        i += 1;
    }
    assert(lines.deep_view().take(lines.len() as int) == lines.deep_view());
    out
}

/// Writes the arms `pattern => value`, one per position.
fn write_arms(patterns: &Vec<String>, values: &Vec<String>) -> (out: Vec<String>)
    requires
        patterns.len() == values.len(),
    ensures
        out.deep_view() == arms(patterns.deep_view(), values.deep_view()),
{
    let mut out: Vec<String> = Vec::new();
    let mut i: usize = 0;
    while i < patterns.len()
        invariant
            i <= patterns.len(),
            patterns.len() == values.len(),
            out.deep_view() == arms(patterns.deep_view(), values.deep_view()).take(i as int),
        decreases patterns.len() - i,
    {
        let ghost done = out.deep_view();
        let mut arm = patterns[i].clone();
        arm.append(" => ");
        arm.append(values[i].as_str());
        out.push(arm);
        assert(out.deep_view() == done.push(patterns[i as int]@ + " => "@ + values[i as int]@));
        i += 1;
    }
    assert(arms(patterns.deep_view(), values.deep_view()).take(patterns.len() as int) == arms(
        patterns.deep_view(),
        values.deep_view(),
    ));
    out
}

/// Writes the variants of the enum as they are declared.
pub fn write_definitions(spec: &EnumSpec) -> (out: Vec<String>)
    ensures
        out.deep_view() == definitions(spec@),
{
    let mut out: Vec<String> = Vec::new();
    let mut i: usize = 0;
    while i < spec.variants.len()
        invariant
            i <= spec.variants.len(),
            out.deep_view() == definitions(spec@).take(i as int),
        decreases spec.variants.len() - i,
    {
        let ghost done = out.deep_view();
        let variant = &spec.variants[i];
        let definition = define_variant(variant.name.as_str(), &variant.shape);
        assert(spec@.variants[i as int] == variant@);
        out.push(definition);
        assert(out.deep_view() == done.push(definition@));
        i += 1;
    }
    assert(definitions(spec@).take(spec.variants.len() as int) == definitions(spec@));
    out
}

/// Writes one dispatch method.
pub fn write_dispatch_fn(signature: &str, arms: &Vec<String>) -> (out: String)
    ensures
        out@ == dispatch_fn(signature@, arms.deep_view()),
{
    let mut out = "    fn ".to_owned();
    out.append(signature);
    out.append(" {\n        match self {\n");
    out.append(stack(arms, "            ", ",\n").as_str());
    out.append("        }\n    }\n");
    out
}

/// Writes everything generated for a classified enum.
pub fn expand(options: &Options, spec: &EnumSpec) -> (out: String)
    ensures
        out@ == expansion(options@, spec@),
{
    let name = spec.name.as_str();
    let table = plan(spec);
    assert(table.patterns.len() == table.statuses.len() == table.tags.len() == table.codes.len())
        by {
        assert(table@.patterns.len() == spec@.variants.len());
        assert(table@.statuses.len() == spec@.variants.len());
        assert(table@.tags.len() == spec@.variants.len());
        assert(table@.codes.len() == spec@.variants.len());
    }

    let mut out = "#[derive(Debug)]\npub enum ".to_owned();
    out.append(name);
    out.append(" {\n");
    out.append(stack(&write_definitions(spec), "    ", ",\n").as_str());
    out.append("}\n\n");
    assert(out@ == enum_definition(spec@.name, definitions(spec@)));

    let mut display = "impl std::fmt::Display for ".to_owned();
    display.append(name);
    display.append(
        " {\n    fn fmt(&self, f: &mut std::fmt::Formatter<'_>) -> std::fmt::Result {\n        match self {\n",
    );
    display.append(stack(&table.messages, "            ", ",\n").as_str());
    display.append("        }\n    }\n}\n\n");
    out.append(display.as_str());

    let mut marker = "impl std::error::Error for ".to_owned();
    marker.append(name);
    marker.append(" {}\n\n");
    out.append(marker.as_str());

    let mut backend = "impl BackendError for ".to_owned();
    backend.append(name);
    backend.append(" {\n");
    backend.append(
        write_dispatch_fn(
            "to_status_code(&self) -> axum::http::StatusCode",
            &write_arms(&table.patterns, &table.statuses),
        ).as_str(),
    );
    backend.append("\n");
    backend.append(
        write_dispatch_fn(
            "to_error_tag(&self) -> impl std::fmt::Display",
            &write_arms(&table.patterns, &table.tags),
        ).as_str(),
    );
    backend.append("\n");
    backend.append(
        write_dispatch_fn(
            "to_error_code(&self) -> u16",
            &write_arms(&table.patterns, &table.codes),
        ).as_str(),
    );
    backend.append("}\n\n");
    assert(backend@ == backend_impl(spec@.name, dispatch(spec@)));
    out.append(backend.as_str());

    out.append(write_conversion(options, name).as_str());
    out.append(write_response(name).as_str());
    out
}

} // verus!
