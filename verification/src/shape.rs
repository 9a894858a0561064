//! Resolves the field shape of a variant into the one binding that every
//! generated match arm for that variant uses.

use crate::schema::{Field, FieldView, Shape, ShapeView};
use crate::text::{decimal, decimal_text, join, separated};
use vstd::prelude::*;

verus! {

/// How a variant is matched: the pattern, the names it binds in declaration
/// order, and whether the variant has no field list at all.
#[derive(Clone, Debug, PartialEq, Eq)]
pub struct Binding {
    pub pattern: String,
    pub names: Vec<String>,
    pub unit: bool,
}

pub struct BindingView {
    pub pattern: Seq<char>,
    pub names: Seq<Seq<char>>,
    pub unit: bool,
}

impl DeepView for Binding {
    type V = BindingView;

    open spec fn deep_view(&self) -> BindingView {
        BindingView { pattern: self.pattern@, names: self.names.deep_view(), unit: self.unit }
    }
}

impl View for Binding {
    type V = BindingView;

    open spec fn view(&self) -> BindingView {
        self.deep_view()
    }
}

/// The name bound to the positional field at `index`.
pub open spec fn arg_name(index: nat) -> Seq<char> {
    "arg"@ + decimal(index)
}

/// The names bound to `count` positional fields.
pub open spec fn positional_names(count: nat) -> Seq<Seq<char>> {
    Seq::new(count, |i: int| arg_name(i as nat))
}

/// The declared names of `fields`, in declaration order.
pub open spec fn field_names(fields: Seq<FieldView>) -> Seq<Seq<char>> {
    Seq::new(fields.len(), |i: int| fields[i].name)
}

/// The names a shape binds: none for a unit variant, `arg0`, `arg1`, ...
/// for positional fields, the declared names for named fields.
pub open spec fn bound_names(shape: ShapeView) -> Seq<Seq<char>> {
    match shape {
        ShapeView::Unit => Seq::empty(),
        ShapeView::Positional(types) => positional_names(types.len()),
        ShapeView::Named(fields) => field_names(fields),
    }
}

/// The path of a variant inside its enum.
pub open spec fn variant_path(enum_name: Seq<char>, variant_name: Seq<char>) -> Seq<char> {
    enum_name + "::"@ + variant_name
}

/// The pattern that matches a variant and binds every field.
pub open spec fn pattern(enum_name: Seq<char>, variant_name: Seq<char>, shape: ShapeView) -> Seq<
    char,
> {
    match shape {
        ShapeView::Unit => variant_path(enum_name, variant_name),
        ShapeView::Positional(_) => variant_path(enum_name, variant_name) + "("@ + separated(
            bound_names(shape),
            ", "@,
        ) + ")"@,
        ShapeView::Named(_) => variant_path(enum_name, variant_name) + " { "@ + separated(
            bound_names(shape),
            ", "@,
        ) + " }"@,
    }
}

/// The binding of a variant.
pub open spec fn binding(enum_name: Seq<char>, variant_name: Seq<char>, shape: ShapeView)
    -> BindingView {
    BindingView {
        pattern: pattern(enum_name, variant_name, shape),
        names: bound_names(shape),
        unit: shape is Unit,
    }
}

/// A named field as it is declared: `name: type`.
pub open spec fn field_definition(field: FieldView) -> Seq<char> {
    field.name + ": "@ + field.ty
}

/// The declarations of `fields`, in declaration order.
pub open spec fn field_definitions(fields: Seq<FieldView>) -> Seq<Seq<char>> {
    Seq::new(fields.len(), |i: int| field_definition(fields[i]))
}

/// A variant as it is declared inside the enum, without annotations.
pub open spec fn variant_definition(variant_name: Seq<char>, shape: ShapeView) -> Seq<char> {
    match shape {
        ShapeView::Unit => variant_name,
        ShapeView::Positional(types) => variant_name + "("@ + separated(types, ", "@) + ")"@,
        ShapeView::Named(fields) => variant_name + " { "@ + separated(
            field_definitions(fields),
            ", "@,
        ) + " }"@,
    }
}

/// The names bound to `count` positional fields: `arg0`, `arg1`, ...
pub fn name_positional(count: usize) -> (names: Vec<String>)
    ensures
        names.deep_view() == positional_names(count as nat),
{
    let mut names: Vec<String> = Vec::new();
    let mut i: usize = 0;
    while i < count
        invariant
            i <= count,
            names.deep_view() == positional_names(i as nat),
        decreases count - i,
    {
        let ghost done = names.deep_view();
        let mut name = "arg".to_owned();
        name.append(decimal_text(i).as_str());
        names.push(name);
        assert(names.deep_view() == done.push(arg_name(i as nat)));
        i += 1;
    }
    names
}

/// The declared names of `fields`, in declaration order.
pub fn name_fields(fields: &Vec<Field>) -> (names: Vec<String>)
    ensures
        names.deep_view() == field_names(fields.deep_view()),
{
    let mut names: Vec<String> = Vec::new();
    let mut i: usize = 0;
    while i < fields.len()
        invariant
            i <= fields.len(),
            names.deep_view() == field_names(fields.deep_view().take(i as int)),
        decreases fields.len() - i,
    {
        let ghost done = names.deep_view();
        names.push(fields[i].name.clone());
        assert(names.deep_view() == done.push(fields[i as int].name@));
        i += 1;
    }
    assert(fields.deep_view().take(fields.len() as int) == fields.deep_view());
    names
}

/// Resolves the shape of a variant into its binding. Positional fields are
/// bound to `arg0`, `arg1`, ... in declaration order; named fields keep
/// their declared names.
pub fn resolve(enum_name: &str, variant_name: &str, shape: &Shape) -> (out: Binding)
    ensures
        out@ == binding(enum_name@, variant_name@, shape@),
{
    let mut pattern = enum_name.to_owned();
    pattern.append("::");
    pattern.append(variant_name);
    match shape {
        Shape::Unit => {
            let names: Vec<String> = Vec::new();
            assert(names.deep_view() == Seq::<Seq<char>>::empty());
            Binding { pattern, names, unit: true }
        },
        Shape::Positional(types) => {
            let names = name_positional(types.len());
            assert(types.deep_view().len() == types.len());
            pattern.append("(");
            pattern.append(join(&names, ", ").as_str());
            pattern.append(")");
            Binding { pattern, names, unit: false }
        },
        Shape::Named(fields) => {
            let names = name_fields(fields);
            pattern.append(" { ");
            pattern.append(join(&names, ", ").as_str());
            pattern.append(" }");
            Binding { pattern, names, unit: false }
        },
    }
}

/// Writes a variant as it is declared inside the enum: its name and its
/// fields, without annotations.
pub fn define_variant(variant_name: &str, shape: &Shape) -> (out: String)
    ensures
        out@ == variant_definition(variant_name@, shape@),
{
    let mut out = variant_name.to_owned();
    match shape {
        Shape::Unit => {},
        Shape::Positional(types) => {
            out.append("(");
            out.append(join(types, ", ").as_str());
            out.append(")");
        },
        Shape::Named(fields) => {
            let mut definitions: Vec<String> = Vec::new();
            let mut i: usize = 0;
            while i < fields.len()
                invariant
                    i <= fields.len(),
                    definitions.deep_view() == field_definitions(
                        fields.deep_view().take(i as int),
                    ),
                decreases fields.len() - i,
            {
                let ghost done = definitions.deep_view();
                let mut definition = fields[i].name.clone();
                definition.append(": ");
                definition.append(fields[i].ty.as_str());
                definitions.push(definition);
                assert(definitions.deep_view() == done.push(field_definition(fields[i as int]@)));
                i += 1;
            }
            assert(fields.deep_view().take(fields.len() as int) == fields.deep_view());
            out.append(" { ");
            out.append(join(&definitions, ", ").as_str());
            out.append(" }");
        },
    }
    out
}

} // verus!
