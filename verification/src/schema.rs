//! The data the generator works on: enum declarations as they are written,
//! classified enums, envelope schemas, options and errors, each with the
//! mathematical value that contracts speak of.

use vstd::prelude::*;

verus! {

/// One of the four classification keys a variant must carry.
#[derive(Clone, Copy, Debug, PartialEq, Eq, Structural)]
pub enum ClassKey {
    Status,
    Tag,
    Code,
    Message,
}

impl ClassKey {
    /// The key as it is written in an annotation.
    pub open spec fn name(self) -> Seq<char> {
        match self {
            ClassKey::Status => "status"@,
            ClassKey::Tag => "tag"@,
            ClassKey::Code => "code"@,
            ClassKey::Message => "message"@,
        }
    }

    /// The key as it is written in an annotation.
    pub fn as_str(self) -> (text: &'static str)
        ensures
            text@ == self.name(),
    {
        match self {
            ClassKey::Status => "status",
            ClassKey::Tag => "tag",
            ClassKey::Code => "code",
            ClassKey::Message => "message",
        }
    }
}

/// A named field of a variant: its name and its type, as written.
#[derive(Clone, Debug, PartialEq, Eq)]
pub struct Field {
    pub name: String,
    pub ty: String,
}

pub struct FieldView {
    pub name: Seq<char>,
    pub ty: Seq<char>,
}

impl DeepView for Field {
    type V = FieldView;

    open spec fn deep_view(&self) -> FieldView {
        FieldView { name: self.name@, ty: self.ty@ }
    }
}

impl View for Field {
    type V = FieldView;

    open spec fn view(&self) -> FieldView {
        self.deep_view()
    }
}

/// The field shape of a variant. Types are kept as written and in
/// declaration order.
#[derive(Clone, Debug, PartialEq, Eq)]
pub enum Shape {
    Unit,
    Positional(Vec<String>),
    Named(Vec<Field>),
}

pub enum ShapeView {
    Unit,
    Positional(Seq<Seq<char>>),
    Named(Seq<FieldView>),
}

impl DeepView for Shape {
    type V = ShapeView;

    open spec fn deep_view(&self) -> ShapeView {
        match self {
            Shape::Unit => ShapeView::Unit,
            Shape::Positional(types) => ShapeView::Positional(types.deep_view()),
            Shape::Named(fields) => ShapeView::Named(fields.deep_view()),
        }
    }
}

impl View for Shape {
    type V = ShapeView;

    open spec fn view(&self) -> ShapeView {
        self.deep_view()
    }
}

/// One `key = value` entry of a variant's annotation. The value is an
/// expression kept as written; it is never evaluated.
#[derive(Clone, Debug, PartialEq, Eq)]
pub struct Annotation {
    pub key: String,
    pub value: String,
}

pub struct AnnotationView {
    pub key: Seq<char>,
    pub value: Seq<char>,
}

impl DeepView for Annotation {
    type V = AnnotationView;

    open spec fn deep_view(&self) -> AnnotationView {
        AnnotationView { key: self.key@, value: self.value@ }
    }
}

impl View for Annotation {
    type V = AnnotationView;

    open spec fn view(&self) -> AnnotationView {
        self.deep_view()
    }
}

impl Annotation {
    /// A copy of this entry.
    pub fn duplicate(&self) -> (out: Annotation)
        ensures
            out@ == self@,
    {
        Annotation { key: self.key.clone(), value: self.value.clone() }
    }
}

/// An attribute written on a variant: its path as written, and its
/// arguments read as a list of `key = value` entries. The entries are
/// absent where the arguments are no such list.
#[derive(Clone, Debug, PartialEq, Eq)]
pub struct AttributeDecl {
    pub path: String,
    pub entries: Option<Vec<Annotation>>,
}

pub struct AttributeDeclView {
    pub path: Seq<char>,
    pub entries: Option<Seq<AnnotationView>>,
}

impl DeepView for AttributeDecl {
    type V = AttributeDeclView;

    open spec fn deep_view(&self) -> AttributeDeclView {
        AttributeDeclView { path: self.path@, entries: self.entries.deep_view() }
    }
}

impl View for AttributeDecl {
    type V = AttributeDeclView;

    open spec fn view(&self) -> AttributeDeclView {
        self.deep_view()
    }
}

/// A variant as declared: its name, its fields and the entries of its
/// classification annotations, in the order written.
#[derive(Clone, Debug, PartialEq, Eq)]
pub struct VariantDecl {
    pub name: String,
    pub shape: Shape,
    pub annotations: Vec<Annotation>,
}

pub struct VariantDeclView {
    pub name: Seq<char>,
    pub shape: ShapeView,
    pub annotations: Seq<AnnotationView>,
}

impl DeepView for VariantDecl {
    type V = VariantDeclView;

    open spec fn deep_view(&self) -> VariantDeclView {
        VariantDeclView {
            name: self.name@,
            shape: self.shape@,
            annotations: self.annotations.deep_view(),
        }
    }
}

impl View for VariantDecl {
    type V = VariantDeclView;

    open spec fn view(&self) -> VariantDeclView {
        self.deep_view()
    }
}

/// An enum as declared: its name, the paths of the attributes attached to
/// the enum itself, and its variants in declaration order.
#[derive(Clone, Debug, PartialEq, Eq)]
pub struct EnumDecl {
    pub name: String,
    pub attributes: Vec<String>,
    pub variants: Vec<VariantDecl>,
}

pub struct EnumDeclView {
    pub name: Seq<char>,
    pub attributes: Seq<Seq<char>>,
    pub variants: Seq<VariantDeclView>,
}

impl DeepView for EnumDecl {
    type V = EnumDeclView;

    open spec fn deep_view(&self) -> EnumDeclView {
        EnumDeclView {
            name: self.name@,
            attributes: self.attributes.deep_view(),
            variants: self.variants.deep_view(),
        }
    }
}

impl View for EnumDecl {
    type V = EnumDeclView;

    open spec fn view(&self) -> EnumDeclView {
        self.deep_view()
    }
}

/// The classification of one variant: four expressions kept as written.
#[derive(Clone, Debug, PartialEq, Eq)]
pub struct BaxeAttributes {
    pub status: String,
    pub tag: String,
    pub code: String,
    pub message: String,
}

pub struct BaxeAttributesView {
    pub status: Seq<char>,
    pub tag: Seq<char>,
    pub code: Seq<char>,
    pub message: Seq<char>,
}

impl BaxeAttributesView {
    /// The expression stored under `key`.
    pub open spec fn get(self, key: ClassKey) -> Seq<char> {
        match key {
            ClassKey::Status => self.status,
            ClassKey::Tag => self.tag,
            ClassKey::Code => self.code,
            ClassKey::Message => self.message,
        }
    }
}

impl DeepView for BaxeAttributes {
    type V = BaxeAttributesView;

    open spec fn deep_view(&self) -> BaxeAttributesView {
        BaxeAttributesView {
            status: self.status@,
            tag: self.tag@,
            code: self.code@,
            message: self.message@,
        }
    }
}

impl View for BaxeAttributes {
    type V = BaxeAttributesView;

    open spec fn view(&self) -> BaxeAttributesView {
        self.deep_view()
    }
}

/// A variant together with its classification.
#[derive(Clone, Debug, PartialEq, Eq)]
pub struct VariantSpec {
    pub name: String,
    pub shape: Shape,
    pub attributes: BaxeAttributes,
}

pub struct VariantSpecView {
    pub name: Seq<char>,
    pub shape: ShapeView,
    pub attributes: BaxeAttributesView,
}

impl DeepView for VariantSpec {
    type V = VariantSpecView;

    open spec fn deep_view(&self) -> VariantSpecView {
        VariantSpecView { name: self.name@, shape: self.shape@, attributes: self.attributes@ }
    }
}

impl View for VariantSpec {
    type V = VariantSpecView;

    open spec fn view(&self) -> VariantSpecView {
        self.deep_view()
    }
}

/// A fully classified enum: every variant carries all four keys.
#[derive(Clone, Debug, PartialEq, Eq)]
pub struct EnumSpec {
    pub name: String,
    pub variants: Vec<VariantSpec>,
}

pub struct EnumSpecView {
    pub name: Seq<char>,
    pub variants: Seq<VariantSpecView>,
}

impl DeepView for EnumSpec {
    type V = EnumSpecView;

    open spec fn deep_view(&self) -> EnumSpecView {
        EnumSpecView { name: self.name@, variants: self.variants.deep_view() }
    }
}

impl View for EnumSpec {
    type V = EnumSpecView;

    open spec fn view(&self) -> EnumSpecView {
        self.deep_view()
    }
}

/// What the envelope type is made from: the type of its tag field and the
/// directives passed through onto the type, in order.
#[derive(Clone, Debug, PartialEq, Eq)]
pub struct EnvelopeSchema {
    pub tag_type: String,
    pub extra_directives: Vec<String>,
}

pub struct EnvelopeSchemaView {
    pub tag_type: Seq<char>,
    pub extra_directives: Seq<Seq<char>>,
}

impl DeepView for EnvelopeSchema {
    type V = EnvelopeSchemaView;

    open spec fn deep_view(&self) -> EnvelopeSchemaView {
        EnvelopeSchemaView {
            tag_type: self.tag_type@,
            extra_directives: self.extra_directives.deep_view(),
        }
    }
}

impl View for EnvelopeSchema {
    type V = EnvelopeSchemaView;

    open spec fn view(&self) -> EnvelopeSchemaView {
        self.deep_view()
    }
}

/// How the conversion into the envelope behaves: whether the rendered
/// message is handed to a logging macro first, and whether the envelope's
/// message is withheld. The logging macro is kept as the tokens it was
/// parsed into, written out as text.
#[derive(Clone, Debug, PartialEq, Eq)]
pub struct Options {
    pub log_message_with: Option<String>,
    pub hide_message: bool,
}

pub struct OptionsView {
    pub log_message_with: Option<Seq<char>>,
    pub hide_message: bool,
}

impl DeepView for Options {
    type V = OptionsView;

    open spec fn deep_view(&self) -> OptionsView {
        OptionsView {
            log_message_with: match self.log_message_with {
                Some(target) => Some(target@),
                None => None,
            },
            hide_message: self.hide_message,
        }
    }
}

impl View for Options {
    type V = OptionsView;

    open spec fn view(&self) -> OptionsView {
        self.deep_view()
    }
}

/// Why generation failed.
#[derive(Clone, Debug, PartialEq, Eq)]
pub enum GenError {
    /// The named variant lacks the named key.
    MissingAttribute { variant: String, key: ClassKey },
    /// A classification annotation sits on the enum itself.
    InvalidPlacement,
    /// A field shape that cannot be bound. No declaration has one today.
    UnsupportedShape,
}

pub enum GenErrorView {
    MissingAttribute { variant: Seq<char>, key: ClassKey },
    InvalidPlacement,
    UnsupportedShape,
}

impl DeepView for GenError {
    type V = GenErrorView;

    open spec fn deep_view(&self) -> GenErrorView {
        match self {
            GenError::MissingAttribute { variant, key } => GenErrorView::MissingAttribute {
                variant: variant@,
                key: *key,
            },
            GenError::InvalidPlacement => GenErrorView::InvalidPlacement,
            GenError::UnsupportedShape => GenErrorView::UnsupportedShape,
        }
    }
}

impl View for GenError {
    type V = GenErrorView;

    open spec fn view(&self) -> GenErrorView {
        self.deep_view()
    }
}

/// The words in which an error is reported.
pub open spec fn wording(error: GenErrorView) -> Seq<char> {
    match error {
        GenErrorView::MissingAttribute { variant, key } => "variant `"@ + variant + "` lacks `"@
            + key.name() + "` in its #[baxe(...)] attribute"@,
        GenErrorView::InvalidPlacement =>
            "The #[baxe(...)] attribute is only allowed on enum variants, not on the enum itself."@,
        GenErrorView::UnsupportedShape => "the fields of this variant cannot be bound"@,
    }
}

impl GenError {
    /// The words in which this error is reported.
    pub fn explain(&self) -> (text: String)
        ensures
            text@ == wording(self@),
    {
        match self {
            GenError::MissingAttribute { variant, key } => {
                let mut text = "variant `".to_owned();
                text.append(variant.as_str());
                text.append("` lacks `");
                text.append(key.as_str());
                text.append("` in its #[baxe(...)] attribute");
                text
            },
            GenError::InvalidPlacement => {
                "The #[baxe(...)] attribute is only allowed on enum variants, not on the enum itself.".to_owned()
            },
            GenError::UnsupportedShape => "the fields of this variant cannot be bound".to_owned(),
        }
    }
}

/// Copies a list of texts.
pub fn copy_texts(texts: &Vec<String>) -> (out: Vec<String>)
    ensures
        out.deep_view() == texts.deep_view(),
{
    let mut out: Vec<String> = Vec::new();
    let mut i: usize = 0;
    while i < texts.len()
        invariant
            i <= texts.len(),
            out.deep_view() == texts.deep_view().take(i as int),
        decreases texts.len() - i,
    {
        let ghost done = out.deep_view();
        out.push(texts[i].clone());
        assert(out.deep_view() == done.push(texts[i as int]@));
        assert(texts.deep_view().take(i + 1) == texts.deep_view().take(i as int).push(
            texts[i as int]@,
        ));
        i += 1;
    }
    assert(texts.deep_view().take(texts.len() as int) == texts.deep_view());
    out
}

impl Field {
    /// A copy of this field.
    pub fn duplicate(&self) -> (out: Field)
        ensures
            out@ == self@,
    {
        Field { name: self.name.clone(), ty: self.ty.clone() }
    }
}

impl Shape {
    /// A copy of this shape.
    pub fn duplicate(&self) -> (out: Shape)
        ensures
            out@ == self@,
    {
        match self {
            Shape::Unit => Shape::Unit,
            Shape::Positional(types) => Shape::Positional(copy_texts(types)),
            Shape::Named(fields) => {
                let mut out: Vec<Field> = Vec::new();
                let mut i: usize = 0;
                while i < fields.len()
                    invariant
                        i <= fields.len(),
                        out.deep_view() == fields.deep_view().take(i as int),
                    decreases fields.len() - i,
                {
                    let ghost done = out.deep_view();
                    out.push(fields[i].duplicate());
                    assert(out.deep_view() == done.push(fields[i as int]@));
                    assert(fields.deep_view().take(i + 1) == fields.deep_view().take(
                        i as int,
                    ).push(fields[i as int]@));
                    i += 1;
                }
                assert(fields.deep_view().take(fields.len() as int) == fields.deep_view());
                Shape::Named(out)
            },
        }
    }
}

} // verus!
