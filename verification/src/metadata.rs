//! Reads the classification of a variant out of its annotation entries and
//! turns a declared enum into a classified one.

use crate::schema::{
    Annotation, AnnotationView, AttributeDecl, AttributeDeclView, BaxeAttributes, BaxeAttributesView, ClassKey, EnumDecl,
    EnumDeclView, EnumSpec, EnumSpecView, GenError, GenErrorView, VariantDecl, VariantDeclView,
    VariantSpec, VariantSpecView,
};
use crate::text::same_text;
use vstd::prelude::*;

verus! {

/// The mathematical value of a result.
pub open spec fn outcome<T: DeepView, E: DeepView>(result: Result<T, E>) -> Result<T::V, E::V> {
    match result {
        Ok(value) => Ok(value.deep_view()),
        Err(error) => Err(error.deep_view()),
    }
}

/// The value of the last entry written under `key`, if there is one.
pub open spec fn lookup(annotations: Seq<AnnotationView>, key: Seq<char>) -> Option<Seq<char>>
    decreases annotations.len(),
{
    if annotations.len() == 0 {
        None
    } else if annotations.last().key == key {
        Some(annotations.last().value)
    } else {
        lookup(annotations.drop_last(), key)
    }
}

/// Whether `key` is written nowhere in `annotations`.
pub open spec fn lacks(annotations: Seq<AnnotationView>, key: ClassKey) -> bool {
    lookup(annotations, key.name()) is None
}

/// The first key, in the order status, tag, code, message, that
/// `annotations` does not carry.
pub open spec fn first_missing(annotations: Seq<AnnotationView>) -> Option<ClassKey> {
    if lacks(annotations, ClassKey::Status) {
        Some(ClassKey::Status)
    } else if lacks(annotations, ClassKey::Tag) {
        Some(ClassKey::Tag)
    } else if lacks(annotations, ClassKey::Code) {
        Some(ClassKey::Code)
    } else if lacks(annotations, ClassKey::Message) {
        Some(ClassKey::Message)
    } else {
        None
    }
}

/// The classification of a declared variant: its four expressions, or the
/// first key it lacks.
pub open spec fn classification(variant: VariantDeclView) -> Result<
    BaxeAttributesView,
    GenErrorView,
> {
    match first_missing(variant.annotations) {
        Some(key) => Err(GenErrorView::MissingAttribute { variant: variant.name, key }),
        None => Ok(
            BaxeAttributesView {
                status: lookup(variant.annotations, ClassKey::Status.name())->0,
                tag: lookup(variant.annotations, ClassKey::Tag.name())->0,
                code: lookup(variant.annotations, ClassKey::Code.name())->0,
                message: lookup(variant.annotations, ClassKey::Message.name())->0,
            },
        ),
    }
}

/// Whether `path` names the classification annotation.
pub open spec fn is_classification_path(path: Seq<char>) -> bool {
    path == "baxe"@
}

/// Whether a classification annotation sits among `attributes`.
pub open spec fn misplaced(attributes: Seq<Seq<char>>) -> bool {
    exists|i: int| 0 <= i < attributes.len() && is_classification_path(#[trigger] attributes[i])
}

/// The classification entries among the attributes of a variant: the
/// entries of every attribute whose path is `baxe`, in the order written.
/// There are none to speak of where such an attribute carries no entries.
pub open spec fn gathered(attributes: Seq<AttributeDeclView>) -> Option<Seq<AnnotationView>>
    decreases attributes.len(),
{
    if attributes.len() == 0 {
        Some(Seq::empty())
    } else {
        match gathered(attributes.drop_last()) {
            None => None,
            Some(before) => if is_classification_path(attributes.last().path) {
                match attributes.last().entries {
                    Some(entries) => Some(before + entries),
                    None => None,
                }
            } else {
                Some(before)
            },
        }
    }
}

/// The variants of a declaration with their classifications, or the error of
/// the first variant, in declaration order, that lacks a key.
pub open spec fn classified_variants(variants: Seq<VariantDeclView>) -> Result<
    Seq<VariantSpecView>,
    GenErrorView,
>
    decreases variants.len(),
{
    if variants.len() == 0 {
        Ok(Seq::empty())
    } else {
        match classified_variants(variants.drop_last()) {
            Err(error) => Err(error),
            Ok(done) => match classification(variants.last()) {
                Err(error) => Err(error),
                Ok(attributes) => Ok(
                    done.push(
                        VariantSpecView {
                            name: variants.last().name,
                            shape: variants.last().shape,
                            attributes,
                        },
                    ),
                ),
            },
        }
    }
}

/// The classified enum that a declaration stands for, or why it stands for
/// none.
pub open spec fn classified(item: EnumDeclView) -> Result<EnumSpecView, GenErrorView> {
    if misplaced(item.attributes) {
        Err(GenErrorView::InvalidPlacement)
    } else {
        match classified_variants(item.variants) {
            Err(error) => Err(error),
            Ok(variants) => Ok(EnumSpecView { name: item.name, variants }),
        }
    }
}

/// Whether `path`, the path of an attribute as written, names the
/// classification annotation.
pub fn names_classification(path: &str) -> (yes: bool)
    ensures
        yes == is_classification_path(path@),
{
    same_text(path, "baxe")
}

/// The value of the last entry written under `key`, if there is one.
pub fn find_value(annotations: &Vec<Annotation>, key: &str) -> (found: Option<String>)
    ensures
        found.deep_view() == lookup(annotations.deep_view(), key@),
{
    let mut i: usize = annotations.len();
    assert(annotations.deep_view().take(i as int) == annotations.deep_view());
    while i > 0
        invariant
            i <= annotations.len(),
            lookup(annotations.deep_view(), key@) == lookup(
                annotations.deep_view().take(i as int),
                key@,
            ),
        decreases i,
    {
        assert(annotations.deep_view().take(i as int).drop_last() == annotations.deep_view().take(
            i - 1,
        ));
        if same_text(annotations[i - 1].key.as_str(), key) {
            return Some(annotations[i - 1].value.clone());
        }
        i -= 1;
    }
    None
}

/// Reads the classification of `variant`: for each of the four keys the
/// value of the last entry written under it. Entries under other keys are
/// passed over. A variant that lacks a key is refused, and the error names
/// the variant and the first key it lacks.
pub fn parse_baxe_attributes(variant: &VariantDecl) -> (result: Result<BaxeAttributes, GenError>)
    ensures
        outcome(result) == classification(variant@),
{
    let status = match find_value(&variant.annotations, ClassKey::Status.as_str()) {
        Some(value) => value,
        None => {
            return Err(
                GenError::MissingAttribute { variant: variant.name.clone(), key: ClassKey::Status },
            );
        },
    };
    let tag = match find_value(&variant.annotations, ClassKey::Tag.as_str()) {
        Some(value) => value,
        None => {
            return Err(
                GenError::MissingAttribute { variant: variant.name.clone(), key: ClassKey::Tag },
            );
        },
    };
    let code = match find_value(&variant.annotations, ClassKey::Code.as_str()) {
        Some(value) => value,
        None => {
            return Err(
                GenError::MissingAttribute { variant: variant.name.clone(), key: ClassKey::Code },
            );
        },
    };
    let message = match find_value(&variant.annotations, ClassKey::Message.as_str()) {
        Some(value) => value,
        None => {
            return Err(
                GenError::MissingAttribute {
                    variant: variant.name.clone(),
                    key: ClassKey::Message,
                },
            );
        },
    };
    Ok(BaxeAttributes { status, tag, code, message })
}

/// The place of the first classification annotation among the attributes
/// written on the enum itself, if there is one. `attributes` are the paths
/// of those attributes.
pub fn first_misplaced(attributes: &Vec<String>) -> (place: Option<usize>)
    ensures
        place is Some <==> misplaced(attributes.deep_view()),
        place matches Some(at) ==> at < attributes.len() && is_classification_path(
            attributes.deep_view()[at as int],
        ) && !misplaced(attributes.deep_view().take(at as int)),
{
    let mut i: usize = 0;
    while i < attributes.len()
        invariant
            i <= attributes.len(),
            !misplaced(attributes.deep_view().take(i as int)),
        decreases attributes.len() - i,
    {
        if names_classification(attributes[i].as_str()) {
            assert(is_classification_path(attributes.deep_view()[i as int]));
            return Some(i);
        }
        assert forall|k: int| 0 <= k < i + 1 implies !is_classification_path(
            #[trigger] attributes.deep_view().take(i + 1)[k],
        ) by {
            if k < i {
                assert(attributes.deep_view().take(i as int)[k] == attributes.deep_view()[k]);
            }
        }
        i += 1;
    }
    assert(attributes.deep_view().take(attributes.len() as int) == attributes.deep_view());
    None
}

/// Refuses a classification annotation among the attributes written on the
/// enum itself. `attributes` are the paths of those attributes.
pub fn check_placement(attributes: &Vec<String>) -> (result: Result<(), GenError>)
    ensures
        result is Ok <==> !misplaced(attributes.deep_view()),
        result matches Err(error) ==> error@ == GenErrorView::InvalidPlacement,
{
    match first_misplaced(attributes) {
        Some(_) => Err(GenError::InvalidPlacement),
        None => Ok(()),
    }
}

/// Gathers the classification entries of a variant from all the attributes
/// written on it: the entries of those whose path is `baxe`, in the order
/// written, and nothing of the others. The answer is `None` where an
/// attribute of that path has arguments that are no list of entries.
pub fn gather_entries(attributes: &Vec<AttributeDecl>) -> (result: Option<Vec<Annotation>>)
    ensures
        result.deep_view() == gathered(attributes.deep_view()),
{
    let mut out: Vec<Annotation> = Vec::new();
    let mut i: usize = 0;
    assert(attributes.deep_view().take(0) == Seq::<AttributeDeclView>::empty());
    assert(out.deep_view() == Seq::<AnnotationView>::empty());
    while i < attributes.len()
        invariant
            i <= attributes.len(),
            gathered(attributes.deep_view().take(i as int)) == Some(out.deep_view()),
        decreases attributes.len() - i,
    {
        let attribute = &attributes[i];
        assert(attributes.deep_view().take(i + 1).drop_last() == attributes.deep_view().take(
            i as int,
        ));
        assert(attributes.deep_view().take(i + 1).last() == attribute@);
        if names_classification(attribute.path.as_str()) {
            match &attribute.entries {
                None => {
                    proof {
                        lemma_unreadable_persists(attributes.deep_view(), i + 1);
                    }
                    return None;
                },
                Some(entries) => {
                    let ghost before = out.deep_view();
                    let mut k: usize = 0;
                    while k < entries.len()
                        invariant
                            k <= entries.len(),
                            out.deep_view() == before + entries.deep_view().take(k as int),
                        decreases entries.len() - k,
                    {
                        let ghost done = out.deep_view();
                        out.push(entries[k].duplicate());
                        assert(out.deep_view() == done.push(entries[k as int]@));
                        assert(entries.deep_view().take(k + 1) == entries.deep_view().take(
                            k as int,
                        ).push(entries[k as int]@));
                        k += 1;
                    }
                    assert(entries.deep_view().take(entries.len() as int) == entries.deep_view());
                },
            }
        }
        i += 1;
    }
    assert(attributes.deep_view().take(attributes.len() as int) == attributes.deep_view());
    Some(out)
}

/// Once a prefix of the attributes cannot be read, neither can the whole.
pub proof fn lemma_unreadable_persists(attributes: Seq<AttributeDeclView>, n: int)
    requires
        0 <= n <= attributes.len(),
        gathered(attributes.take(n)) is None,
    ensures
        gathered(attributes) is None,
    decreases attributes.len(),
{
    if n < attributes.len() {
        assert(attributes.drop_last().take(n) == attributes.take(n));
        lemma_unreadable_persists(attributes.drop_last(), n);
    } else {
        assert(attributes.take(n) == attributes);
    }
}

/// Classifies a declared enum. Placement is checked first; then the
/// variants are read in declaration order, and the first one that lacks a
/// key ends the pass with its error.
pub fn classify(item: &EnumDecl) -> (result: Result<EnumSpec, GenError>)
    ensures
        outcome(result) == classified(item@),
{
    match check_placement(&item.attributes) {
        Err(error) => {
            return Err(error);
        },
        Ok(_) => {},
    }
    let mut variants: Vec<VariantSpec> = Vec::new();
    let mut i: usize = 0;
    assert(item@.variants.take(0) == Seq::<VariantDeclView>::empty());
    assert(variants.deep_view() == Seq::<VariantSpecView>::empty());
    while i < item.variants.len()
        invariant
            i <= item.variants.len(),
            !misplaced(item@.attributes),
            classified_variants(item@.variants.take(i as int)) == Ok::<
                Seq<VariantSpecView>,
                GenErrorView,
            >(variants.deep_view()),
        decreases item.variants.len() - i,
    {
        let variant = &item.variants[i];
        assert(item@.variants.take(i + 1).drop_last() == item@.variants.take(i as int));
        assert(item@.variants.take(i + 1).last() == variant@);
        match parse_baxe_attributes(variant) {
            Err(error) => {
                proof {
                    lemma_failure_persists(item@.variants, i + 1);
                }
                return Err(error);
            },
            Ok(attributes) => {
                let ghost done = variants.deep_view();
                let spec = VariantSpec {
                    name: variant.name.clone(),
                    shape: variant.shape.duplicate(),
                    attributes,
                };
                variants.push(spec);
                assert(variants.deep_view() == done.push(spec@));
            },
        }
        i += 1;
    }
    assert(item@.variants.take(item.variants.len() as int) == item@.variants);
    Ok(EnumSpec { name: item.name.clone(), variants })
}

/// An entry under any other key changes nothing about what is found under
/// `key`, wherever among the entries it is written.
pub proof fn lemma_other_key_ignored(
    annotations: Seq<AnnotationView>,
    position: int,
    extra: AnnotationView,
    key: Seq<char>,
)
    requires
        0 <= position <= annotations.len(),
        extra.key != key,
    ensures
        lookup(annotations.insert(position, extra), key) == lookup(annotations, key),
    decreases annotations.len() - position,
{
    let with_extra = annotations.insert(position, extra);
    if position == annotations.len() {
        assert(with_extra.drop_last() == annotations);
    } else {
        assert(with_extra.last() == annotations.last());
        assert(with_extra.drop_last() == annotations.drop_last().insert(position, extra));
        lemma_other_key_ignored(annotations.drop_last(), position, extra, key);
    }
}

/// An entry under a key that is none of the four changes nothing about a
/// variant's classification, wherever among the entries it is written.
pub proof fn lemma_unknown_key_ignored(variant: VariantDeclView, position: int, extra: AnnotationView)
    requires
        0 <= position <= variant.annotations.len(),
        extra.key != ClassKey::Status.name(),
        extra.key != ClassKey::Tag.name(),
        extra.key != ClassKey::Code.name(),
        extra.key != ClassKey::Message.name(),
    ensures
        classification(
            VariantDeclView { annotations: variant.annotations.insert(position, extra), ..variant },
        ) == classification(variant),
{
    lemma_other_key_ignored(variant.annotations, position, extra, ClassKey::Status.name());
    lemma_other_key_ignored(variant.annotations, position, extra, ClassKey::Tag.name());
    lemma_other_key_ignored(variant.annotations, position, extra, ClassKey::Code.name());
    lemma_other_key_ignored(variant.annotations, position, extra, ClassKey::Message.name());
}

/// Once a prefix of the variants is refused, the whole list is refused with
/// the same error.
pub proof fn lemma_failure_persists(variants: Seq<VariantDeclView>, n: int)
    requires
        0 <= n <= variants.len(),
        classified_variants(variants.take(n)) is Err,
    ensures
        classified_variants(variants) == classified_variants(variants.take(n)),
    decreases variants.len(),
{
    if n < variants.len() {
        assert(variants.drop_last().take(n) == variants.take(n));
        lemma_failure_persists(variants.drop_last(), n);
    } else {
        assert(variants.take(n) == variants);
    }
}

} // verus!
