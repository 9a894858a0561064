//! The generator as a whole: from the options text and a declared enum to
//! the generated source, or to the reason there is none.

use crate::metadata::{
    classified, classified_variants, classify, first_missing, lacks, misplaced, outcome,
};
use crate::options::{admissible, names_some_target, parse_options, parts, settled};
use crate::render::{expand, expansion};
use crate::schema::{
    ClassKey, EnumDecl, EnumDeclView, GenError, GenErrorView, Options, OptionsView,
    VariantDeclView,
};
use vstd::prelude::*;

verus! {

/// What is generated for a declared enum under `options`: the source text
/// where the enum classifies, the classification's error where it does not.
pub open spec fn generated(options: OptionsView, item: EnumDeclView) -> Result<
    Seq<char>,
    GenErrorView,
> {
    match classified(item) {
        Err(error) => Err(error),
        Ok(spec) => Ok(expansion(options, spec)),
    }
}

/// What is generated from the options text under `verdicts`: nothing where
/// the text is refused, and otherwise what is generated under the options
/// settled.
pub open spec fn generated_under(
    attr: Seq<char>,
    verdicts: Seq<Option<Seq<char>>>,
    item: EnumDeclView,
) -> Option<Result<Seq<char>, GenErrorView>> {
    match settled(parts(attr), verdicts) {
        None => None,
        Some(options) => Some(generated(options, item)),
    }
}

/// The mathematical value of what [`error`] answers.
pub open spec fn answer(result: Option<Result<String, GenError>>) -> Option<
    Result<Seq<char>, GenErrorView>,
> {
    match result {
        None => None,
        Some(inner) => Some(outcome(inner)),
    }
}

/// Whether every variant carries all four keys.
pub open spec fn fully_classified(variants: Seq<VariantDeclView>) -> bool {
    forall|i: int| 0 <= i < variants.len() ==> first_missing((#[trigger] variants[i]).annotations)
        is None
}

/// Generates the source for a declared enum under options already read.
/// Nothing is written unless the whole enum classifies.
pub fn generate(options: &Options, item: &EnumDecl) -> (result: Result<String, GenError>)
    ensures
        outcome(result) == generated(options@, item@),
{
    match classify(item) {
        Err(error) => Err(error),
        Ok(spec) => Ok(expand(options, &spec)),
    }
}

/// Generates the source for a declared enum: the enum itself, its textual
/// rendering, its status, tag and code accessors, its conversion into the
/// envelope and into a response. `attr` is the options text written on the
/// enum, `item` the enum as declared.
///
/// The answer is `None`, and nothing is written, where the options text is
/// refused: that takes a logging macro that the expression parser does not
/// accept. Otherwise the answer is what [`generate`] gives under the options
/// settled on the parser's verdicts.
pub fn error(attr: &str, item: &EnumDecl) -> (result: Option<Result<String, GenError>>)
    ensures
        exists|verdicts: Seq<Option<Seq<char>>>|
            admissible(parts(attr@), verdicts) && answer(result) == #[trigger] generated_under(
                attr@,
                verdicts,
                item@,
            ),
        result is None ==> names_some_target(parts(attr@)),
        !names_some_target(parts(attr@)) ==> result is Some,
{
    let read = parse_options(attr);
    let ghost verdicts = choose|verdicts: Seq<Option<Seq<char>>>|
        admissible(parts(attr@), verdicts) && read.deep_view() == #[trigger] settled(
            parts(attr@),
            verdicts,
        );
    let result = match read {
        None => None,
        Some(options) => Some(generate(&options, item)),
    };
    assert(answer(result) == generated_under(attr@, verdicts, item@));
    result
}

/// The variants classify exactly when each of them carries all four keys.
pub proof fn lemma_variants_classify_iff_complete(variants: Seq<VariantDeclView>)
    ensures
        classified_variants(variants) is Ok <==> fully_classified(variants),
        classified_variants(variants) matches Err(error) ==> error is MissingAttribute,
        classified_variants(variants) matches Ok(specs) ==> specs.len() == variants.len(),
    decreases variants.len(),
{
    if variants.len() > 0 {
        let before = variants.drop_last();
        lemma_variants_classify_iff_complete(before);
        assert forall|i: int| 0 <= i < before.len() implies before[i] == variants[i] by {}
        if fully_classified(variants) {
            assert forall|i: int| 0 <= i < before.len() implies first_missing(
                (#[trigger] before[i]).annotations,
            ) is None by {
                assert(first_missing(variants[i].annotations) is None);
            }
            assert(first_missing(variants[variants.len() - 1].annotations) is None);
        }
        if classified_variants(variants) is Ok {
            assert forall|i: int| 0 <= i < variants.len() implies first_missing(
                (#[trigger] variants[i]).annotations,
            ) is None by {
                if i < before.len() {
                    assert(first_missing(before[i].annotations) is None);
                }
            }
        }
    }
}

/// Source is generated exactly for an enum that carries no classification
/// annotation itself and whose variants each carry all four keys.
pub proof fn lemma_generated_iff_well_classified(options: OptionsView, item: EnumDeclView)
    ensures
        generated(options, item) is Ok <==> !misplaced(item.attributes) && fully_classified(
            item.variants,
        ),
        misplaced(item.attributes) ==> generated(options, item) == Err::<
            Seq<char>,
            GenErrorView,
        >(GenErrorView::InvalidPlacement),
        generated(options, item) matches Err(error) ==> error is InvalidPlacement
            || error is MissingAttribute,
{
    lemma_variants_classify_iff_complete(item.variants);
}

/// A single variant that lacks a single key is enough to refuse the whole
/// enum: nothing is generated for it, whatever the other variants carry.
pub proof fn lemma_missing_key_rejects(
    options: OptionsView,
    item: EnumDeclView,
    i: int,
    key: ClassKey,
)
    requires
        0 <= i < item.variants.len(),
        lacks(item.variants[i].annotations, key),
    ensures
        generated(options, item) is Err,
{
    lemma_generated_iff_well_classified(options, item);
    assert(first_missing(item.variants[i].annotations) is Some);
}

} // verus!
