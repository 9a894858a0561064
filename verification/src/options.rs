//! Reads the options written on the enum: a comma-separated list in which
//! `logMessageWith=<macro path>` names a logging macro and `hideMessage`
//! withholds the message from the envelope.
//!
//! Whether a logging macro is accepted is not decided here: the text is
//! handed to `syn`, and what comes back is the verdict. [`settle_options`]
//! says exactly what the options are for every possible verdict;
//! [`parse_options`] asks for the verdicts and settles.

use crate::schema::{Options, OptionsView};
use crate::text::{pieces, same_text, split, starts_with, trim, trimmed};
use vstd::prelude::*;

verus! {

/// The longest logging macro, in characters, that is handed on to be
/// parsed. The parser descends once for every bracket and every prefix
/// operator, so the length of the text bounds how deep it goes.
pub const MAX_TARGET_LENGTH: usize = 128;

/// Calls `syn::parse_str::<syn::Expr>` and, where that succeeds, writes the
/// expression's tokens back as text with `quote::ToTokens`. Nothing is
/// promised of the answer: whether a text lexes depends on where the call
/// is made, inside a procedural macro or outside one. Texts longer than
/// [`MAX_TARGET_LENGTH`] are kept away because the parser's recursion is
/// bounded only by its input.
#[verifier::external_body]
pub(crate) fn expression_tokens(text: &str) -> (tokens: Option<String>)
    requires
        text@.len() <= MAX_TARGET_LENGTH,
{
    match syn::parse_str::<syn::Expr>(text) {
        Ok(expression) => Some(quote::ToTokens::to_token_stream(&expression).to_string()),
        Err(_) => None,
    }
}

/// The options as written: the pieces between commas, each trimmed.
pub open spec fn parts(attr: Seq<char>) -> Seq<Seq<char>> {
    Seq::new(pieces(attr, ',').len(), |i: int| trimmed(pieces(attr, ',')[i]))
}

/// Whether `part` names a logging macro.
pub open spec fn names_log_target(part: Seq<char>) -> bool {
    "logMessageWith="@.is_prefix_of(part)
}

/// The logging macro that `part` names, as written: what follows the `=`,
/// trimmed.
pub open spec fn log_target(part: Seq<char>) -> Seq<char> {
    trimmed(part.skip("logMessageWith="@.len() as int))
}

/// Whether `part` asks for the message to be withheld.
pub open spec fn asks_to_hide(part: Seq<char>) -> bool {
    part == "hideMessage"@
}

/// The options before any part is read.
pub open spec fn no_options() -> OptionsView {
    OptionsView { log_message_with: None, hide_message: false }
}

/// The verdict on part `i`: the tokens of its logging macro where it was
/// accepted, nothing where it was refused or where no verdict was given.
pub open spec fn verdict_on(verdicts: Seq<Option<Seq<char>>>, i: int) -> Option<Seq<char>> {
    if 0 <= i < verdicts.len() {
        verdicts[i]
    } else {
        None
    }
}

/// The options after one more part is read. A part that names a logging
/// macro sets it to the tokens of the verdict, or refuses the whole text
/// where the verdict is a refusal. A part that is neither of the two known
/// forms changes nothing. Once refused, always refused.
pub open spec fn after(
    options: Option<OptionsView>,
    part: Seq<char>,
    verdict: Option<Seq<char>>,
) -> Option<OptionsView> {
    match options {
        None => None,
        Some(so_far) => if names_log_target(part) {
            match verdict {
                Some(tokens) => Some(OptionsView { log_message_with: Some(tokens), ..so_far }),
                None => None,
            }
        } else if asks_to_hide(part) {
            Some(OptionsView { hide_message: true, ..so_far })
        } else {
            Some(so_far)
        },
    }
}

/// The options that `parts` set under `verdicts`, read in order: the last
/// logging macro named wins, and one refusal refuses the text.
pub open spec fn settled(parts: Seq<Seq<char>>, verdicts: Seq<Option<Seq<char>>>) -> Option<
    OptionsView,
>
    decreases parts.len(),
{
    if parts.len() == 0 {
        Some(no_options())
    } else {
        after(
            settled(parts.drop_last(), verdicts),
            parts.last(),
            verdict_on(verdicts, parts.len() - 1),
        )
    }
}

/// Whether `verdicts` could have been given on `parts`: one for each part,
/// and a refusal for every logging macro too long to be handed on.
pub open spec fn admissible(parts: Seq<Seq<char>>, verdicts: Seq<Option<Seq<char>>>) -> bool {
    &&& verdicts.len() == parts.len()
    &&& forall|i: int|
        0 <= i < parts.len() && names_log_target(#[trigger] parts[i]) && log_target(
            parts[i],
        ).len() > MAX_TARGET_LENGTH ==> verdicts[i] is None
}

/// Whether some part names a logging macro.
pub open spec fn names_some_target(parts: Seq<Seq<char>>) -> bool {
    exists|i: int| 0 <= i < parts.len() && names_log_target(#[trigger] parts[i])
}

/// Whether some part asks for the message to be withheld.
pub open spec fn asks_somewhere_to_hide(parts: Seq<Seq<char>>) -> bool {
    exists|i: int| 0 <= i < parts.len() && asks_to_hide(#[trigger] parts[i])
}

/// Settles the options once every logging macro has its verdict. `parts`
/// are the trimmed parts of the options text; `verdicts[i]` is the verdict
/// on the logging macro of part `i`, and is not looked at where that part
/// names none.
pub fn settle_options(parts: &Vec<String>, verdicts: &Vec<Option<String>>) -> (result: Option<
    Options,
>)
    ensures
        result.deep_view() == settled(parts.deep_view(), verdicts.deep_view()),
{
    let mut log_message_with: Option<String> = None;
    let mut hide_message = false;
    let mut i: usize = 0;
    assert(parts.deep_view().take(0) == Seq::<Seq<char>>::empty());
    while i < parts.len()
        invariant
            i <= parts.len(),
            settled(parts.deep_view().take(i as int), verdicts.deep_view()) == Some(
                OptionsView { log_message_with: log_message_with.deep_view(), hide_message },
            ),
        decreases parts.len() - i,
    {
        assert(parts.deep_view().take(i + 1).drop_last() == parts.deep_view().take(i as int));
        assert(parts.deep_view().take(i + 1).last() == parts[i as int]@);
        if starts_with(parts[i].as_str(), "logMessageWith=") {
            if i < verdicts.len() {
                assert(verdicts.deep_view()[i as int] == verdicts[i as int].deep_view());
                match &verdicts[i] {
                    Some(tokens) => {
                        log_message_with = Some(tokens.clone());
                    },
                    None => {
                        proof {
                            lemma_refusal_persists(
                                parts.deep_view(),
                                verdicts.deep_view(),
                                i + 1,
                            );
                        }
                        return None;
                    },
                }
            } else {
                proof {
                    lemma_refusal_persists(parts.deep_view(), verdicts.deep_view(), i + 1);
                }
                return None;
            }
        } else if same_text(parts[i].as_str(), "hideMessage") {
            hide_message = true;
        }
        i += 1;
    }
    assert(parts.deep_view().take(parts.len() as int) == parts.deep_view());
    Some(Options { log_message_with, hide_message })
}

/// Reads the options text. Every logging macro it names is handed to the
/// expression parser, those longer than [`MAX_TARGET_LENGTH`] excepted,
/// which are refused unread; the options are then settled on the verdicts.
/// Whatever the verdicts were: the text is read whenever it names no
/// logging macro, the message is withheld exactly when some part asks for
/// it, and a logging macro is set exactly when some part names one.
pub fn parse_options(attr: &str) -> (result: Option<Options>)
    ensures
        exists|verdicts: Seq<Option<Seq<char>>>|
            admissible(parts(attr@), verdicts) && result.deep_view() == #[trigger] settled(
                parts(attr@),
                verdicts,
            ),
        result is None ==> names_some_target(parts(attr@)),
        !names_some_target(parts(attr@)) ==> result is Some,
        result matches Some(options) ==> (options.hide_message <==> asks_somewhere_to_hide(
            parts(attr@),
        )),
        result matches Some(options) ==> (options.log_message_with is Some <==> names_some_target(
            parts(attr@),
        )),
{
    let raw = split(attr, ',');
    let mut trimmed_parts: Vec<String> = Vec::new();
    let mut verdicts: Vec<Option<String>> = Vec::new();
    let mut i: usize = 0;
    while i < raw.len()
        invariant
            i <= raw.len(),
            raw.deep_view() == pieces(attr@, ','),
            trimmed_parts.deep_view() == parts(attr@).take(i as int),
            admissible(trimmed_parts.deep_view(), verdicts.deep_view()),
        decreases raw.len() - i,
    {
        let ghost parts_before = trimmed_parts.deep_view();
        let ghost verdicts_before = verdicts.deep_view();
        let part = trim(raw[i].as_str());
        assert(raw.deep_view()[i as int] == raw[i as int]@);
        let mut verdict: Option<String> = None;
        if starts_with(part.as_str(), "logMessageWith=") {
            let from = "logMessageWith=".unicode_len();
            let to = part.as_str().unicode_len();
            let target = trim(part.as_str().substring_char(from, to));
            assert(part@.subrange(from as int, to as int) == part@.skip(from as int));
            if target.as_str().unicode_len() <= MAX_TARGET_LENGTH {
                verdict = expression_tokens(target.as_str());
            }
        }
        trimmed_parts.push(part);
        verdicts.push(verdict);
        assert(trimmed_parts.deep_view() == parts_before.push(part@));
        assert(verdicts.deep_view() == verdicts_before.push(verdict.deep_view()));
        assert(parts(attr@).take(i + 1) == parts(attr@).take(i as int).push(part@));
        i += 1;
    }
    assert(parts(attr@).take(raw.len() as int) == parts(attr@));
    let result = settle_options(&trimmed_parts, &verdicts);
    proof {
        lemma_settled_characterised(parts(attr@), verdicts.deep_view());
    }
    result
}

/// Once a prefix of the parts is refused, the whole text is refused.
pub proof fn lemma_refusal_persists(
    parts: Seq<Seq<char>>,
    verdicts: Seq<Option<Seq<char>>>,
    n: int,
)
    requires
        0 <= n <= parts.len(),
        settled(parts.take(n), verdicts) is None,
    ensures
        settled(parts, verdicts) is None,
    decreases parts.len(),
{
    if n < parts.len() {
        assert(parts.drop_last().take(n) == parts.take(n));
        lemma_refusal_persists(parts.drop_last(), verdicts, n);
    } else {
        assert(parts.take(n) == parts);
    }
}

/// What the settled options are, whatever the verdicts: a text that names
/// no logging macro is never refused; where the text is read, the message
/// is withheld exactly when some part is `hideMessage`, and a logging macro
/// is set exactly when some part names one, to the tokens of the verdict on
/// the last such part.
pub proof fn lemma_settled_characterised(parts: Seq<Seq<char>>, verdicts: Seq<Option<Seq<char>>>)
    ensures
        settled(parts, verdicts) is None ==> names_some_target(parts),
        settled(parts, verdicts) matches Some(options) ==> {
            &&& options.hide_message <==> asks_somewhere_to_hide(parts)
            &&& options.log_message_with is Some <==> names_some_target(parts)
            &&& options.log_message_with is Some ==> exists|i: int|
                0 <= i < parts.len() && names_log_target(#[trigger] parts[i])
                    && options.log_message_with == verdict_on(verdicts, i) && forall|j: int|
                    i < j < parts.len() ==> !names_log_target(#[trigger] parts[j])
        },
    decreases parts.len(),
{
    reveal_strlit("logMessageWith=");
    reveal_strlit("hideMessage");
    if parts.len() > 0 {
        let before = parts.drop_last();
        let n = parts.len() - 1;
        lemma_settled_characterised(before, verdicts);
        assert forall|i: int| 0 <= i < n implies before[i] == parts[i] by {}
        if asks_to_hide(parts.last()) {
            assert(!names_log_target(parts.last())) by {
                assert(parts.last().len() == 11);
                assert("logMessageWith="@.len() == 15);
            }
        }
        if names_some_target(before) {
            let i = choose|i: int| 0 <= i < before.len() && names_log_target(#[trigger] before[i]);
            assert(names_log_target(parts[i]));
        }
        if asks_somewhere_to_hide(before) {
            let i = choose|i: int| 0 <= i < before.len() && asks_to_hide(#[trigger] before[i]);
            assert(asks_to_hide(parts[i]));
        }
        if names_log_target(parts.last()) {
            assert(names_log_target(parts[n]));
        }
        if asks_to_hide(parts.last()) {
            assert(asks_to_hide(parts[n]));
        }
        match settled(parts, verdicts) {
            None => {},
            Some(options) => {
                let so_far = settled(before, verdicts)->0;
                if !names_log_target(parts.last()) {
                    if asks_somewhere_to_hide(parts) && !asks_to_hide(parts.last()) {
                        let i = choose|i: int|
                            0 <= i < parts.len() && asks_to_hide(#[trigger] parts[i]);
                        assert(asks_to_hide(before[i]));
                    }
                    if names_some_target(parts) {
                        let i = choose|i: int|
                            0 <= i < parts.len() && names_log_target(#[trigger] parts[i]);
                        assert(names_log_target(before[i]));
                    }
                    if so_far.log_message_with is Some {
                        let i = choose|i: int|
                            0 <= i < before.len() && names_log_target(#[trigger] before[i])
                                && so_far.log_message_with == verdict_on(verdicts, i)
                                && forall|j: int|
                                i < j < before.len() ==> !names_log_target(#[trigger] before[j]);
                        assert(names_log_target(parts[i]));
                        assert forall|j: int| i < j < parts.len() implies !names_log_target(
                            #[trigger] parts[j],
                        ) by {
                            if j < n {
                                assert(before[j] == parts[j]);
                            }
                        }
                    }
                } else {
                    if asks_somewhere_to_hide(parts) {
                        let i = choose|i: int|
                            0 <= i < parts.len() && asks_to_hide(#[trigger] parts[i]);
                        assert(i < n);
                        assert(asks_to_hide(before[i]));
                    }
                }
            },
        }
    }
}

} // verus!
