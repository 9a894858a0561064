//! The envelope: the one normalized value every classified error converts
//! into, and the source text that declares an envelope type for a schema.

use crate::render::stacked;
use crate::schema::{EnvelopeSchema, EnvelopeSchemaView};
use crate::traits::{BackendError, ErrorTag};
use axum::http::StatusCode;
use vstd::prelude::*;

verus! {

/// The normalized error value. The status travels beside the body and is
/// not part of it; the message may be absent.
#[derive(Debug)]
pub struct BaxeError<T> {
    pub status_code: StatusCode,
    pub message: Option<String>,
    pub code: u16,
    pub error_tag: T,
}

/// The text that `{:?}` formatting gives for an optional message.
pub uninterp spec fn debug_text(message: Option<Seq<char>>) -> Seq<char>;

/// Calls `format!("{:?}", message)` on an `Option<String>`: the derived
/// `Debug` of `Option` around the quoted and escaped text. The escaping is
/// not restated; the result is named [`debug_text`], and only the rendering
/// of an absent message is spelled out.
#[verifier::external_body]
pub(crate) fn format_debug(message: &Option<String>) -> (text: String)
    ensures
        text@ == debug_text(message.deep_view()),
        message is None ==> text@ == "None"@,
{
    format!("{:?}", message)
}

/// Whether `tag` is what the tag type makes of `text`: the tag that the
/// text names where it names one, the type's fallback where it names none.
pub open spec fn reconstructs<T: ErrorTag>(text: Seq<char>, tag: T) -> bool {
    exists|written: &str, parsed: Option<T>|
        written@ == text && #[trigger] call_ensures(T::from_display_string, (written,), parsed)
            && match parsed {
            Some(named) => tag == named,
            None => call_ensures(T::default_tag, (), tag),
        }
}

/// Whether `text` is the text an error's tag is shown as.
pub open spec fn shows_tag_of<E: BackendError>(error: &E, text: Seq<char>) -> bool {
    exists|tag: E::Tag, shown: String|
        call_ensures(E::to_error_tag, (error,), tag) && #[trigger] call_ensures(
            <E::Tag as ErrorTag>::to_display_string,
            (&tag,),
            shown,
        ) && shown@ == text
}

/// Settles on a tag once the text has been read: the tag it named, or the
/// type's fallback where it named none. This never fails.
pub fn tag_or_default<T: ErrorTag>(parsed: Option<T>) -> (tag: T)
    ensures
        match parsed {
            Some(named) => tag == named,
            None => call_ensures(T::default_tag, (), tag),
        },
{
    match parsed {
        Some(named) => named,
        None => T::default_tag(),
    }
}

impl<T: ErrorTag> BaxeError<T> {
    /// Builds an envelope from its parts, the tag given as text. Status,
    /// message and code are stored as given. A text that names no tag does
    /// not fail the construction: the envelope then carries the tag type's
    /// fallback.
    pub fn new(status_code: StatusCode, message: Option<String>, code: u16, error_tag: String) -> (envelope: Self)
        ensures
            envelope.status_code == status_code,
            envelope.message == message,
            envelope.code == code,
            reconstructs(error_tag@, envelope.error_tag),
    {
        let parsed = T::from_display_string(error_tag.as_str());
        BaxeError { status_code, message, code, error_tag: tag_or_default(parsed) }
    }

    /// Converts a classified error into an envelope. Status and code are
    /// what the error answers; the tag is read back from the text the
    /// error's tag is shown as; the message is the error's rendering, or
    /// absent where `hide_message` is set, whatever the rendering is.
    pub fn from_error<E: BackendError>(error: E, hide_message: bool) -> (envelope: Self)
        ensures
            call_ensures(E::to_status_code, (&error,), envelope.status_code),
            call_ensures(E::to_error_code, (&error,), envelope.code),
            hide_message ==> envelope.message is None,
            !hide_message ==> (envelope.message matches Some(rendered)
                && vstd::string::to_string_from_display_ensures::<E>(&error, rendered)),
            exists|text: Seq<char>|
                #[trigger] shows_tag_of(&error, text) && reconstructs(text, envelope.error_tag),
    {
        let status = error.to_status_code();
        let shown = error.to_error_tag();
        let tag = shown.to_display_string();
        assert(shows_tag_of(&error, tag@));
        let message = if hide_message {
            None
        } else {
            Some(error.to_string())
        };
        Self::new(status, message, error.to_error_code(), tag)
    }

    /// The textual rendering of the envelope: its optional message in
    /// debug form.
    pub fn to_string(&self) -> (text: String)
        ensures
            text@ == debug_text(self.message.deep_view()),
            self.message is None ==> text@ == "None"@,
    {
        format_debug(&self.message)
    }
}

/// Reading a tag back never fails. Where the tag type can make no tag of
/// the text, the tag settled on is one the type gives as its fallback.
pub proof fn lemma_unrecognized_text_gives_default<T: ErrorTag>(text: Seq<char>, tag: T)
    requires
        reconstructs(text, tag),
        forall|written: &str, named: T|
            written@ == text ==> !#[trigger] call_ensures(
                T::from_display_string,
                (written,),
                Some(named),
            ),
    ensures
        call_ensures(T::default_tag, (), tag),
{
}

/// The attributes passed through onto the envelope type, one per line.
pub open spec fn directive_lines(directives: Seq<Seq<char>>) -> Seq<char> {
    stacked(
        Seq::new(directives.len(), |i: int| "#["@ + directives[i] + "]"@),
        ""@,
        "\n"@,
    )
}

/// The declaration of the envelope type for a schema: exactly four fields,
/// the status left out of the serialized form, the message left out when
/// absent, the tag of the schema's type; its rendering; its conversion into
/// a response; and its construction from a tag given as text, which falls
/// back on the tag type's default.
pub open spec fn envelope_declaration(schema: EnvelopeSchemaView) -> Seq<char> {
    "#[derive(std::fmt::Debug, serde::Serialize)]\n"@ + directive_lines(schema.extra_directives)
        + "pub struct BaxeError {\n    #[serde(skip)]\n    pub status_code: axum::http::StatusCode,\n    #[serde(skip_serializing_if = \"Option::is_none\")]\n    pub message: Option<String>,\n    pub code: u16,\n    pub error_tag: "@
        + schema.tag_type
        + ",\n}\n\nimpl std::fmt::Display for BaxeError {\n    fn fmt(&self, f: &mut std::fmt::Formatter<'_>) -> std::fmt::Result {\n        write!(f, \"{:?}\", self.message)\n    }\n}\n\nimpl std::error::Error for BaxeError {}\n\nimpl axum::response::IntoResponse for BaxeError {\n    fn into_response(self) -> axum::response::Response {\n        (self.status_code, axum::Json(self)).into_response()\n    }\n}\n\nimpl BaxeError {\n    pub fn new(status_code: axum::http::StatusCode, message: Option<String>, code: u16, error_tag: String) -> Self {\n        use std::str::FromStr;\n        Self {\n            status_code,\n            message,\n            code,\n            error_tag: <"@
        + schema.tag_type + ">::from_str(&error_tag).unwrap_or_default()\n        }\n    }\n}\n"@
}

/// Writes the declaration of the envelope type for `schema`.
pub fn baxe_error(schema: &EnvelopeSchema) -> (out: String)
    ensures
        out@ == envelope_declaration(schema@),
{
    let mut attributes: Vec<String> = Vec::new();
    let mut i: usize = 0;
    while i < schema.extra_directives.len()
        invariant
            i <= schema.extra_directives.len(),
            attributes.deep_view() == Seq::new(
                i as nat,
                |k: int| "#["@ + schema@.extra_directives[k] + "]"@,
            ),
        decreases schema.extra_directives.len() - i,
    {
        let ghost done = attributes.deep_view();
        let mut attribute = "#[".to_owned();
        attribute.append(schema.extra_directives[i].as_str());
        attribute.append("]");
        attributes.push(attribute);
        assert(attributes.deep_view() == done.push(attribute@));
        i += 1;
    }
    let mut out = "#[derive(std::fmt::Debug, serde::Serialize)]\n".to_owned();
    out.append(crate::render::stack(&attributes, "", "\n").as_str());
    out.append(
        "pub struct BaxeError {\n    #[serde(skip)]\n    pub status_code: axum::http::StatusCode,\n    #[serde(skip_serializing_if = \"Option::is_none\")]\n    pub message: Option<String>,\n    pub code: u16,\n    pub error_tag: ",
    );
    out.append(schema.tag_type.as_str());
    out.append(
        ",\n}\n\nimpl std::fmt::Display for BaxeError {\n    fn fmt(&self, f: &mut std::fmt::Formatter<'_>) -> std::fmt::Result {\n        write!(f, \"{:?}\", self.message)\n    }\n}\n\nimpl std::error::Error for BaxeError {}\n\nimpl axum::response::IntoResponse for BaxeError {\n    fn into_response(self) -> axum::response::Response {\n        (self.status_code, axum::Json(self)).into_response()\n    }\n}\n\nimpl BaxeError {\n    pub fn new(status_code: axum::http::StatusCode, message: Option<String>, code: u16, error_tag: String) -> Self {\n        use std::str::FromStr;\n        Self {\n            status_code,\n            message,\n            code,\n            error_tag: <",
    );
    out.append(schema.tag_type.as_str());
    out.append(">::from_str(&error_tag).unwrap_or_default()\n        }\n    }\n}\n");
    out
}

} // verus!
