//! What the library asks of the types it works with at run time: an error
//! that knows its classification, and a tag that can be shown as text and
//! read back from text.

use axum::http::StatusCode;
use vstd::prelude::*;

verus! {

/// `axum::http::StatusCode`, the transport's status value. It is carried
/// through unopened.
#[verifier::external_type_specification]
#[verifier::external_body]
pub struct ExStatusCode(axum::http::StatusCode);

/// A symbolic tag: it can be shown as text, read back from text, and has a
/// value to fall back on where the text names no tag.
pub trait ErrorTag: Sized {
    /// The text that stands for this tag.
    fn to_display_string(&self) -> String;

    /// The tag that `text` names, if it names one.
    fn from_display_string(text: &str) -> Option<Self>;

    /// The tag to fall back on.
    fn default_tag() -> Self;
}

/// Text as its own tag: every text names itself, and the fallback is the
/// empty text.
impl ErrorTag for String {
    fn to_display_string(&self) -> (text: String)
        ensures
            text@ == self@,
    {
        self.clone()
    }

    fn from_display_string(text: &str) -> (tag: Option<String>)
        ensures
            tag matches Some(named) && named@ == text@,
    {
        Some(text.to_owned())
    }

    fn default_tag() -> (tag: String)
        ensures
            tag@ == Seq::<char>::empty(),
    {
        String::new()
    }
}

/// An error that knows its classification. Its textual rendering is its
/// message.
///
/// The tag's type is named here, as `Tag`. The source that the generator
/// writes implements a trait of the same name whose tag method returns
/// `impl std::fmt::Display` instead, and so does not implement this one: it
/// is written for a trait of that shape in scope where the source lands. An
/// enum meant for [`crate::BaxeError::from_error`] implements this trait by
/// hand, with the same three dispatches and `type Tag` beside them.
pub trait BackendError: core::fmt::Display + core::fmt::Debug {
    /// The type of the error's tag.
    type Tag: ErrorTag;

    /// The transport status this error stands for.
    fn to_status_code(&self) -> StatusCode;

    /// The symbolic tag of this error.
    fn to_error_tag(&self) -> Self::Tag;

    /// The numeric code of this error.
    fn to_error_code(&self) -> u16;
}

} // verus!
