//! Writes the conversion of a classified enum into the envelope, with its
//! two independent options: a logging hook and the withholding of the
//! message.

use crate::schema::{Options, OptionsView};
use vstd::prelude::*;

verus! {

/// The statement that hands the rendered message to the logging macro, or
/// nothing where none is configured.
pub open spec fn log_statement(options: OptionsView) -> Seq<char> {
    match options.log_message_with {
        Some(target) => "        "@ + target + "!(\"{}\", error.to_string());\n"@,
        None => Seq::<char>::empty(),
    }
}

/// The expression that becomes the envelope's message: nothing at all where
/// the message is withheld, the rendered text otherwise.
pub open spec fn message_expression(options: OptionsView) -> Seq<char> {
    if options.hide_message {
        "None"@
    } else {
        "error.to_string().into()"@
    }
}

/// The conversion from the enum named `name` into the envelope. The logging
/// statement, where there is one, comes first; status, tag and code are
/// taken from the dispatches.
pub open spec fn conversion_impl(options: OptionsView, name: Seq<char>) -> Seq<char> {
    "impl From<"@ + name + "> for BaxeError {\n    fn from(error: "@ + name + ") -> Self {\n"@
        + log_statement(options)
        + "        let status = error.to_status_code();\n        let tag: String = error.to_error_tag().to_string();\n        BaxeError::new(status, "@
        + message_expression(options) + ", error.to_error_code(), tag)\n    }\n}\n\n"@
}

/// The conversion of the enum into an outbound response: its status paired
/// with the envelope as the body.
pub open spec fn response_impl(name: Seq<char>) -> Seq<char> {
    "impl IntoResponse for "@ + name
        + " {\n    fn into_response(self) -> axum::response::Response {\n        (self.to_status_code(), Json(BaxeError::from(self))).into_response()\n    }\n}\n"@
}

/// Writes the logging statement.
pub fn write_log_statement(options: &Options) -> (out: String)
    ensures
        out@ == log_statement(options@),
{
    match &options.log_message_with {
        Some(target) => {
            let mut out = "        ".to_owned();
            out.append(target.as_str());
            out.append("!(\"{}\", error.to_string());\n");
            out
        },
        None => String::new(),
    }
}

/// Writes the expression that becomes the envelope's message.
pub fn write_message_expression(options: &Options) -> (out: &'static str)
    ensures
        out@ == message_expression(options@),
{
    if options.hide_message {
        "None"
    } else {
        "error.to_string().into()"
    }
}

/// Writes the conversion from the enum named `name` into the envelope.
pub fn write_conversion(options: &Options, name: &str) -> (out: String)
    ensures
        out@ == conversion_impl(options@, name@),
{
    let mut out = "impl From<".to_owned();
    out.append(name);
    out.append("> for BaxeError {\n    fn from(error: ");
    out.append(name);
    out.append(") -> Self {\n");
    out.append(write_log_statement(options).as_str());
    out.append(
        "        let status = error.to_status_code();\n        let tag: String = error.to_error_tag().to_string();\n        BaxeError::new(status, ",
    );
    out.append(write_message_expression(options));
    out.append(", error.to_error_code(), tag)\n    }\n}\n\n");
    out
}

/// Writes the conversion of the enum into an outbound response.
pub fn write_response(name: &str) -> (out: String)
    ensures
        out@ == response_impl(name@),
{
    let mut out = "impl IntoResponse for ".to_owned();
    out.append(name);
    out.append(
        " {\n    fn into_response(self) -> axum::response::Response {\n        (self.to_status_code(), Json(BaxeError::from(self))).into_response()\n    }\n}\n",
    );
    out
}

/// The two options do not touch each other: the logging statement is the
/// same whether or not the message is withheld, and the message expression
/// is the same whatever is logged. Where the message is withheld the
/// expression is `None` for every enum and every variant.
pub proof fn lemma_options_independent(first: OptionsView, second: OptionsView)
    ensures
        first.log_message_with == second.log_message_with ==> log_statement(first)
            == log_statement(second),
        first.hide_message == second.hide_message ==> message_expression(first)
            == message_expression(second),
        first.hide_message ==> message_expression(first) == "None"@,
{
}

} // verus!
