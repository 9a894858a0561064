//! Compiles a message template into the match arm that renders it.

use crate::schema::ShapeView;
use crate::shape::{arg_name, binding, variant_path, Binding, BindingView};
use crate::text::{join, separated};
use vstd::prelude::*;

verus! {

/// The arm that renders `template` for a variant bound by `binding`. A unit
/// variant writes the template as it is. Any other variant formats the
/// template with the bound names as positional arguments, in declaration
/// order, and writes the result.
pub open spec fn message_arm(binding: BindingView, template: Seq<char>) -> Seq<char> {
    if binding.unit {
        binding.pattern + " => { write!(f, "@ + template + ") }"@
    } else {
        binding.pattern + " => { let formatted_message = format!("@ + template + ", "@
            + separated(binding.names, ", "@)
            + "); write!(f, \"{formatted_message}\") }"@
    }
}

/// Compiles `template` into the arm that renders it for the variant bound
/// by `binding`. The arguments handed to the formatter are exactly the names
/// the pattern binds, in the same order. The template is not inspected:
/// whether its placeholders agree with the fields is left to the formatter.
pub fn compile_message(binding: &Binding, template: &str) -> (arm: String)
    ensures
        arm@ == message_arm(binding@, template@),
{
    let mut arm = binding.pattern.clone();
    if binding.unit {
        arm.append(" => { write!(f, ");
        arm.append(template);
        arm.append(") }");
    } else {
        arm.append(" => { let formatted_message = format!(");
        arm.append(template);
        arm.append(", ");
        arm.append(join(&binding.names, ", ").as_str());
        arm.append("); write!(f, \"{formatted_message}\") }");
    }
    arm
}

/// For a variant with positional fields, the names the pattern binds and
/// the arguments handed to the formatter are one and the same list: one
/// name per field, `arg0`, `arg1`, ... in declaration order. So the
/// placeholder at position `i` of the template is filled from field `i`.
pub proof fn lemma_positional_fidelity(
    enum_name: Seq<char>,
    variant_name: Seq<char>,
    types: Seq<Seq<char>>,
    template: Seq<char>,
)
    ensures
        ({
            let bound = binding(enum_name, variant_name, ShapeView::Positional(types));
            let arguments = separated(bound.names, ", "@);
            &&& bound.names.len() == types.len()
            &&& forall|i: int| 0 <= i < types.len() ==> bound.names[i] == arg_name(i as nat)
            &&& bound.pattern == variant_path(enum_name, variant_name) + "("@ + arguments + ")"@
            &&& message_arm(bound, template) == bound.pattern
                + " => { let formatted_message = format!("@ + template + ", "@ + arguments
                + "); write!(f, \"{formatted_message}\") }"@
        }),
{
}

} // verus!
