//! The input panel: what a submission does with the text in the field.

use vstd::prelude::*;

verus! {

/// Takes the text out of the input field for sending.
///
/// The result is the text exactly as it stood in the field; it is not
/// trimmed, and an empty field gives an empty text to send. The field is
/// empty afterwards, whatever it held.
pub fn take_submission(field: &mut String) -> (text: String)
    ensures
        text@ == old(field)@,
        final(field)@ == Seq::<char>::empty(),
{
    let mut text = String::new();
    std::mem::swap(field, &mut text);
    text
}

} // verus!
