use vstd::prelude::*;

verus! {

/// Whether the phone number library accepts `text`: it parses with no default
/// region and the parsed number fits the numbering plan of its region.
pub uninterp spec fn phone_valid(text: Seq<char>) -> bool;

/// A number that may be committed: non-empty and accepted by the validator.
pub open spec fn number_ok(text: Seq<char>) -> bool {
    text.len() > 0 && phone_valid(text)
}

/// The empty text is never a valid number.
pub proof fn lemma_empty_is_invalid()
    ensures
        !number_ok(Seq::<char>::empty()),
{
}

/// Relies on `phonenumber::parse` (no default region) followed by
/// `phonenumber::is_valid`: the answer is a function of the text alone,
/// and a text that does not parse counts as invalid.
#[verifier::external_body]
fn parse_and_validate(text: &str) -> (r: bool)
    ensures
        r == phone_valid(text@),
{
    match phonenumber::parse(None, text) {
        Ok(number) => phonenumber::is_valid(&number),
        Err(_) => false,
    }
}

/// Decides whether `text` is a phone number that may be stored for a contact.
/// The empty text is never valid.
pub fn is_valid_number(text: &str) -> (r: bool)
    ensures
        r == number_ok(text@),
{
    if text.is_empty() {
        false
    } else {
        parse_and_validate(text)
    }
}

} // verus!
