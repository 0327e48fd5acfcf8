use vstd::prelude::*;

verus! {

/// An address, kept as the text it was given as.
pub type Url = String;

/// The text that a field left unset defaults to: the empty string.
pub open spec fn text_or_empty(text: Option<Seq<char>>) -> Seq<char> {
    match text {
        Some(t) => t,
        None => Seq::empty(),
    }
}

/// The text of a field, or the empty string where the field was left unset.
pub fn unwrap_text(text: Option<String>) -> (res: String)
    ensures
        res@ == text_or_empty(text.deep_view()),
{
    match text {
        Some(t) => t,
        None => String::new(),
    }
}

} // verus!
