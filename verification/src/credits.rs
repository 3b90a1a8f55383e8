//! The answer to "credits left".

use crate::json::{required_text, JsonDocument, Members};
use crate::text::{decimal_u32, parse_u32};
use crate::Payload;
use vstd::prelude::*;

verus! {

/// The number of credits that a text of the service stands for: the number
/// that it writes in decimal, and 0 where it writes none that a `u32` holds.
pub open spec fn credits_of(text: Seq<char>) -> u32 {
    match decimal_u32(text) {
        Some(number) => number,
        None => 0,
    }
}

/// What the service says about the credits left on the account.
#[derive(Debug, PartialEq, Eq)]
pub struct ResponseSuccess {
    // The service writes the number inside double quotes, so it comes as a text.
    credits: String,
}

impl View for ResponseSuccess {
    type V = Seq<char>;

    /// The text of the `Credits` member, as the service sent it.
    closed spec fn view(&self) -> Seq<char> {
        self.credits@
    }
}

impl ResponseSuccess {
    /// The credits left. A text that is no number counts as none left.
    pub fn get_credits(&self) -> (credits: u32)
        ensures
            credits == credits_of(self@),
    {
        match parse_u32(self.credits.as_str()) {
            Some(number) => number,
            None => 0,
        }
    }
}

impl Payload for ResponseSuccess {
    /// An object fits where its member `Credits` is a text, whatever the text.
    open spec fn schema(object: Members) -> Option<Seq<char>> {
        required_text(object, "Credits"@)
    }

    fn decode(document: &JsonDocument) -> (payload: Option<ResponseSuccess>) {
        let credits = document.required_text("Credits")?;
        Some(ResponseSuccess { credits })
    }
}

} // verus!
