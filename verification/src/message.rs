//! The sole domain entity of the protocol: an immutable text message.

use vstd::prelude::*;

verus! {

/// A request or response payload: a sequence of characters.
///
/// A `Message` is immutable once constructed; its mathematical model is
/// the sequence of characters of its content.
#[derive(Debug)]
pub struct Message {
    pub content: String,
}

impl View for Message {
    type V = Seq<char>;

    open spec fn view(&self) -> Seq<char> {
        self.content@
    }
}

impl Message {
    /// Builds a message holding exactly the given text.
    pub fn new(content: &str) -> (m: Self)
        ensures
            m@ == content@,
    {
        Self { content: content.to_owned() }
    }
}

impl Clone for Message {
    fn clone(&self) -> (m: Self)
        ensures
            m@ == self@,
    {
        Message { content: self.content.clone() }
    }
}

} // verus!

