use vstd::prelude::*;

verus! {

/// The payload that services of this family exchange: a numeric code and a text.
#[derive(Debug)]
pub struct Message {
    pub code: i32,
    pub message_text: String,
}

impl Default for Message {
    /// Code zero and an empty text.
    fn default() -> (r: Message)
        ensures
            r.code == 0,
            r.message_text@ == Seq::<char>::empty(),
    {
        Message { code: 0, message_text: String::new() }
    }
}

} // verus!
