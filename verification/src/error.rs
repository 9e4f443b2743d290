//! The failure value of an upload.

use vstd::prelude::*;

verus! {

/// Why one upload failed: a single message for a human reader.
#[derive(Debug)]
pub struct UploadError {
    message: String,
}

impl View for UploadError {
    type V = Seq<char>;

    /// The message.
    closed spec fn view(&self) -> Seq<char> {
        self.message@
    }
}

impl UploadError {
    /// A failure that carries `message`.
    pub fn new(message: &str) -> (error: UploadError)
        ensures
            error@ == message@,
    {
        UploadError { message: String::from_str(message) }
    }

    /// The message, as it is shown to the user.
    pub fn to_string(&self) -> (text: String)
        ensures
            text@ == self@,
    {
        self.message.clone()
    }
}

} // verus!
