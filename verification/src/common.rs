//! What every upload provider's success value offers.

use vstd::prelude::*;

verus! {

/// The reply of a provider to a successful upload.
pub trait UploadResponse: Send + Sync {
    /// Whether the reply names the uploaded file by an absolute URL.
    spec fn well_formed(&self) -> bool;

    /// The URL of the uploaded file, in its serialised form.
    spec fn file_url(&self) -> Seq<char>;

    /// The URL under which the uploaded file can be viewed.
    fn upload_file_url(&self) -> (url: String)
        requires
            self.well_formed(),
        ensures
            url@ == self.file_url(),
    ;
}

} // verus!
