//! References to images: telling a remote URL from a local path, and making a
//! local path absolute.

use crate::paths::{is_absolute_path, joined_path, path_is_absolute, path_join};
use crate::text::has_prefix;
use vstd::prelude::*;

verus! {

/// One image to upload, as the user named it.
#[derive(Debug)]
pub enum UploadReference {
    /// A file on this machine.
    LocalPath(String),
    /// An image that the host is to fetch from this URL.
    RemoteURL(String),
}

/// An [`UploadReference`] in contracts.
pub enum UploadReferenceView {
    LocalPath(Seq<char>),
    RemoteURL(Seq<char>),
}

impl View for UploadReference {
    type V = UploadReferenceView;

    open spec fn view(&self) -> UploadReferenceView {
        match self {
            UploadReference::LocalPath(path) => UploadReferenceView::LocalPath(path@),
            UploadReference::RemoteURL(url) => UploadReferenceView::RemoteURL(url@),
        }
    }
}

impl UploadReferenceView {
    /// The text that was classified.
    pub open spec fn text(self) -> Seq<char> {
        match self {
            UploadReferenceView::LocalPath(path) => path,
            UploadReferenceView::RemoteURL(url) => url,
        }
    }
}

/// A reference is remote exactly when it starts with `http://` or
/// `https://`, in these letters.
pub open spec fn is_remote_reference(reference: Seq<char>) -> bool {
    "http://"@.is_prefix_of(reference) || "https://"@.is_prefix_of(reference)
}

/// What a reference is classified as: remote by its prefix, else local. The
/// text is kept as it is.
pub open spec fn classification(reference: Seq<char>) -> UploadReferenceView {
    if is_remote_reference(reference) {
        UploadReferenceView::RemoteURL(reference)
    } else {
        UploadReferenceView::LocalPath(reference)
    }
}

/// Classifies `reference` as a remote URL or a local path.
pub fn classify(reference: &str) -> (class: UploadReference)
    ensures
        class@ == classification(reference@),
{
    if has_prefix(reference, "https://") || has_prefix(reference, "http://") {
        UploadReference::RemoteURL(String::from_str(reference))
    } else {
        UploadReference::LocalPath(String::from_str(reference))
    }
}

/// Classifying is idempotent: the text that a classification carries is
/// classified as the classification itself. So a reference gets the same
/// variant however often it is classified, and the variant is `RemoteURL`
/// exactly for the two prefixes.
pub proof fn classification_is_idempotent(reference: Seq<char>)
    ensures
        classification(reference).text() == reference,
        classification(classification(reference).text()) == classification(reference),
        classification(reference) is RemoteURL <==> is_remote_reference(reference),
        classification(reference) is LocalPath <==> !is_remote_reference(reference),
{
}

/// Where a local reference is looked for: the path itself where it is
/// absolute, else the path joined to the current directory. Nothing is
/// resolved against the file system.
pub open spec fn resolved_path(current_dir: Seq<char>, path: Seq<char>) -> Seq<char> {
    if is_absolute_path(path) {
        path
    } else {
        joined_path(current_dir, path)
    }
}

/// Makes the local reference `path` absolute against `current_dir`.
pub fn resolve_local_path(current_dir: &str, path: &str) -> (resolved: String)
    ensures
        resolved@ == resolved_path(current_dir@, path@),
{
    if path_is_absolute(path) {
        String::from_str(path)
    } else {
        path_join(current_dir, path)
    }
}

} // verus!
