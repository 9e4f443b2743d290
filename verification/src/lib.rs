//! Batch uploads of images to a Chevereto image host, as verified decisions.
//!
//! The crate holds every rule of the uploader: how a reference is told apart
//! as a local path or a remote URL, which request is built for it, how a reply
//! of the host becomes a success or a failure, and how the results of a batch
//! are gathered and reported. It performs no input or output itself. A caller
//! drives a [`chevereto::UploadState`] by carrying out the
//! [`chevereto::UploadAction`] it is given and handing back what happened as a
//! [`chevereto::UploadEvent`], until the action is `Finish`.

pub mod batch;
pub mod chevereto;
pub mod common;
pub mod endpoint;
pub mod error;
pub mod paths;
pub mod reference;
mod text;
pub mod urls;
