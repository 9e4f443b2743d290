//! The endpoint of a batch: where uploads are posted to, and with which key.

use crate::error::UploadError;
use crate::text::concat2;
use crate::urls::{
    byte_len, lemma_ascii_byte_len, params_view, parse_url_with_params, parsed_url_with_params,
    MAX_URL_INPUT_BYTES,
};
use vstd::prelude::*;

verus! {

/// The query parameters that every request to the host carries: the API key,
/// and the wish for a JSON reply.
pub open spec fn endpoint_params(key: Seq<char>) -> Seq<(Seq<char>, Seq<char>)> {
    seq![("key"@, key), ("format"@, "json"@)]
}

/// The URL that uploads are posted to: `url` with [`endpoint_params`] added to
/// its query. There is none where `url` is not an absolute URL, or where `url`
/// or `key` is longer than [`MAX_URL_INPUT_BYTES`].
pub open spec fn endpoint_upload_url(url: Seq<char>, key: Seq<char>) -> Option<Seq<char>> {
    if byte_len(url) <= MAX_URL_INPUT_BYTES && byte_len(key) <= MAX_URL_INPUT_BYTES {
        parsed_url_with_params(url, endpoint_params(key))
    } else {
        None
    }
}

/// The message of the failure to make an endpoint of `url`.
pub open spec fn endpoint_error_message(url: Seq<char>, key: Seq<char>) -> Seq<char> {
    if byte_len(url) <= MAX_URL_INPUT_BYTES && byte_len(key) <= MAX_URL_INPUT_BYTES {
        "url parse error: "@ + url
    } else {
        "the upload url or the key is too long"@
    }
}

/// Where and how to upload: the host's upload URL and the API key. Made once
/// for a batch and only read afterwards.
#[derive(Debug)]
pub struct EndpointConfig {
    url: String,
    key: String,
    upload_url: String,
}

/// An [`EndpointConfig`] in contracts.
pub struct EndpointConfigView {
    /// The host's upload URL as it was given.
    pub url: Seq<char>,
    /// The API key.
    pub key: Seq<char>,
    /// The URL that uploads are posted to.
    pub upload_url: Seq<char>,
}

impl View for EndpointConfig {
    type V = EndpointConfigView;

    closed spec fn view(&self) -> EndpointConfigView {
        EndpointConfigView { url: self.url@, key: self.key@, upload_url: self.upload_url@ }
    }
}

impl EndpointConfig {
    #[verifier::type_invariant]
    spec fn consistent(&self) -> bool {
        endpoint_upload_url(self.url@, self.key@) == Some(self.upload_url@)
    }

    /// The endpoint for the host's upload URL `url` and the API key `key`.
    ///
    /// Fails where `url` is not an absolute URL, and where `url` or `key` is
    /// too long.
    pub fn new(url: &str, key: &str) -> (made: Result<EndpointConfig, UploadError>)
        ensures
            match made {
                Ok(config) => {
                    &&& config@.url == url@
                    &&& config@.key == key@
                    &&& endpoint_upload_url(url@, key@) == Some(config@.upload_url)
                },
                Err(error) => {
                    &&& endpoint_upload_url(url@, key@) is None
                    &&& error@ == endpoint_error_message(url@, key@)
                },
            },
    {
        if url.as_bytes().len() > MAX_URL_INPUT_BYTES || key.as_bytes().len()
            > MAX_URL_INPUT_BYTES {
            return Err(UploadError::new("the upload url or the key is too long"));
        }
        let mut params: Vec<(String, String)> = Vec::new();
        params.push((String::from_str("key"), String::from_str(key)));
        params.push((String::from_str("format"), String::from_str("json")));
        proof {
            reveal_strlit("key");
            reveal_strlit("format");
            reveal_strlit("json");
            lemma_ascii_byte_len("key"@);
            lemma_ascii_byte_len("format"@);
            lemma_ascii_byte_len("json"@);
            assert(params_view(params@) =~= endpoint_params(key@));
        }
        match parse_url_with_params(url, &params) {
            Ok(upload_url) => Ok(
                EndpointConfig {
                    url: String::from_str(url),
                    key: String::from_str(key),
                    upload_url,
                },
            ),
            Err(_) => Err(UploadError::new(concat2("url parse error: ", url).as_str())),
        }
    }

    /// The host's upload URL as it was given.
    pub fn url(&self) -> (url: &str)
        ensures
            url@ == self@.url,
    {
        self.url.as_str()
    }

    /// The API key.
    pub fn key(&self) -> (key: &str)
        ensures
            key@ == self@.key,
    {
        self.key.as_str()
    }

    /// The URL that uploads are posted to: the one that the host's upload URL
    /// and the key give.
    pub fn request_url(&self) -> (url: &str)
        ensures
            url@ == self@.upload_url,
            endpoint_upload_url(self@.url, self@.key) == Some(url@),
    {
        proof {
            use_type_invariant(self);
        }
        self.upload_url.as_str()
    }
}

} // verus!
