//! The client of a Chevereto image host: the reply's data, the requests, and
//! the decisions of one upload.

use crate::common::UploadResponse;
use crate::endpoint::{endpoint_error_message, endpoint_upload_url, EndpointConfig};
use crate::error::UploadError;
use crate::paths::{file_name_of, path_file_name};
use crate::reference::{
    classify, is_remote_reference, resolve_local_path, resolved_path, UploadReference,
};
use crate::text::{concat2, concat3};
use crate::urls::{
    byte_len, lemma_ascii_byte_len, params_view, parse_url, parse_url_with_params, parsed_url,
    parsed_url_with_params, MAX_URL_INPUT_BYTES,
};
use vstd::prelude::*;

verus! {

/// A JSON value of the `serde_json` crate. The reply carries some fields whose
/// shape the host does not fix; they are kept as they came and never looked
/// into.
#[verifier::external_type_specification]
#[verifier::external_body]
pub struct ExValue(serde_json::Value);

/// `clone` of a `serde_json::Value`, which the derived `clone` of [`Image`]
/// calls. Nothing is claimed of the copy.
pub assume_specification[ <serde_json::Value as Clone>::clone ](
    value: &serde_json::Value,
) -> (copy: serde_json::Value)
;

/// The reply of the host to an upload it accepted.
#[derive(Default, Debug, Clone, PartialEq)]
pub struct CheveretoUploadResponse {
    pub status_code: u16,
    pub success: Success,
    pub image: Image,
    pub status_txt: String,
}

/// The host's word on a success.
#[derive(Default, Debug, Clone, PartialEq)]
pub struct Success {
    pub message: String,
    pub code: u16,
}

/// What the host tells of the stored image. Only `url` is relied on.
#[derive(Default, Debug, Clone, PartialEq)]
pub struct Image {
    pub name: String,
    pub extension: String,
    pub size: String,
    pub width: String,
    pub height: String,
    pub date: String,
    pub date_gmt: String,
    pub title: String,
    pub description: serde_json::Value,
    pub nsfw: String,
    pub storage_mode: String,
    pub md5: String,
    pub source_md5: serde_json::Value,
    pub original_filename: String,
    pub original_exifdata: serde_json::Value,
    pub views: String,
    pub category_id: serde_json::Value,
    pub chain: String,
    pub thumb_size: String,
    pub medium_size: String,
    pub expiration_date_gmt: serde_json::Value,
    pub likes: String,
    pub is_animated: String,
    pub is_approved: String,
    pub file: File,
    pub id_encoded: String,
    pub filename: String,
    pub mime: String,
    pub url: String,
    pub url_viewer: String,
    pub url_short: String,
    pub image: Image2,
    pub thumb: Thumb,
    pub medium: Medium,
    pub size_formatted: String,
    pub display_url: String,
    pub display_width: String,
    pub display_height: i64,
    pub views_label: String,
    pub likes_label: String,
    pub how_long_ago: String,
    pub date_fixed_peer: String,
    pub title_truncated: String,
    pub title_truncated_html: String,
    pub is_use_loader: bool,
}

/// The stored file.
#[derive(Default, Debug, Clone, PartialEq)]
pub struct File {
    pub resource: Resource,
}

/// How the stored file is kept.
#[derive(Default, Debug, Clone, PartialEq)]
pub struct Resource {
    pub type_field: String,
}

/// The image in its full size.
#[derive(Default, Debug, Clone, PartialEq)]
pub struct Image2 {
    pub filename: String,
    pub name: String,
    pub mime: String,
    pub extension: String,
    pub url: String,
    pub size: String,
}

/// The image's thumbnail.
#[derive(Default, Debug, Clone, PartialEq)]
pub struct Thumb {
    pub filename: String,
    pub name: String,
    pub mime: String,
    pub extension: String,
    pub url: String,
    pub size: String,
}

/// The image in medium size.
#[derive(Default, Debug, Clone, PartialEq)]
pub struct Medium {
    pub filename: String,
    pub name: String,
    pub mime: String,
    pub extension: String,
    pub url: String,
    pub size: String,
}

impl UploadResponse for CheveretoUploadResponse {
    /// The reply is well formed when `image.url` is an absolute URL.
    open spec fn well_formed(&self) -> bool {
        parsed_url(self.image.url@) is Some
    }

    /// The serialisation of `image.url` as a URL.
    open spec fn file_url(&self) -> Seq<char> {
        parsed_url(self.image.url@)->0
    }

    fn upload_file_url(&self) -> (url: String) {
        match parse_url(self.image.url.as_str()) {
            Ok(url) => url,
            Err(_) => unreached(),
        }
    }
}

/// What the caller of an upload is asked to do next.
#[derive(Debug)]
pub enum UploadAction {
    /// Find out whether `path` names an existing regular file.
    CheckFile { path: String },
    /// POST to `url` with an empty body.
    PostUrl { url: String },
    /// POST to `url` a multipart form of one file part: named `field`, with
    /// the bytes of the file at `path`, under the file name `file_name` if
    /// there is one.
    PostFile { url: String, field: String, path: String, file_name: Option<String> },
    /// Decode the body of the reply as JSON.
    ReadBody,
    /// Nothing more: the upload has ended, with this result.
    Finish(Result<CheveretoUploadResponse, UploadError>),
}

/// What the caller of an upload reports back.
#[derive(Debug)]
pub enum UploadEvent {
    /// Whether the path asked about names an existing regular file.
    FileChecked { is_file: bool },
    /// The form could not be built from the file, for this reason.
    FormFailed { reason: String },
    /// The request did not get a reply, for this reason.
    SendFailed { reason: String },
    /// The host replied with this HTTP status code.
    Status { code: u16 },
    /// The body of the reply, decoded, or the reason why it could not be.
    Body { decoded: Result<CheveretoUploadResponse, String> },
}

/// How far an upload has come.
#[derive(Debug)]
pub enum UploadState {
    /// The caller was asked whether `path` is a file. `url` is where the file
    /// will be posted to.
    CheckingFile { url: String, path: String },
    /// The caller was asked to send the request; `file` is the path of the
    /// file that it carries, if any.
    Sending { file: Option<String> },
    /// The caller was asked to decode the body of the reply.
    Decoding,
    /// The upload has ended.
    Finished,
}

/// An [`UploadAction`] in contracts.
pub enum UploadActionView {
    CheckFile { path: Seq<char> },
    PostUrl { url: Seq<char> },
    PostFile {
        url: Seq<char>,
        field: Seq<char>,
        path: Seq<char>,
        file_name: Option<Seq<char>>,
    },
    ReadBody,
    Finish(Result<CheveretoUploadResponse, Seq<char>>),
}

/// An [`UploadEvent`] in contracts.
pub enum UploadEventView {
    FileChecked { is_file: bool },
    FormFailed { reason: Seq<char> },
    SendFailed { reason: Seq<char> },
    Status { code: u16 },
    Body { decoded: Result<CheveretoUploadResponse, Seq<char>> },
}

/// An [`UploadState`] in contracts.
pub enum UploadStateView {
    CheckingFile { url: Seq<char>, path: Seq<char> },
    Sending { file: Option<Seq<char>> },
    Decoding,
    Finished,
}

/// The result of an upload in contracts: a failure by its message.
pub open spec fn result_view(result: Result<CheveretoUploadResponse, UploadError>) -> Result<
    CheveretoUploadResponse,
    Seq<char>,
> {
    match result {
        Ok(response) => Ok(response),
        Err(error) => Err(error@),
    }
}

impl View for UploadAction {
    type V = UploadActionView;

    open spec fn view(&self) -> UploadActionView {
        match self {
            UploadAction::CheckFile { path } => UploadActionView::CheckFile { path: path@ },
            UploadAction::PostUrl { url } => UploadActionView::PostUrl { url: url@ },
            UploadAction::PostFile { url, field, path, file_name } => UploadActionView::PostFile {
                url: url@,
                field: field@,
                path: path@,
                file_name: match file_name {
                    Some(name) => Some(name@),
                    None => None,
                },
            },
            UploadAction::ReadBody => UploadActionView::ReadBody,
            UploadAction::Finish(result) => UploadActionView::Finish(result_view(*result)),
        }
    }
}

impl View for UploadEvent {
    type V = UploadEventView;

    open spec fn view(&self) -> UploadEventView {
        match self {
            UploadEvent::FileChecked { is_file } => UploadEventView::FileChecked {
                is_file: *is_file,
            },
            UploadEvent::FormFailed { reason } => UploadEventView::FormFailed { reason: reason@ },
            UploadEvent::SendFailed { reason } => UploadEventView::SendFailed { reason: reason@ },
            UploadEvent::Status { code } => UploadEventView::Status { code: *code },
            UploadEvent::Body { decoded } => UploadEventView::Body {
                decoded: match decoded {
                    Ok(response) => Ok(*response),
                    Err(reason) => Err(reason@),
                },
            },
        }
    }
}

impl View for UploadState {
    type V = UploadStateView;

    open spec fn view(&self) -> UploadStateView {
        match self {
            UploadState::CheckingFile { url, path } => UploadStateView::CheckingFile {
                url: url@,
                path: path@,
            },
            UploadState::Sending { file } => UploadStateView::Sending {
                file: match file {
                    Some(path) => Some(path@),
                    None => None,
                },
            },
            UploadState::Decoding => UploadStateView::Decoding,
            UploadState::Finished => UploadStateView::Finished,
        }
    }
}

/// The name of the form's one part, and of the query parameter that carries a
/// remote image's URL.
pub open spec fn source_field() -> Seq<char> {
    "source"@
}

/// The message of every failure by an HTTP status outside 200 to 299.
pub open spec fn http_failure_message() -> Seq<char> {
    "Some errors caused the upload to fail. Please check the chevereto configuration and command parameters."@
}

/// The message of the failure of a local reference that is no file.
pub open spec fn missing_file_message(path: Seq<char>) -> Seq<char> {
    path + " does not exist"@
}

/// The message of the failure to build the form from the file at `path`.
pub open spec fn form_failure_message(path: Seq<char>, reason: Seq<char>) -> Seq<char> {
    path + " "@ + reason
}

/// The message of the failure of a text that is no absolute URL.
pub open spec fn remote_url_error_message(text: Seq<char>) -> Seq<char> {
    "url parse error: "@ + text
}

/// The message of the failure of a reply whose `image.url` is no absolute
/// URL.
pub open spec fn image_url_error_message(url: Seq<char>) -> Seq<char> {
    "the reply names no valid image url: "@ + url
}

/// The message of the failure of an upload that was handed an event it had
/// not asked for.
pub open spec fn out_of_order_message() -> Seq<char> {
    "the upload was handed an event that it did not ask for"@
}

/// An HTTP status code counts as a success from 200 to 299.
pub open spec fn is_success_status(code: u16) -> bool {
    200 <= code <= 299
}

/// The message of the failure of a remote upload whose URLs are longer than
/// [`MAX_URL_INPUT_BYTES`].
pub open spec fn too_long_message() -> Seq<char> {
    "the upload url or the image url is too long"@
}

/// The URL that a remote image is posted to: the endpoint's, with the image's
/// URL added to its query as the parameter `source`, URL-encoded. There is
/// none where `upload_url` is not an absolute URL.
pub open spec fn remote_request_url(upload_url: Seq<char>, image_url: Seq<char>) -> Option<
    Seq<char>,
> {
    parsed_url_with_params(upload_url, seq![(source_field(), image_url)])
}

/// An upload that has ended with the failure `message`.
pub open spec fn failed(message: Seq<char>) -> (UploadStateView, UploadActionView) {
    (UploadStateView::Finished, UploadActionView::Finish(Err(message)))
}

/// How the upload of a remote image starts: with the request to the URL that
/// carries the image's URL. It fails at once where one of the two URLs is
/// longer than [`MAX_URL_INPUT_BYTES`], and where `upload_url` is not an
/// absolute URL.
pub open spec fn remote_upload(upload_url: Seq<char>, image_url: Seq<char>) -> (
    UploadStateView,
    UploadActionView,
) {
    if byte_len(upload_url) > MAX_URL_INPUT_BYTES || byte_len(image_url) > MAX_URL_INPUT_BYTES {
        failed(too_long_message())
    } else {
        match remote_request_url(upload_url, image_url) {
            Some(url) => (UploadStateView::Sending { file: None }, UploadActionView::PostUrl { url }),
            None => failed(remote_url_error_message(upload_url)),
        }
    }
}

/// How the upload of a local image goes on once it is known whether `path` is
/// a file: with the request, which sends the file under the last component of
/// `path` as its name, or with the failure that names the path.
pub open spec fn local_upload(upload_url: Seq<char>, path: Seq<char>, is_file: bool) -> (
    UploadStateView,
    UploadActionView,
) {
    if is_file {
        (
            UploadStateView::Sending { file: Some(path) },
            UploadActionView::PostFile {
                url: upload_url,
                field: source_field(),
                path,
                file_name: file_name_of(path),
            },
        )
    } else {
        failed(missing_file_message(path))
    }
}

/// How the upload of `image` starts at the endpoint that posts to
/// `upload_url`.
///
/// A remote reference must be an absolute URL; it is sent in its serialised
/// form, as a parameter of the request's URL. A local reference is made
/// absolute against `current_dir`, and the caller is asked whether it is a
/// file.
pub open spec fn upload_start(upload_url: Seq<char>, image: Seq<char>, current_dir: Seq<char>) -> (
    UploadStateView,
    UploadActionView,
) {
    if is_remote_reference(image) {
        match parsed_url(image) {
            Some(image_url) => remote_upload(upload_url, image_url),
            None => failed(remote_url_error_message(image)),
        }
    } else {
        (
            UploadStateView::CheckingFile {
                url: upload_url,
                path: resolved_path(current_dir, image),
            },
            UploadActionView::CheckFile { path: resolved_path(current_dir, image) },
        )
    }
}

/// How an upload goes on after the request was sent: a request that got no
/// reply fails with the reason given, a status outside 200 to 299 fails with
/// the fixed message, and for any other status the body is asked for.
pub open spec fn reply_result(reply: Result<u16, Seq<char>>) -> (
    UploadStateView,
    UploadActionView,
) {
    match reply {
        Ok(code) => if is_success_status(code) {
            (UploadStateView::Decoding, UploadActionView::ReadBody)
        } else {
            failed(http_failure_message())
        },
        Err(reason) => failed(reason),
    }
}

/// What an upload ends with once the body is decoded: the reply, where it is
/// well formed; else a failure.
pub open spec fn body_result(decoded: Result<CheveretoUploadResponse, Seq<char>>) -> Result<
    CheveretoUploadResponse,
    Seq<char>,
> {
    match decoded {
        Ok(response) => if response.well_formed() {
            Ok(response)
        } else {
            Err(image_url_error_message(response.image.url@))
        },
        Err(reason) => Err(reason),
    }
}

/// The next state and action of an upload in `state` that is handed `event`.
/// An event that the state did not ask for ends the upload with a failure.
pub open spec fn upload_step(state: UploadStateView, event: UploadEventView) -> (
    UploadStateView,
    UploadActionView,
) {
    match (state, event) {
        (
            UploadStateView::CheckingFile { url, path },
            UploadEventView::FileChecked { is_file },
        ) => local_upload(url, path, is_file),
        (
            UploadStateView::Sending { file: Some(path) },
            UploadEventView::FormFailed { reason },
        ) => failed(form_failure_message(path, reason)),
        (UploadStateView::Sending { file }, UploadEventView::SendFailed { reason }) => reply_result(
            Err(reason),
        ),
        (UploadStateView::Sending { file }, UploadEventView::Status { code }) => reply_result(
            Ok(code),
        ),
        (UploadStateView::Decoding, UploadEventView::Body { decoded }) => (
            UploadStateView::Finished,
            UploadActionView::Finish(body_result(decoded)),
        ),
        _ => failed(out_of_order_message()),
    }
}

impl UploadStateView {
    /// The most events that an upload in this state still takes.
    pub open spec fn events_left(self) -> nat {
        match self {
            UploadStateView::CheckingFile { .. } => 3,
            UploadStateView::Sending { .. } => 2,
            UploadStateView::Decoding => 1,
            UploadStateView::Finished => 0,
        }
    }

    /// Whether an upload in this state waits for the caller to carry out
    /// `action`.
    pub open spec fn asks_for(self, action: UploadActionView) -> bool {
        match self {
            UploadStateView::CheckingFile { url, path } => action == (UploadActionView::CheckFile {
                path,
            }),
            UploadStateView::Sending { file: Some(path) } => action matches UploadActionView::PostFile {
                path: sent,
                ..
            } && sent == path,
            UploadStateView::Sending { file: None } => action is PostUrl,
            UploadStateView::Decoding => action is ReadBody,
            UploadStateView::Finished => action is Finish,
        }
    }
}

/// Every upload ends: each event brings it nearer to its end, by at least one
/// of at most three steps, and the action that comes with the new state is the
/// one that this state waits for. An upload has ended exactly when its action
/// is `Finish`.
pub proof fn upload_makes_progress(state: UploadStateView, event: UploadEventView)
    ensures
        upload_step(state, event).0.asks_for(upload_step(state, event).1),
        upload_step(state, event).0.events_left() < state.events_left() || upload_step(
            state,
            event,
        ).0 is Finished,
        upload_step(state, event).1 is Finish <==> upload_step(state, event).0 is Finished,
{
}

/// An upload starts in a state that waits for the action it starts with.
pub proof fn upload_starts_consistently(
    upload_url: Seq<char>,
    image: Seq<char>,
    current_dir: Seq<char>,
)
    ensures
        upload_start(upload_url, image, current_dir).0.asks_for(
            upload_start(upload_url, image, current_dir).1,
        ),
{
}

/// A local reference that is no existing file always fails, with a message
/// that begins with the path that was looked for; it never succeeds and
/// nothing is sent for it.
pub proof fn missing_file_always_fails(
    upload_url: Seq<char>,
    image: Seq<char>,
    current_dir: Seq<char>,
)
    requires
        !is_remote_reference(image),
    ensures
        ({
            let path = resolved_path(current_dir, image);
            let asked = upload_start(upload_url, image, current_dir);
            let ended = upload_step(asked.0, UploadEventView::FileChecked { is_file: false });
            &&& asked.1 == UploadActionView::CheckFile { path }
            &&& ended == failed(missing_file_message(path))
            &&& path.is_prefix_of(missing_file_message(path))
        }),
{
}

/// A reply with a status outside 200 to 299 always fails with the fixed
/// message. The body is not asked for, and whatever is handed to the upload
/// afterwards, it does not become a success.
pub proof fn bad_status_always_fails(file: Option<Seq<char>>, code: u16, later: UploadEventView)
    requires
        !is_success_status(code),
    ensures
        ({
            let ended = upload_step(
                UploadStateView::Sending { file },
                UploadEventView::Status { code },
            );
            &&& ended == failed(http_failure_message())
            &&& upload_step(ended.0, later) == failed(out_of_order_message())
        }),
{
}

/// A reply with a status from 200 to 299 whose body decodes to `response`
/// ends as a success exactly where `response` is well formed, and the success
/// is `response` itself, so the URL that it shows is the one that
/// `response.image.url` parses to.
pub proof fn decoded_reply_succeeds(
    file: Option<Seq<char>>,
    code: u16,
    response: CheveretoUploadResponse,
)
    requires
        is_success_status(code),
    ensures
        ({
            let asked = upload_step(
                UploadStateView::Sending { file },
                UploadEventView::Status { code },
            );
            let ended = upload_step(asked.0, UploadEventView::Body { decoded: Ok(response) });
            &&& asked == (UploadStateView::Decoding, UploadActionView::ReadBody)
            &&& response.well_formed() ==> ended == (
                UploadStateView::Finished,
                UploadActionView::Finish(Ok(response)),
            ) && parsed_url(response.image.url@) == Some(response.file_url())
            &&& !response.well_formed() ==> ended == failed(
                image_url_error_message(response.image.url@),
            )
        }),
{
}

/// An upload that has ended with a failure.
fn fail(error: UploadError) -> (next: (UploadState, UploadAction))
    ensures
        (next.0@, next.1@) == failed(error@),
{
    (UploadState::Finished, UploadAction::Finish(Err(error)))
}

/// Starts the upload of the remote image at the URL `image` to the endpoint
/// that posts to `url`.
pub fn upload_remote_image_chevereto(url: &str, image: &str) -> (next: (UploadState, UploadAction))
    ensures
        (next.0@, next.1@) == remote_upload(url@, image@),
{
    if url.as_bytes().len() > MAX_URL_INPUT_BYTES || image.as_bytes().len()
        > MAX_URL_INPUT_BYTES {
        return fail(UploadError::new("the upload url or the image url is too long"));
    }
    let mut params: Vec<(String, String)> = Vec::new();
    params.push((String::from_str("source"), String::from_str(image)));
    proof {
        reveal_strlit("source");
        lemma_ascii_byte_len("source"@);
        assert(params_view(params@) =~= seq![(source_field(), image@)]);
    }
    match parse_url_with_params(url, &params) {
        Ok(request_url) => (
            UploadState::Sending { file: None },
            UploadAction::PostUrl { url: request_url },
        ),
        Err(_) => fail(UploadError::new(concat2("url parse error: ", url).as_str())),
    }
}

/// Goes on with the upload of the local image at `image`, an absolute path,
/// to the endpoint that posts to `url`, once the caller has found out whether
/// `image` is an existing regular file.
pub fn upload_local_image_chevereto(url: &str, image: &str, is_file: bool) -> (next: (
    UploadState,
    UploadAction,
))
    ensures
        (next.0@, next.1@) == local_upload(url@, image@, is_file),
        !is_file ==> next.1@ == UploadActionView::Finish(Err(missing_file_message(image@))),
{
    if !is_file {
        return fail(UploadError::new(concat2(image, " does not exist").as_str()));
    }
    (
        UploadState::Sending { file: Some(String::from_str(image)) },
        UploadAction::PostFile {
            url: String::from_str(url),
            field: String::from_str("source"),
            path: String::from_str(image),
            file_name: path_file_name(image),
        },
    )
}

/// Whether the HTTP status `code` is a success.
pub fn status_is_success(code: u16) -> (success: bool)
    ensures
        success == is_success_status(code),
{
    200 <= code && code <= 299
}

/// Goes on with an upload once its request was sent: `res` is the status code
/// of the reply, or the reason why there was none.
pub fn resp_result(res: Result<u16, String>) -> (next: (UploadState, UploadAction))
    ensures
        (next.0@, next.1@) == reply_result(
            match res {
                Ok(code) => Ok(code),
                Err(reason) => Err(reason@),
            },
        ),
        res matches Ok(code) && !is_success_status(code) ==> next.1@ == UploadActionView::Finish(
            Err(http_failure_message()),
        ),
{
    match res {
        Ok(code) => {
            if !status_is_success(code) {
                return fail(
                    UploadError::new(
                        "Some errors caused the upload to fail. Please check the chevereto configuration and command parameters.",
                    ),
                );
            }
            (UploadState::Decoding, UploadAction::ReadBody)
        },
        Err(reason) => fail(UploadError::new(reason.as_str())),
    }
}

/// Ends an upload once the body of the reply is decoded: `decoded` is the
/// reply, or the reason why the body could not be decoded.
///
/// A reply is a success only where it is well formed, so that its URL can be
/// shown.
pub fn decode_result(decoded: Result<CheveretoUploadResponse, String>) -> (result: Result<
    CheveretoUploadResponse,
    UploadError,
>)
    ensures
        result_view(result) == body_result(
            match decoded {
                Ok(response) => Ok(response),
                Err(reason) => Err(reason@),
            },
        ),
        result matches Ok(response) ==> response.well_formed() && decoded == Ok::<
            CheveretoUploadResponse,
            String,
        >(response),
{
    match decoded {
        Ok(response) => match parse_url(response.image.url.as_str()) {
            Ok(_) => Ok(response),
            Err(_) => Err(
                UploadError::new(
                    concat2("the reply names no valid image url: ", response.image.url.as_str()).as_str(),
                ),
            ),
        },
        Err(reason) => Err(UploadError::new(reason.as_str())),
    }
}

impl EndpointConfig {
    /// Starts the upload of `image`, a reference as the user gave it.
    /// `current_dir` is the directory that a relative path is meant from.
    pub fn begin(&self, image: &str, current_dir: &str) -> (next: (UploadState, UploadAction))
        ensures
            (next.0@, next.1@) == upload_start(self@.upload_url, image@, current_dir@),
    {
        let url: &str = self.request_url();
        match classify(image) {
            UploadReference::RemoteURL(remote) => match parse_url(remote.as_str()) {
                Ok(image_url) => upload_remote_image_chevereto(url, image_url.as_str()),
                Err(_) => fail(
                    UploadError::new(concat2("url parse error: ", remote.as_str()).as_str()),
                ),
            },
            UploadReference::LocalPath(local) => {
                let path: String = resolve_local_path(current_dir, local.as_str());
                (
                    UploadState::CheckingFile { url: String::from_str(url), path: path.clone() },
                    UploadAction::CheckFile { path },
                )
            },
        }
    }
}

/// Starts the upload of `image` to the host whose upload URL is `url_string`,
/// with the API key `key`. `current_dir` is the directory that a relative path
/// is meant from.
///
/// Where no endpoint can be made of `url_string` and `key`, the upload ends at
/// once with that failure.
pub fn upload_image_cheverto(
    url_string: &String,
    key: &String,
    image: &String,
    current_dir: &String,
) -> (next: (UploadState, UploadAction))
    ensures
        (next.0@, next.1@) == match endpoint_upload_url(url_string@, key@) {
            Some(upload_url) => upload_start(upload_url, image@, current_dir@),
            None => failed(endpoint_error_message(url_string@, key@)),
        },
{
    match EndpointConfig::new(url_string.as_str(), key.as_str()) {
        Ok(config) => config.begin(image.as_str(), current_dir.as_str()),
        Err(error) => fail(error),
    }
}

impl UploadState {
    /// Hands `event` to the upload and says what to do next.
    pub fn step(self, event: UploadEvent) -> (next: (UploadState, UploadAction))
        ensures
            (next.0@, next.1@) == upload_step(self@, event@),
    {
        match self {
            UploadState::CheckingFile { url, path } => match event {
                UploadEvent::FileChecked { is_file } => upload_local_image_chevereto(
                    url.as_str(),
                    path.as_str(),
                    is_file,
                ),
                _ => out_of_order(),
            },
            UploadState::Sending { file } => match event {
                UploadEvent::FormFailed { reason } => match file {
                    Some(path) => fail(
                        UploadError::new(concat3(path.as_str(), " ", reason.as_str()).as_str()),
                    ),
                    None => out_of_order(),
                },
                UploadEvent::SendFailed { reason } => resp_result(Err(reason)),
                UploadEvent::Status { code } => resp_result(Ok(code)),
                _ => out_of_order(),
            },
            UploadState::Decoding => match event {
                UploadEvent::Body { decoded } => (
                    UploadState::Finished,
                    UploadAction::Finish(decode_result(decoded)),
                ),
                _ => out_of_order(),
            },
            UploadState::Finished => out_of_order(),
        }
    }
}

/// An upload that has ended because it was handed an event that it had not
/// asked for.
fn out_of_order() -> (next: (UploadState, UploadAction))
    ensures
        (next.0@, next.1@) == failed(out_of_order_message()),
{
    fail(UploadError::new("the upload was handed an event that it did not ask for"))
}

} // verus!
