use vstd::prelude::*;
use crate::errors::{diagnostic_of, ShareError};
use crate::http::spec_is_success;
use crate::input::{resolve_input, FileHandle};
use crate::json::data_url_of;
use crate::shorten::{parse_shorten_response, shorten_request_url, spec_shorten_endpoint_prefix};
use crate::text::trim_seq;
use crate::upload::{
    parse_upload_response, spec_missing_link_detail, spec_upload_endpoint, upload_endpoint,
};

verus! {

/// The sequential stages of one pipeline invocation. A run starts at
/// `ValidatingInput` and moves forward only; `Done` and the absorbing
/// `Failed` stage are terminal.
pub enum PipelineState {
    /// Waiting for the verdict on the supplied path.
    ValidatingInput { path: String },
    /// The upload request is out; waiting for the upload response.
    Uploading,
    /// The shortening request is out; waiting for its response.
    Shortening { download_url: String },
    /// The short link has been obtained and reported.
    Done { short_url: String },
    /// A stage failed; the run is over.
    Failed { error: ShareError },
}

/// What the surrounding program observed, handed back to the pipeline as a
/// plain value: the file-system verdict, or the outcome of one HTTP request.
pub enum PipelineEvent {
    /// The path was probed and, where it denotes a regular file, read fully.
    FileChecked { is_regular_file: bool, contents: Vec<u8> },
    /// The upload endpoint answered with a status and a body.
    UploadResponse { status: u16, body: String },
    /// The upload request failed below HTTP (DNS, connection, TLS, timeout).
    UploadTransportFailed { message: String },
    /// The shortening endpoint answered with a status and a body.
    ShortenResponse { status: u16, body: String },
    /// The shortening request failed below HTTP.
    ShortenTransportFailed { message: String },
}

/// What the surrounding program must do next.
pub enum PipelineAction {
    /// Send the multipart upload — one part named `file`, carrying the
    /// handle's base name and bytes — to `target`.
    SendUpload { handle: FileHandle, target: String },
    /// Send the shortening GET request to `target`.
    SendShorten { target: String },
    /// Print exactly this line — the short link — and exit with status zero.
    ReportSuccess { line: String },
    /// Print this diagnostic to the error stream and exit non-zero.
    ReportFailure { diagnostic: String },
}

/// Which event each state awaits. `Done` and `Failed` await none: once a
/// run has failed, nothing more is sent or received.
pub open spec fn expects(s: PipelineState, e: PipelineEvent) -> bool {
    match (s, e) {
        (PipelineState::ValidatingInput { .. }, PipelineEvent::FileChecked { .. }) => true,
        (PipelineState::Uploading, PipelineEvent::UploadResponse { .. }) => true,
        (PipelineState::Uploading, PipelineEvent::UploadTransportFailed { .. }) => true,
        (PipelineState::Shortening { .. }, PipelineEvent::ShortenResponse { .. }) => true,
        (PipelineState::Shortening { .. }, PipelineEvent::ShortenTransportFailed { .. }) => true,
        _ => false,
    }
}

/// How far along the pipeline a state lies.
pub open spec fn rank(s: PipelineState) -> int {
    match s {
        PipelineState::ValidatingInput { .. } => 0,
        PipelineState::Uploading => 1,
        PipelineState::Shortening { .. } => 2,
        PipelineState::Done { .. } => 3,
        PipelineState::Failed { .. } => 4,
    }
}

/// The step failed: the next state records an error of the expected shape,
/// and the action reports that error's diagnostic line.
pub open spec fn fails_with(
    n: PipelineState,
    a: PipelineAction,
    expected: spec_fn(ShareError) -> bool,
) -> bool {
    match n {
        PipelineState::Failed { error } => expected(error) && match a {
            PipelineAction::ReportFailure { diagnostic } => diagnostic@ == diagnostic_of(error),
            _ => false,
        },
        _ => false,
    }
}

/// The full transition relation of the pipeline: for each awaited state and
/// event, the next state and the demanded action, pinned down over the
/// views of their fields. A pair that no state awaits is related to
/// nothing.
pub open spec fn step_rel(
    s: PipelineState,
    e: PipelineEvent,
    n: PipelineState,
    a: PipelineAction,
) -> bool {
    match (s, e) {
        (
            PipelineState::ValidatingInput { path },
            PipelineEvent::FileChecked { is_regular_file, contents },
        ) => if is_regular_file {
            (n is Uploading) && match a {
                PipelineAction::SendUpload { handle, target } => handle.wf() && handle.path@
                    == path@ && handle.contents@ == contents@ && target@ == spec_upload_endpoint(),
                _ => false,
            }
        } else {
            fails_with(
                n,
                a,
                (|err: ShareError| err matches ShareError::InvalidInput { path: p } && p@
                    == path@),
            )
        },
        (PipelineState::Uploading, PipelineEvent::UploadResponse { status, body }) => if spec_is_success(
            status,
        ) {
            match data_url_of(body@) {
                Some(url) => match (n, a) {
                    (
                        PipelineState::Shortening { download_url },
                        PipelineAction::SendShorten { target },
                    ) => download_url@ == url && target@ == spec_shorten_endpoint_prefix() + url,
                    _ => false,
                },
                None => fails_with(
                    n,
                    a,
                    (|err: ShareError| err matches ShareError::UploadFailed {
                        status: st,
                        detail,
                    } && (st == status && detail@ == spec_missing_link_detail())),
                ),
            }
        } else {
            fails_with(
                n,
                a,
                (|err: ShareError| err matches ShareError::UploadFailed { status: st, detail } && (
                st == status && detail@ == body@)),
            )
        },
        (PipelineState::Uploading, PipelineEvent::UploadTransportFailed { message }) => fails_with(
            n,
            a,
            (|err: ShareError| err matches ShareError::NetworkError { message: m } && m@
                == message@),
        ),
        (
            PipelineState::Shortening { .. },
            PipelineEvent::ShortenResponse { status, body },
        ) => if spec_is_success(status) {
            match (n, a) {
                (PipelineState::Done { short_url }, PipelineAction::ReportSuccess { line }) => {
                    short_url@ == trim_seq(body@) && line@ == trim_seq(body@)
                },
                _ => false,
            }
        } else {
            fails_with(
                n,
                a,
                (|err: ShareError| err matches ShareError::ShortenFailed { status: st } && st
                    == status),
            )
        },
        (
            PipelineState::Shortening { .. },
            PipelineEvent::ShortenTransportFailed { message },
        ) => fails_with(
            n,
            a,
            (|err: ShareError| err matches ShareError::NetworkError { message: m } && m@
                == message@),
        ),
        _ => false,
    }
}

/// One step of the pipeline: from the current state and the observed event
/// to the next state and the next thing to do. This is the whole sequencing
/// logic of the program; the surrounding binary only performs the actions
/// and hands the outcomes back.
pub fn step(state: PipelineState, event: PipelineEvent) -> (r: (PipelineState, PipelineAction))
    requires
        expects(state, event),
    ensures
        step_rel(state, event, r.0, r.1),
{
    match (state, event) {
        (
            PipelineState::ValidatingInput { path },
            PipelineEvent::FileChecked { is_regular_file, contents },
        ) => match resolve_input(path, is_regular_file, contents) {
            Ok(handle) => {
                let target = upload_endpoint();
                (PipelineState::Uploading, PipelineAction::SendUpload { handle, target })
            },
            Err(error) => {
                let diagnostic = error.diagnostic();
                (PipelineState::Failed { error }, PipelineAction::ReportFailure { diagnostic })
            },
        },
        (
            PipelineState::Uploading,
            PipelineEvent::UploadResponse { status, body },
        ) => match parse_upload_response(status, body) {
            Ok(upload) => {
                let target = shorten_request_url(upload.download_url.as_str());
                (
                    PipelineState::Shortening { download_url: upload.download_url },
                    PipelineAction::SendShorten { target },
                )
            },
            Err(error) => {
                let diagnostic = error.diagnostic();
                (PipelineState::Failed { error }, PipelineAction::ReportFailure { diagnostic })
            },
        },
        (PipelineState::Uploading, PipelineEvent::UploadTransportFailed { message }) => {
            let error = ShareError::NetworkError { message };
            let diagnostic = error.diagnostic();
            (PipelineState::Failed { error }, PipelineAction::ReportFailure { diagnostic })
        },
        (
            PipelineState::Shortening { .. },
            PipelineEvent::ShortenResponse { status, body },
        ) => match parse_shorten_response(status, body.as_str()) {
            Ok(shorten) => {
                let line = shorten.short_url.clone();
                (
                    PipelineState::Done { short_url: shorten.short_url },
                    PipelineAction::ReportSuccess { line },
                )
            },
            Err(error) => {
                let diagnostic = error.diagnostic();
                (PipelineState::Failed { error }, PipelineAction::ReportFailure { diagnostic })
            },
        },
        (PipelineState::Shortening { .. }, PipelineEvent::ShortenTransportFailed { message }) => {
            let error = ShareError::NetworkError { message };
            let diagnostic = error.diagnostic();
            (PipelineState::Failed { error }, PipelineAction::ReportFailure { diagnostic })
        },
        _ => unreached(),
    }
}

/// Law: every transition moves the pipeline strictly forward; no run
/// returns to an earlier stage.
pub proof fn lemma_step_advances(
    s: PipelineState,
    e: PipelineEvent,
    n: PipelineState,
    a: PipelineAction,
)
    requires
        step_rel(s, e, n, a),
    ensures
        rank(n) > rank(s),
{
}

/// Law: `Done` and `Failed` are terminal — no event is awaited there. Once
/// a run has failed, nothing more is ever sent: every later network action
/// would need a further transition, and none exists.
pub proof fn lemma_terminal_states_absorb(s: PipelineState, e: PipelineEvent)
    requires
        s is Done || s is Failed,
    ensures
        !expects(s, e),
{
}

/// Law: the upload request is sent only from input validation, and only
/// when the path denoted a regular file; a rejected path sends nothing.
pub proof fn lemma_upload_needs_valid_file(
    s: PipelineState,
    e: PipelineEvent,
    n: PipelineState,
    a: PipelineAction,
)
    requires
        step_rel(s, e, n, a),
        a is SendUpload,
    ensures
        s is ValidatingInput,
        e matches PipelineEvent::FileChecked { is_regular_file, .. } && is_regular_file,
{
}

/// Law: a rejected path fails the run at once with `InvalidInput`, and the
/// only demanded action is the failure report — no network request.
pub proof fn lemma_invalid_input_sends_nothing(
    s: PipelineState,
    e: PipelineEvent,
    n: PipelineState,
    a: PipelineAction,
)
    requires
        step_rel(s, e, n, a),
        e matches PipelineEvent::FileChecked { is_regular_file, .. } && !is_regular_file,
    ensures
        n matches PipelineState::Failed { error } && error is InvalidInput,
        a is ReportFailure,
{
}

/// Law: the shortening request is sent only after an upload response in
/// the success range whose body yields a download link, and its target is
/// exactly the shortening endpoint with that link appended. In particular,
/// a failed upload never leads to a shortening request.
pub proof fn lemma_shorten_needs_uploaded_link(
    s: PipelineState,
    e: PipelineEvent,
    n: PipelineState,
    a: PipelineAction,
)
    requires
        step_rel(s, e, n, a),
        a is SendShorten,
    ensures
        s is Uploading,
        e matches PipelineEvent::UploadResponse { status, body } && (spec_is_success(status)
            && data_url_of(body@) is Some),
        match (e, a) {
            (
                PipelineEvent::UploadResponse { status, body },
                PipelineAction::SendShorten { target },
            ) => target@ == spec_shorten_endpoint_prefix() + data_url_of(body@)->0,
            _ => false,
        },
{
}

/// Law: success is reported exactly when the run reaches `Done`, and the
/// reported line is the short link the final state holds — never a partial
/// result from an earlier stage.
pub proof fn lemma_success_line_is_short_link(
    s: PipelineState,
    e: PipelineEvent,
    n: PipelineState,
    a: PipelineAction,
)
    requires
        step_rel(s, e, n, a),
    ensures
        (n is Done) <==> (a is ReportSuccess),
        match (n, a) {
            (PipelineState::Done { short_url }, PipelineAction::ReportSuccess { line }) => line@
                == short_url@,
            _ => !(n is Done),
        },
{
}

/// Law: a failure report is demanded exactly when the run enters `Failed`,
/// and it carries the diagnostic line of the recorded error.
pub proof fn lemma_failure_reported(
    s: PipelineState,
    e: PipelineEvent,
    n: PipelineState,
    a: PipelineAction,
)
    requires
        step_rel(s, e, n, a),
    ensures
        (n is Failed) <==> (a is ReportFailure),
        match (n, a) {
            (PipelineState::Failed { error }, PipelineAction::ReportFailure { diagnostic }) => {
                diagnostic@ == diagnostic_of(error)
            },
            _ => !(n is Failed),
        },
{
}

} // verus!
