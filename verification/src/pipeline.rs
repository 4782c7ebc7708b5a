//! The request pipeline: decode, validate, fetch, render, respond.
//!
//! The pipeline is a state machine. The caller performs the fetch and the
//! render that an action asks for and reports the outcome as the next event.

use crate::decoder::{decode_base64_url, decode_outcome};
use crate::error::{Failure, RenderError};
use crate::validator::{url_parsing, validate_url, ValidatedUrl};
use vstd::prelude::*;
use vstd::string::*;
use vstd::utf8::*;

verus! {

/// The status of a successful response.
pub const STATUS_OK: u16 = 200;

/// The status of every failed request, whatever the kind of failure.
pub const STATUS_BAD_REQUEST: u16 = 400;

/// The query parameters of a render request.
#[derive(Debug, Clone, PartialEq, Eq)]
pub struct RenderParams {
    /// The address of the page, base64url-encoded.
    pub url: String,
    /// The target width.
    pub w: u32,
    /// The target height.
    pub h: u32,
}

/// A status code and a body.
#[derive(Debug, Clone, PartialEq, Eq)]
pub struct HttpResponse {
    pub status: u16,
    pub body: Vec<u8>,
}

/// What the renderer is configured with.
#[derive(Debug, Clone, PartialEq, Eq)]
pub struct RenderConfig {
    pub stylesheets: Vec<String>,
    pub base_url: Option<String>,
}

/// Where a render task stands. The stages are passed in this order.
#[derive(Debug, Clone, Copy, PartialEq, Eq, Structural)]
pub enum Stage {
    /// Validated, nothing asked for yet.
    Ready,
    /// The page is being fetched.
    Fetching,
    /// The page is being rendered.
    Rendering,
    /// The outcome has been handed out.
    Finished,
}

impl Stage {
    /// The position of a stage in the sequence.
    pub open spec fn rank(self) -> nat {
        match self {
            Stage::Ready => 0,
            Stage::Fetching => 1,
            Stage::Rendering => 2,
            Stage::Finished => 3,
        }
    }
}

/// A validated request on its way through fetch and render.
#[derive(Debug, PartialEq, Eq)]
pub struct RenderTask {
    pub stage: Stage,
    pub url: ValidatedUrl,
    pub width: u32,
    pub height: u32,
}

/// What the caller reports to the task.
#[derive(Debug, PartialEq, Eq)]
pub enum RenderEvent {
    /// The task is to begin.
    Start,
    /// The fetch ended: the body text of the response, or the cause of failure.
    Fetched(Result<String, String>),
    /// The renderer ended: the image bytes, or the cause of failure.
    Rendered(Result<Vec<u8>, String>),
}

/// What the task asks the caller to do next.
#[derive(Debug, PartialEq, Eq)]
pub enum RenderAction {
    /// Perform a blocking GET on `target` and report `Fetched`.
    Fetch { target: String },
    /// Render `html` off the request's own thread and report `Rendered`.
    Render { html: String, config: RenderConfig, width: u32, height: u32 },
    /// The task has ended with this outcome.
    Finish(Result<Vec<u8>, RenderError>),
    /// The event was not the one the stage waits for; nothing is to be done.
    Ignore,
}

/// The result of admitting a request.
#[derive(Debug, PartialEq, Eq)]
pub enum Admission {
    /// The parameter holds an absolute URL; the task is ready to start.
    Accepted(RenderTask),
    /// The parameter was refused; this is the response.
    Rejected(HttpResponse),
}

/// The stage after `event` arrives in `stage`. An event that the stage does
/// not wait for leaves it unchanged.
pub open spec fn next_stage(stage: Stage, event: RenderEvent) -> Stage {
    match (stage, event) {
        (Stage::Ready, RenderEvent::Start) => Stage::Fetching,
        (Stage::Fetching, RenderEvent::Fetched(Ok(_))) => Stage::Rendering,
        (Stage::Fetching, RenderEvent::Fetched(Err(_))) => Stage::Finished,
        (Stage::Rendering, RenderEvent::Rendered(_)) => Stage::Finished,
        _ => stage,
    }
}

/// Whether `action` is what `task` asks for when `event` arrives.
pub open spec fn action_is(task: RenderTask, event: RenderEvent, action: RenderAction) -> bool {
    match (task.stage, event) {
        (Stage::Ready, RenderEvent::Start) => {
            action matches RenderAction::Fetch { target } && target@ == task.url@
        },
        (Stage::Fetching, RenderEvent::Fetched(Ok(body))) => {
            action matches RenderAction::Render { html, config, width, height }
                && html@ == body@
                && config.stylesheets@.len() == 0
                && width == task.width
                && height == task.height
                && (config.base_url matches Some(base) && base@ == task.url@)
        },
        (Stage::Fetching, RenderEvent::Fetched(Err(cause))) => {
            action matches RenderAction::Finish(Err(error)) && error@ == Failure::FetchFailed(
                cause@,
            )
        },
        (Stage::Rendering, RenderEvent::Rendered(Ok(image))) => {
            action matches RenderAction::Finish(Ok(bytes)) && bytes@ == image@
        },
        (Stage::Rendering, RenderEvent::Rendered(Err(cause))) => {
            action matches RenderAction::Finish(Err(error)) && error@ == Failure::RenderFailed(
                cause@,
            )
        },
        _ => action is Ignore,
    }
}

/// The address that a request parameter names: the serialization of the URL
/// it decodes to, or the kind of failure.
pub open spec fn target_of(encoded: Seq<char>) -> Result<Seq<char>, Failure> {
    match decode_outcome(encoded) {
        Err(failure) => Err(failure),
        Ok(text) => match url_parsing(text) {
            Some(href) => Ok(href),
            None => Err(Failure::InvalidUrl),
        },
    }
}

/// Whether `response` is the response to `outcome`: 200 with the image bytes,
/// or 400 with the failure's message as UTF-8.
pub open spec fn response_is(response: HttpResponse, outcome: Result<Seq<u8>, Failure>) -> bool {
    match outcome {
        Ok(bytes) => response.status == STATUS_OK && response.body@ == bytes,
        Err(failure) => response.status == STATUS_BAD_REQUEST && response.body@ == encode_utf8(
            failure.message(),
        ),
    }
}

/// The liveness probe: always 200 with the body `OK`.
pub fn health_check() -> (response: HttpResponse)
    ensures
        response.status == STATUS_OK,
        response.body@ == encode_utf8("OK"@),
{
    HttpResponse { status: STATUS_OK, body: "OK".as_bytes_vec() }
}

/// Maps the outcome of a request to its response. Success is 200 with the
/// image bytes untouched; every failure is 400 with its message as the body.
pub fn respond(outcome: Result<Vec<u8>, RenderError>) -> (response: HttpResponse)
    ensures
        match outcome {
            Ok(bytes) => response_is(response, Ok(bytes@)),
            Err(error) => response_is(response, Err(error@)),
        },
{
    match outcome {
        Ok(bytes) => HttpResponse { status: STATUS_OK, body: bytes },
        Err(error) => {
            let message = error.message();
            HttpResponse { status: STATUS_BAD_REQUEST, body: message.as_str().as_bytes_vec() }
        },
    }
}

/// Admits a render request: decodes the `url` parameter and validates it.
///
/// A parameter that names an absolute URL gives a task in stage `Ready` that
/// carries the URL and the requested dimensions. Any other parameter is
/// answered at once with 400 and the failure's message.
pub fn render_url(params: &RenderParams) -> (r: Admission)
    ensures
        match target_of(params.url@) {
            Ok(href) => r matches Admission::Accepted(task)
                && task.stage == Stage::Ready
                && task.url@ == href
                && task.width == params.w
                && task.height == params.h,
            Err(failure) => r matches Admission::Rejected(response) && response_is(
                response,
                Err(failure),
            ),
        },
{
    let decoded = match decode_base64_url(params.url.as_str()) {
        Ok(decoded) => decoded,
        Err(error) => {
            return Admission::Rejected(respond(Err(error)));
        },
    };
    match validate_url(decoded.as_str()) {
        Ok(url) => Admission::Accepted(
            RenderTask { stage: Stage::Ready, url, width: params.w, height: params.h },
        ),
        Err(error) => Admission::Rejected(respond(Err(error))),
    }
}

/// Advances a render task by one event.
///
/// `Start` asks for the page to be fetched from the task's URL. A fetched
/// body asks for it to be rendered with the URL as base and no stylesheets; a
/// failed fetch ends the task with `FetchFailed`. Rendered bytes end the task
/// with those bytes; a failed render ends it with `RenderFailed`. The URL and
/// the dimensions never change.
pub fn render_html(task: RenderTask, event: RenderEvent) -> (r: (RenderTask, RenderAction))
    ensures
        r.0.stage == next_stage(task.stage, event),
        r.0.url@ == task.url@,
        r.0.width == task.width,
        r.0.height == task.height,
        action_is(task, event, r.1),
{
    let stage = task.stage;
    match (stage, event) {
        (Stage::Ready, RenderEvent::Start) => {
            let target = task.url.as_str().to_owned();
            (
                RenderTask {
                    stage: Stage::Fetching,
                    url: task.url,
                    width: task.width,
                    height: task.height,
                },
                RenderAction::Fetch { target },
            )
        },
        (Stage::Fetching, RenderEvent::Fetched(Ok(html))) => {
            let config = RenderConfig {
                stylesheets: Vec::new(),
                base_url: Some(task.url.as_str().to_owned()),
            };
            let width = task.width;
            let height = task.height;
            (
                RenderTask { stage: Stage::Rendering, url: task.url, width, height },
                RenderAction::Render { html, config, width, height },
            )
        },
        (Stage::Fetching, RenderEvent::Fetched(Err(cause))) => (
            RenderTask {
                stage: Stage::Finished,
                url: task.url,
                width: task.width,
                height: task.height,
            },
            RenderAction::Finish(Err(RenderError::FetchFailed(cause))),
        ),
        (Stage::Rendering, RenderEvent::Rendered(Ok(image))) => (
            RenderTask {
                stage: Stage::Finished,
                url: task.url,
                width: task.width,
                height: task.height,
            },
            RenderAction::Finish(Ok(image)),
        ),
        (Stage::Rendering, RenderEvent::Rendered(Err(cause))) => (
            RenderTask {
                stage: Stage::Finished,
                url: task.url,
                width: task.width,
                height: task.height,
            },
            RenderAction::Finish(Err(RenderError::RenderFailed(cause))),
        ),
        (_, _) => (task, RenderAction::Ignore),
    }
}

/// The pipeline is strictly sequential: no event moves a task to an earlier
/// stage, and a finished task stays finished.
pub proof fn lemma_stage_never_regresses(stage: Stage, event: RenderEvent)
    ensures
        next_stage(stage, event).rank() >= stage.rank(),
        stage == Stage::Finished ==> next_stage(stage, event) == Stage::Finished,
{
}

/// A task that receives the events it waits for, whatever the fetch and the
/// renderer gave, is finished after the third one, or earlier.
pub proof fn lemma_expected_events_finish(
    fetched: Result<String, String>,
    rendered: Result<Vec<u8>, String>,
)
    ensures
        next_stage(Stage::Ready, RenderEvent::Start) == Stage::Fetching,
        fetched is Err ==> next_stage(Stage::Fetching, RenderEvent::Fetched(fetched))
            == Stage::Finished,
        next_stage(
            next_stage(Stage::Fetching, RenderEvent::Fetched(fetched)),
            RenderEvent::Rendered(rendered),
        ) == Stage::Finished,
{
}

/// Every failure, of whatever kind, is answered with status 400, and every
/// success with status 200.
pub proof fn lemma_status_by_outcome(response: HttpResponse, outcome: Result<Seq<u8>, Failure>)
    requires
        response_is(response, outcome),
    ensures
        response.status == (if outcome is Ok {
            STATUS_OK
        } else {
            STATUS_BAD_REQUEST
        }),
{
}

} // verus!
