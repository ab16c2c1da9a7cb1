//! The session orchestrator: a state machine that sequences registration,
//! token exchange and script upload, then starts the inspector relay and
//! preview server together and treats the first abnormal termination of
//! either as the session's terminal error.
//!
//! The caller performs each [`Action`] (a network request, the namespace
//! provisioning, starting the two tasks) and hands the outcome back as the
//! next [`Event`]; [`advance`] holds every decision.

use vstd::prelude::*;

use crate::config::ConfigView;
use crate::config::DeployConfig;
use crate::config::DeployTarget;
use crate::config::TargetView;
use crate::config::exchange_address_spec;
use crate::config::get_exchange_address;
use crate::config::get_initialize_address;
use crate::config::get_inspector_address;
use crate::config::init_address_spec;
use crate::config::inspector_address_spec;
use crate::config::needs_site_namespace;
use crate::config::record_site_namespace;
use crate::config::session_config_spec;
use crate::config::upload_address_spec;
use crate::error::Error;
use crate::error::ErrorView;
use crate::error::TaskSource;
use crate::parse::preview_token_of;
use crate::steps::build_upload_request;
use crate::steps::UploadRequest;
use crate::steps::UploadRequestView;
use crate::steps::exchange_outcome;
use crate::steps::process_exchange_response;
use crate::steps::process_registration_response;
use crate::steps::process_upload_response;
use crate::steps::registration_outcome;
use crate::steps::upload_outcome;

verus! {

/// Where the session stands: the strictly ordered setup phases, the running
/// phase with both tasks started, and the two terminal phases.
#[derive(Debug)]
pub enum SessionState {
    /// Nothing has been sent yet.
    Idle { target: DeployTarget, config: DeployConfig },
    /// The registration request is out.
    Registering { target: DeployTarget, config: DeployConfig },
    /// The exchange request is out; the inspector token is retained.
    Exchanging { target: DeployTarget, config: DeployConfig, ws_token: String },
    /// The site-namespace provisioning is out; the exchange-issued token is
    /// retained for the upload that follows.
    Provisioning {
        target: DeployTarget,
        config: DeployConfig,
        ws_token: String,
        exchange_token: String,
    },
    /// The upload request is out.
    Uploading { ws_token: String },
    /// Both tasks are started; each flag records a clean termination.
    Running { inspector_ended: bool, server_ended: bool },
    /// The session ended with the error carried by the final [`Action::Fail`].
    Failed,
    /// Both tasks terminated cleanly.
    Completed,
}

/// The mathematical shape of a [`SessionState`].
pub enum StateView {
    Idle { target: TargetView, config: ConfigView },
    Registering { target: TargetView, config: ConfigView },
    Exchanging { target: TargetView, config: ConfigView, ws_token: Seq<char> },
    Provisioning {
        target: TargetView,
        config: ConfigView,
        ws_token: Seq<char>,
        exchange_token: Seq<char>,
    },
    Uploading { ws_token: Seq<char> },
    Running { inspector_ended: bool, server_ended: bool },
    Failed,
    Completed,
}

impl View for SessionState {
    type V = StateView;

    open spec fn view(&self) -> StateView {
        match self {
            SessionState::Idle { target, config } => StateView::Idle {
                target: target@,
                config: config@,
            },
            SessionState::Registering { target, config } => StateView::Registering {
                target: target@,
                config: config@,
            },
            SessionState::Exchanging { target, config, ws_token } => StateView::Exchanging {
                target: target@,
                config: config@,
                ws_token: ws_token@,
            },
            SessionState::Provisioning {
                target,
                config,
                ws_token,
                exchange_token,
            } => StateView::Provisioning {
                target: target@,
                config: config@,
                ws_token: ws_token@,
                exchange_token: exchange_token@,
            },
            SessionState::Uploading { ws_token } => StateView::Uploading { ws_token: ws_token@ },
            SessionState::Running { inspector_ended, server_ended } => StateView::Running {
                inspector_ended: *inspector_ended,
                server_ended: *server_ended,
            },
            SessionState::Failed => StateView::Failed,
            SessionState::Completed => StateView::Completed,
        }
    }
}

/// What the driver reports back to the orchestrator.
#[derive(Debug)]
pub enum Event {
    /// Begin the session.
    Start,
    /// The registration request came back.
    RegistrationResponse { success: bool, body: String },
    /// The exchange request came back.
    ExchangeResponse { success: bool, body: String, preview_token_header: Option<String> },
    /// The namespace provisioning finished: the namespace identifier, or the
    /// collaborator's rejection body.
    NamespaceResult { result: Result<String, String> },
    /// The upload request came back.
    UploadResponse { success: bool, body: String },
    /// One of the two running tasks terminated; `error` is its abnormal
    /// termination message, if any.
    TaskEnded { source: TaskSource, error: Option<String> },
}

/// The mathematical shape of an [`Event`].
pub enum EventView {
    Start,
    RegistrationResponse { success: bool, body: Seq<char> },
    ExchangeResponse { success: bool, body: Seq<char>, preview_token_header: Option<Seq<char>> },
    NamespaceResult { result: Result<Seq<char>, Seq<char>> },
    UploadResponse { success: bool, body: Seq<char> },
    TaskEnded { source: TaskSource, error: Option<Seq<char>> },
}

impl View for Event {
    type V = EventView;

    open spec fn view(&self) -> EventView {
        match self {
            Event::Start => EventView::Start,
            Event::RegistrationResponse { success, body } => EventView::RegistrationResponse {
                success: *success,
                body: body@,
            },
            Event::ExchangeResponse {
                success,
                body,
                preview_token_header,
            } => EventView::ExchangeResponse {
                success: *success,
                body: body@,
                preview_token_header: preview_token_header.deep_view(),
            },
            Event::NamespaceResult { result } => EventView::NamespaceResult {
                result: match result {
                    Ok(ns) => Ok(ns@),
                    Err(body) => Err(body@),
                },
            },
            Event::UploadResponse { success, body } => EventView::UploadResponse {
                success: *success,
                body: body@,
            },
            Event::TaskEnded { source, error } => EventView::TaskEnded {
                source: *source,
                error: error.deep_view(),
            },
        }
    }
}

/// What the driver must do next.
#[derive(Debug)]
pub enum Action {
    /// Issue the authenticated registration GET.
    Register { address: String },
    /// Issue the authenticated exchange GET.
    Exchange { address: String },
    /// Ensure the site's asset namespace exists.
    EnsureNamespace,
    /// POST the multipart upload described by the request.
    Upload { request: UploadRequest },
    /// Start the inspector relay at the given address and the preview server
    /// under the given artifact-scoped token.
    StartTasks { inspector_address: String, session_token: String },
    /// Keep waiting on the still-running task.
    Wait,
    /// The session ended cleanly.
    Finish,
    /// The session ended with this error.
    Fail { error: Error },
}

/// The mathematical shape of an [`Action`].
pub enum ActionView {
    Register { address: Seq<char> },
    Exchange { address: Seq<char> },
    EnsureNamespace,
    Upload { request: UploadRequestView },
    StartTasks { inspector_address: Seq<char>, session_token: Seq<char> },
    Wait,
    Finish,
    Fail { error: ErrorView },
}

impl View for Action {
    type V = ActionView;

    open spec fn view(&self) -> ActionView {
        match self {
            Action::Register { address } => ActionView::Register { address: address@ },
            Action::Exchange { address } => ActionView::Exchange { address: address@ },
            Action::EnsureNamespace => ActionView::EnsureNamespace,
            Action::Upload { request } => ActionView::Upload { request: request@ },
            Action::StartTasks { inspector_address, session_token } => ActionView::StartTasks {
                inspector_address: inspector_address@,
                session_token: session_token@,
            },
            Action::Wait => ActionView::Wait,
            Action::Finish => ActionView::Finish,
            Action::Fail { error } => ActionView::Fail { error: error@ },
        }
    }
}

/// The upload request of a target, config and current token, at the
/// mathematical level.
pub open spec fn upload_request_spec(
    target: TargetView,
    config: ConfigView,
    current_token: Seq<char>,
) -> UploadRequestView {
    UploadRequestView {
        address: upload_address_spec(target),
        preview_token_header: current_token,
        session_config: session_config_spec(config),
    }
}

/// The transition relation of the session: every decision the orchestrator
/// takes, as a function of the state and the event.
///
/// A mismatched pair (an event that the state does not await) changes
/// nothing; the terminal states `Failed` and `Completed` await nothing.
pub open spec fn advance_spec(s: StateView, e: EventView) -> (StateView, ActionView) {
    match (s, e) {
        (StateView::Idle { target, config }, EventView::Start) => (
            StateView::Registering { target, config },
            ActionView::Register { address: init_address_spec(config) },
        ),
        (
            StateView::Registering { target, config },
            EventView::RegistrationResponse { success, body },
        ) => match registration_outcome(success, body) {
            Err(error) => (StateView::Failed, ActionView::Fail { error }),
            Ok(handle) => (
                StateView::Exchanging { target, config, ws_token: handle.ws_token },
                ActionView::Exchange { address: exchange_address_spec(handle.exchange_host) },
            ),
        },
        (
            StateView::Exchanging { target, config, ws_token },
            EventView::ExchangeResponse { success, body, preview_token_header },
        ) => match exchange_outcome(success, body, preview_token_header) {
            Err(error) => (StateView::Failed, ActionView::Fail { error }),
            Ok(token) => if target.site && target.site_namespace is None {
                (
                    StateView::Provisioning { target, config, ws_token, exchange_token: token },
                    ActionView::EnsureNamespace,
                )
            } else {
                (
                    StateView::Uploading { ws_token },
                    ActionView::Upload { request: upload_request_spec(target, config, token) },
                )
            },
        },
        (
            StateView::Provisioning { target, config, ws_token, exchange_token },
            EventView::NamespaceResult { result },
        ) => match result {
            Err(body) => (
                StateView::Failed,
                ActionView::Fail { error: ErrorView::RemoteRejected { body } },
            ),
            Ok(namespace) => (
                StateView::Uploading { ws_token },
                ActionView::Upload {
                    request: upload_request_spec(
                        TargetView { site_namespace: Some(namespace), ..target },
                        config,
                        exchange_token,
                    ),
                },
            ),
        },
        (StateView::Uploading { ws_token }, EventView::UploadResponse { success, body }) => match
        upload_outcome(success, body) {
            Err(error) => (StateView::Failed, ActionView::Fail { error }),
            Ok(token) => (
                StateView::Running { inspector_ended: false, server_ended: false },
                ActionView::StartTasks {
                    inspector_address: inspector_address_spec(ws_token),
                    session_token: token,
                },
            ),
        },
        (
            StateView::Running { inspector_ended, server_ended },
            EventView::TaskEnded { source, error },
        ) => match error {
            Some(message) => (
                StateView::Failed,
                ActionView::Fail { error: ErrorView::TaskFailure { source, message } },
            ),
            None => {
                let inspector_now = inspector_ended || source is Inspector;
                let server_now = server_ended || source is Server;
                if inspector_now && server_now {
                    (StateView::Completed, ActionView::Finish)
                } else {
                    (
                        StateView::Running {
                            inspector_ended: inspector_now,
                            server_ended: server_now,
                        },
                        ActionView::Wait,
                    )
                }
            },
        },
        (s, _) => (s, ActionView::Wait),
    }
}

/// Takes one step of the session: performs the decision that `advance_spec`
/// states for this state and event.
pub fn advance(state: SessionState, event: Event) -> (r: (SessionState, Action))
    ensures
        (r.0@, r.1@) == advance_spec(state@, event@),
{
    match (state, event) {
        (SessionState::Idle { target, config }, Event::Start) => {
            let address = get_initialize_address(&config);
            (SessionState::Registering { target, config }, Action::Register { address })
        },
        (
            SessionState::Registering { target, config },
            Event::RegistrationResponse { success, body },
        ) => match process_registration_response(success, body) {
            Err(error) => (SessionState::Failed, Action::Fail { error }),
            Ok(handle) => {
                let address = get_exchange_address(handle.exchange_host.as_str());
                (
                    SessionState::Exchanging { target, config, ws_token: handle.ws_token },
                    Action::Exchange { address },
                )
            },
        },
        (
            SessionState::Exchanging { target, config, ws_token },
            Event::ExchangeResponse { success, body, preview_token_header },
        ) => match process_exchange_response(success, body, preview_token_header) {
            Err(error) => (SessionState::Failed, Action::Fail { error }),
            Ok(token) => if needs_site_namespace(&target) {
                (
                    SessionState::Provisioning { target, config, ws_token, exchange_token: token },
                    Action::EnsureNamespace,
                )
            } else {
                let request = build_upload_request(&target, &config, token);
                (SessionState::Uploading { ws_token }, Action::Upload { request })
            },
        },
        (
            SessionState::Provisioning { target, config, ws_token, exchange_token },
            Event::NamespaceResult { result },
        ) => match result {
            Err(body) => (SessionState::Failed, Action::Fail {
                error: Error::RemoteRejected { body },
            }),
            Ok(namespace) => {
                let updated = record_site_namespace(target, namespace);
                let request = build_upload_request(&updated, &config, exchange_token);
                (SessionState::Uploading { ws_token }, Action::Upload { request })
            },
        },
        (SessionState::Uploading { ws_token }, Event::UploadResponse { success, body }) => match
        process_upload_response(success, body) {
            Err(error) => (SessionState::Failed, Action::Fail { error }),
            Ok(token) => {
                let inspector_address = get_inspector_address(ws_token.as_str());
                (
                    SessionState::Running { inspector_ended: false, server_ended: false },
                    Action::StartTasks { inspector_address, session_token: token },
                )
            },
        },
        (
            SessionState::Running { inspector_ended, server_ended },
            Event::TaskEnded { source, error },
        ) => match error {
            Some(message) => (SessionState::Failed, Action::Fail {
                error: Error::TaskFailure { source, message },
            }),
            None => {
                let inspector_now = inspector_ended || matches!(source, TaskSource::Inspector);
                let server_now = server_ended || matches!(source, TaskSource::Server);
                if inspector_now && server_now {
                    (SessionState::Completed, Action::Finish)
                } else {
                    (
                        SessionState::Running {
                            inspector_ended: inspector_now,
                            server_ended: server_now,
                        },
                        Action::Wait,
                    )
                }
            },
        },
        (s, _) => (s, Action::Wait),
    }
}

/// A step fails exactly when it emits the failure action, and the terminal
/// states accept no further event: after a failure the orchestrator issues no
/// further network request and starts no task.
pub proof fn lemma_failure_halts(s: StateView, e: EventView)
    ensures
        !(s is Failed) ==> ((advance_spec(s, e).0 is Failed) <==> (advance_spec(s, e).1 is Fail)),
        s is Failed ==> advance_spec(s, e) == (s, ActionView::Wait),
        s is Completed ==> advance_spec(s, e) == (s, ActionView::Wait),
{
}

/// A rejected registration ends the session with `RemoteRejected` carrying
/// the response body: the exchange and upload requests are never issued and
/// no task is started.
pub proof fn lemma_rejected_registration_halts(
    target: TargetView,
    config: ConfigView,
    body: Seq<char>,
)
    ensures
        advance_spec(
            StateView::Registering { target, config },
            EventView::RegistrationResponse { success: false, body },
        ) == (
            StateView::Failed,
            ActionView::Fail { error: ErrorView::RemoteRejected { body } },
        ),
{
}

/// The upload that follows a successful exchange attaches the current,
/// exchange-issued token itself as the preview-authorization header, and the
/// payload and address come from the session's own config and target.
pub proof fn lemma_upload_attaches_current_token(
    target: TargetView,
    config: ConfigView,
    ws_token: Seq<char>,
    body: Seq<char>,
    token: Seq<char>,
)
    ensures
        upload_request_spec(target, config, token).preview_token_header == token,
        !(target.site && target.site_namespace is None) ==> advance_spec(
            StateView::Exchanging { target, config, ws_token },
            EventView::ExchangeResponse { success: true, body, preview_token_header: Some(token) },
        ) == (
            StateView::Uploading { ws_token },
            ActionView::Upload { request: upload_request_spec(target, config, token) },
        ),
{
}

/// The token of the running session is the artifact-scoped one taken from
/// the upload response body — a new generation, not the exchange-issued
/// token — while the inspector address is built from the inspector token
/// retained since registration.
pub proof fn lemma_session_token_from_upload(ws_token: Seq<char>, body: Seq<char>)
    ensures
        preview_token_of(body) matches Some(token) ==> advance_spec(
            StateView::Uploading { ws_token },
            EventView::UploadResponse { success: true, body },
        ) == (
            StateView::Running { inspector_ended: false, server_ended: false },
            ActionView::StartTasks {
                inspector_address: inspector_address_spec(ws_token),
                session_token: token,
            },
        ),
{
}

/// Namespace provisioning is requested only from the exchange step of a
/// session whose target serves a site and has no namespace recorded yet, so
/// the target snapshot is updated at most once per session.
pub proof fn lemma_namespace_provisioned_at_most_once(s: StateView, e: EventView)
    ensures
        advance_spec(s, e).1 is EnsureNamespace ==> (s matches StateView::Exchanging {
            target,
            ..
        } && target.site && target.site_namespace is None),
{
}

/// The first abnormal task termination decides the session: its error, with
/// its source, is the terminal outcome, whatever the sibling's state.
pub proof fn lemma_first_task_failure_decides(
    inspector_ended: bool,
    server_ended: bool,
    source: TaskSource,
    message: Seq<char>,
)
    ensures
        advance_spec(
            StateView::Running { inspector_ended, server_ended },
            EventView::TaskEnded { source, error: Some(message) },
        ) == (
            StateView::Failed,
            ActionView::Fail { error: ErrorView::TaskFailure { source, message } },
        ),
{
}

} // verus!
