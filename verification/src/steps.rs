//! The three setup steps' response processing and request building:
//! registration, token exchange, and script upload.

use vstd::prelude::*;

use crate::config::DeployConfig;
use crate::config::DeployTarget;
use crate::config::get_session_config;
use crate::config::get_upload_address;
use crate::config::session_config_spec;
use crate::config::upload_address_spec;
use crate::error::Error;
use crate::error::ErrorView;
use crate::parse::host_of_url;
use crate::parse::init_fields_of;
use crate::parse::parse_init_fields;
use crate::parse::parse_preview_token;
use crate::parse::preview_token_of;
use crate::parse::url_host;

verus! {

/// The output of registration: the session's inspector token and the host to
/// exchange it at.
#[derive(Debug)]
pub struct ExchangeHandle {
    pub ws_token: String,
    pub exchange_host: String,
}

/// The mathematical shape of an [`ExchangeHandle`].
pub struct HandleView {
    pub ws_token: Seq<char>,
    pub exchange_host: Seq<char>,
}

impl View for ExchangeHandle {
    type V = HandleView;

    open spec fn view(&self) -> HandleView {
        HandleView { ws_token: self.ws_token@, exchange_host: self.exchange_host@ }
    }
}

/// What the script upload sends: its address, the current preview token as
/// the preview-authorization header, and the session-scope payload field of
/// the multipart body.
#[derive(Debug)]
pub struct UploadRequest {
    pub address: String,
    pub preview_token_header: String,
    pub session_config: String,
}

/// The mathematical shape of an [`UploadRequest`].
pub struct UploadRequestView {
    pub address: Seq<char>,
    pub preview_token_header: Seq<char>,
    pub session_config: Seq<char>,
}

impl View for UploadRequest {
    type V = UploadRequestView;

    open spec fn view(&self) -> UploadRequestView {
        UploadRequestView {
            address: self.address@,
            preview_token_header: self.preview_token_header@,
            session_config: self.session_config@,
        }
    }
}

/// What registration yields for each response: the body of a rejected
/// request, a malformed body, an exchange address without a host, or the
/// exchange handle.
pub open spec fn registration_outcome(success: bool, body: Seq<char>) -> Result<
    HandleView,
    ErrorView,
> {
    if !success {
        Err(ErrorView::RemoteRejected { body })
    } else {
        match init_fields_of(body) {
            None => Err(ErrorView::MalformedResponse),
            Some(fields) => match host_of_url(fields.0) {
                None => Err(ErrorView::InvalidExchangeUrl),
                Some(host) => Ok(HandleView { ws_token: fields.1, exchange_host: host }),
            },
        }
    }
}

/// What the token exchange yields for each response: the body of a rejected
/// request, a missing preview-token header, or the header's token.
pub open spec fn exchange_outcome(
    success: bool,
    body: Seq<char>,
    preview_token_header: Option<Seq<char>>,
) -> Result<Seq<char>, ErrorView> {
    if !success {
        Err(ErrorView::RemoteRejected { body })
    } else {
        match preview_token_header {
            None => Err(ErrorView::MissingToken),
            Some(token) => Ok(token),
        }
    }
}

/// What the script upload yields for each response: the body of a rejected
/// request, a malformed body, or the artifact-scoped preview token.
pub open spec fn upload_outcome(success: bool, body: Seq<char>) -> Result<Seq<char>, ErrorView> {
    if !success {
        Err(ErrorView::RemoteRejected { body })
    } else {
        match preview_token_of(body) {
            None => Err(ErrorView::MalformedResponse),
            Some(token) => Ok(token),
        }
    }
}

/// Processes the registration response: on success, the inspector token and
/// the host of the `exchange_url`; otherwise the step's error.
pub fn process_registration_response(success: bool, body: String) -> (r: Result<
    ExchangeHandle,
    Error,
>)
    ensures
        match r {
            Ok(handle) => registration_outcome(success, body@) == Ok::<HandleView, ErrorView>(
                handle@,
            ),
            Err(e) => registration_outcome(success, body@) == Err::<HandleView, ErrorView>(e@),
        },
{
    if !success {
        return Err(Error::RemoteRejected { body });
    }
    match parse_init_fields(body.as_str()) {
        None => Err(Error::MalformedResponse),
        Some(fields) => {
            let (exchange_url, token) = fields;
            match url_host(exchange_url.as_str()) {
                None => Err(Error::InvalidExchangeUrl),
                Some(host) => Ok(ExchangeHandle { ws_token: token, exchange_host: host }),
            }
        },
    }
}

/// Processes the exchange response: on success, the token of the
/// preview-token header; otherwise the step's error.
pub fn process_exchange_response(
    success: bool,
    body: String,
    preview_token_header: Option<String>,
) -> (r: Result<String, Error>)
    ensures
        match r {
            Ok(token) => exchange_outcome(
                success,
                body@,
                preview_token_header.deep_view(),
            ) == Ok::<Seq<char>, ErrorView>(token@),
            Err(e) => exchange_outcome(success, body@, preview_token_header.deep_view()) == Err::<
                Seq<char>,
                ErrorView,
            >(e@),
        },
{
    if !success {
        return Err(Error::RemoteRejected { body });
    }
    match preview_token_header {
        None => Err(Error::MissingToken),
        Some(token) => Ok(token),
    }
}

/// Processes the upload response: on success, the new artifact-scoped preview
/// token from the body; otherwise the step's error.
pub fn process_upload_response(success: bool, body: String) -> (r: Result<String, Error>)
    ensures
        match r {
            Ok(token) => upload_outcome(success, body@) == Ok::<Seq<char>, ErrorView>(token@),
            Err(e) => upload_outcome(success, body@) == Err::<Seq<char>, ErrorView>(e@),
        },
{
    if !success {
        return Err(Error::RemoteRejected { body });
    }
    match parse_preview_token(body.as_str()) {
        None => Err(Error::MalformedResponse),
        Some(token) => Ok(token),
    }
}

/// Builds the upload request: the account- and script-scoped address, the
/// current (pre-upload) token as the preview-authorization header, and the
/// session-scope payload of `config`.
pub fn build_upload_request(
    target: &DeployTarget,
    config: &DeployConfig,
    current_token: String,
) -> (r: UploadRequest)
    ensures
        r@.address == upload_address_spec(target@),
        r@.preview_token_header == current_token@,
        r@.session_config == session_config_spec(config@),
{
    UploadRequest {
        address: get_upload_address(target),
        preview_token_header: current_token,
        session_config: get_session_config(config),
    }
}

} // verus!
