//! Verified core of a short-lived remote preview session: the address and
//! payload computations of the setup handshake, the processing of each
//! response, and the orchestration state machine that sequences
//! registration, token exchange and script upload before launching the
//! inspector relay and preview server together.

pub mod config;
pub mod error;
pub mod orchestrator;
pub mod parse;
pub mod steps;
pub mod text;

pub use config::ConfigView;
pub use config::DeployConfig;
pub use config::DeployTarget;
pub use config::TargetView;
pub use config::get_initialize_address;
pub use config::get_upload_address;
pub use config::get_exchange_address;
pub use config::get_inspector_address;
pub use config::get_session_config;
pub use config::needs_site_namespace;
pub use config::record_site_namespace;
pub use error::Error;
pub use error::ErrorView;
pub use error::TaskSource;
pub use orchestrator::Action;
pub use orchestrator::ActionView;
pub use orchestrator::Event;
pub use orchestrator::EventView;
pub use orchestrator::SessionState;
pub use orchestrator::StateView;
pub use orchestrator::advance;
pub use parse::host_of_url;
pub use parse::init_fields_of;
pub use parse::preview_token_of;
pub use steps::ExchangeHandle;
pub use steps::HandleView;
pub use steps::UploadRequest;
pub use steps::UploadRequestView;
pub use steps::build_upload_request;
pub use steps::process_exchange_response;
pub use steps::process_registration_response;
pub use steps::process_upload_response;
