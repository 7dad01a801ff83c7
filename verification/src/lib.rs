//! Bridging a callback-driven native authenticator to asynchronous callers.
//!
//! The native side completes each credential ceremony by invoking a fixed
//! callback with an opaque correlation token. This library holds the verified
//! core of that bridge: the table that pairs tokens with pending calls, the
//! marshaling of native result records into owned values, the resolution of a
//! delivery into the caller-visible outcome, and the validation that a command
//! performs before anything native runs.

mod blocking;
mod bridge;
mod commands;
mod facade;
mod results;

pub use blocking::run_registration;
pub use blocking::run_login;
pub use blocking::shim_report;
pub use blocking::lemma_failed_registration_surfaced;
pub use blocking::lemma_failed_login_surfaced;
pub use commands::RegistrationParams;
pub use commands::LoginParams;
pub use commands::RegistrationRequest;
pub use commands::LoginRequest;
pub use commands::require_ns_window;
pub use commands::invoke_registration;
pub use commands::invoke_login;
pub use facade::NativeDelivery;
pub use facade::registration_outcome;
pub use facade::login_outcome;
pub use facade::complete_registration;
pub use facade::complete_login;
pub use bridge::PendingTable;
pub use bridge::register_step;
pub use bridge::remove_step;
pub use bridge::lemma_at_most_one_delivery;
pub use bridge::lemma_independent_registrations;
pub use bridge::lemma_out_of_order_isolation;
pub use results::PasskeyRegistrationResult;
pub use results::PasskeyLoginResult;
pub use results::RegistrationResultObject;
pub use results::LoginResultObject;
pub use results::marshal_registration;
pub use results::marshal_login;
pub use results::spec_marshal_registration;
pub use results::spec_marshal_login;
