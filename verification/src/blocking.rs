//! Translation of an awaited outcome for a caller that cannot await.
//!
//! The blocking dispatch shim parks a worker thread on the whole operation
//! and hands its outcome to a synchronous caller as a plain `Result`. The
//! parking itself is plumbing; what is stated and checked here is the
//! translation: success passes the value through unchanged, and the absence
//! of a value becomes exactly the operation's failure message.

use vstd::prelude::*;
use crate::facade::NativeDelivery;
use crate::facade::login_outcome;
use crate::facade::registration_outcome;
use crate::results::LoginResultObject;
use crate::results::PasskeyLoginResult;
use crate::results::PasskeyRegistrationResult;
use crate::results::RegistrationResultObject;

verus! {

/// How the shim reports an awaited outcome `outcome` as a result `r`: a value
/// passes through as `Ok`, no value becomes `Err` carrying exactly `failure`.
pub open spec fn shim_report<T>(outcome: Option<T>, failure: Seq<char>, r: Result<
    T,
    String,
>) -> bool {
    match outcome {
        Some(v) => r == Ok::<T, String>(v),
        None => r matches Err(m) && m@ == failure,
    }
}

/// Reports a registration outcome to a synchronous caller.
pub fn run_registration(outcome: Option<PasskeyRegistrationResult>) -> (r: Result<
    PasskeyRegistrationResult,
    String,
>)
    ensures
        shim_report(outcome, "Registration failed"@, r),
{
    match outcome {
        Some(v) => Ok(v),
        None => Err(String::from_str("Registration failed")),
    }
}

/// Reports a login outcome to a synchronous caller.
pub fn run_login(outcome: Option<PasskeyLoginResult>) -> (r: Result<PasskeyLoginResult, String>)
    ensures
        shim_report(outcome, "Login failed"@, r),
{
    match outcome {
        Some(v) => Ok(v),
        None => Err(String::from_str("Login failed")),
    }
}

/// Law: a registration call whose delivery was null or lost never reaches the
/// caller as success; it is surfaced as exactly the registration failure
/// message.
pub proof fn lemma_failed_registration_surfaced(
    delivery: NativeDelivery<RegistrationResultObject>,
    r: Result<PasskeyRegistrationResult, String>,
)
    requires
        delivery is Null || delivery is Dropped,
        shim_report(registration_outcome(delivery), "Registration failed"@, r),
    ensures
        r matches Err(m) && m@ == "Registration failed"@,
{
}

/// Law: a login call whose delivery was null or lost never reaches the caller
/// as success; it is surfaced as exactly the login failure message.
pub proof fn lemma_failed_login_surfaced(
    delivery: NativeDelivery<LoginResultObject>,
    r: Result<PasskeyLoginResult, String>,
)
    requires
        delivery is Null || delivery is Dropped,
        shim_report(login_outcome(delivery), "Login failed"@, r),
    ensures
        r matches Err(m) && m@ == "Login failed"@,
{
}

} // verus!
