//! Resolution of a native delivery into the caller-visible outcome.
//!
//! Awaiting a call's completion channel ends in one of three ways: the
//! channel was dropped without a value, the callback delivered a null result,
//! or it delivered a well-formed record. Only the last yields a result; the
//! first two are both surfaced as `None`, exactly as the caller sees them.

use vstd::prelude::*;
use crate::results::LoginResultObject;
use crate::results::PasskeyLoginResult;
use crate::results::PasskeyRegistrationResult;
use crate::results::RegistrationResultObject;
use crate::results::spec_marshal_login;
use crate::results::spec_marshal_registration;
use crate::results::marshal_login;
use crate::results::marshal_registration;

verus! {

/// What awaiting one call's completion channel produced.
pub enum NativeDelivery<T> {
    /// The channel was dropped without the callback ever delivering a value.
    Dropped,
    /// The callback delivered a null result: the native side reported failure.
    Null,
    /// The callback delivered a well-formed result record.
    Object(T),
}

/// The outcome a registration delivery resolves to: the marshaled record for
/// a well-formed delivery, `None` for a null or lost one.
pub open spec fn registration_outcome(
    delivery: NativeDelivery<RegistrationResultObject>,
) -> Option<PasskeyRegistrationResult> {
    match delivery {
        NativeDelivery::Object(o) => Some(spec_marshal_registration(o)),
        NativeDelivery::Null => None,
        NativeDelivery::Dropped => None,
    }
}

/// The outcome a login delivery resolves to: the marshaled record for a
/// well-formed delivery, `None` for a null or lost one.
pub open spec fn login_outcome(
    delivery: NativeDelivery<LoginResultObject>,
) -> Option<PasskeyLoginResult> {
    match delivery {
        NativeDelivery::Object(o) => Some(spec_marshal_login(o)),
        NativeDelivery::Null => None,
        NativeDelivery::Dropped => None,
    }
}

/// Resolves what the registration await produced into the caller's outcome.
pub fn complete_registration(delivery: NativeDelivery<RegistrationResultObject>) -> (r: Option<
    PasskeyRegistrationResult,
>)
    ensures
        r == registration_outcome(delivery),
{
    match delivery {
        NativeDelivery::Object(o) => Some(marshal_registration(o)),
        NativeDelivery::Null => None,
        NativeDelivery::Dropped => None,
    }
}

/// Resolves what the login await produced into the caller's outcome.
pub fn complete_login(delivery: NativeDelivery<LoginResultObject>) -> (r: Option<
    PasskeyLoginResult,
>)
    ensures
        r == login_outcome(delivery),
{
    match delivery {
        NativeDelivery::Object(o) => Some(marshal_login(o)),
        NativeDelivery::Null => None,
        NativeDelivery::Dropped => None,
    }
}

} // verus!
