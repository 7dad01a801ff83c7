//! Owned result values and the marshaler that produces them.
//!
//! A non-null native delivery carries a record with a fixed, ordered set of
//! fields. `RegistrationResultObject` and `LoginResultObject` hold those
//! fields as owned plain values; the marshalers turn such a record into the
//! result type handed to the caller, copying every field unchanged.

use vstd::prelude::*;

verus! {

/// The caller-visible result of a successful credential registration.
#[derive(Debug, Clone, PartialEq, Eq)]
pub struct PasskeyRegistrationResult {
    pub id: String,
    pub raw_id: String,
    pub client_data_json: String,
    pub attestation_object: String,
    pub prf_output: Vec<u8>,
}

/// The caller-visible result of a successful credential assertion.
#[derive(Debug, Clone, PartialEq, Eq)]
pub struct PasskeyLoginResult {
    pub id: String,
    pub raw_id: String,
    pub client_data_json: String,
    pub authenticator_data: String,
    pub signature: String,
    pub user_handle: String,
    pub prf_output: Vec<u8>,
}

/// The field-for-field record a non-null registration delivery carries.
#[derive(Debug, Clone, PartialEq, Eq)]
pub struct RegistrationResultObject {
    pub id: String,
    pub raw_id: String,
    pub client_data_json: String,
    pub attestation_object: String,
    pub prf_output: Vec<u8>,
}

/// The field-for-field record a non-null login delivery carries.
#[derive(Debug, Clone, PartialEq, Eq)]
pub struct LoginResultObject {
    pub id: String,
    pub raw_id: String,
    pub client_data_json: String,
    pub authenticator_data: String,
    pub signature: String,
    pub user_handle: String,
    pub prf_output: Vec<u8>,
}

/// The registration result a given native record marshals to.
pub open spec fn spec_marshal_registration(o: RegistrationResultObject) -> PasskeyRegistrationResult {
    PasskeyRegistrationResult {
        id: o.id,
        raw_id: o.raw_id,
        client_data_json: o.client_data_json,
        attestation_object: o.attestation_object,
        prf_output: o.prf_output,
    }
}

/// The login result a given native record marshals to.
pub open spec fn spec_marshal_login(o: LoginResultObject) -> PasskeyLoginResult {
    PasskeyLoginResult {
        id: o.id,
        raw_id: o.raw_id,
        client_data_json: o.client_data_json,
        authenticator_data: o.authenticator_data,
        signature: o.signature,
        user_handle: o.user_handle,
        prf_output: o.prf_output,
    }
}

/// Turns a registration record into the owned caller-visible result.
/// Every field of the result equals the corresponding field of the record.
pub fn marshal_registration(o: RegistrationResultObject) -> (r: PasskeyRegistrationResult)
    ensures
        r == spec_marshal_registration(o),
        r.id@ == o.id@,
        r.raw_id@ == o.raw_id@,
        r.client_data_json@ == o.client_data_json@,
        r.attestation_object@ == o.attestation_object@,
        r.prf_output@ == o.prf_output@,
{
    let RegistrationResultObject { id, raw_id, client_data_json, attestation_object, prf_output } =
        o;
    PasskeyRegistrationResult { id, raw_id, client_data_json, attestation_object, prf_output }
}

/// Turns a login record into the owned caller-visible result.
/// Every field of the result equals the corresponding field of the record.
pub fn marshal_login(o: LoginResultObject) -> (r: PasskeyLoginResult)
    ensures
        r == spec_marshal_login(o),
        r.id@ == o.id@,
        r.raw_id@ == o.raw_id@,
        r.client_data_json@ == o.client_data_json@,
        r.authenticator_data@ == o.authenticator_data@,
        r.signature@ == o.signature@,
        r.user_handle@ == o.user_handle@,
        r.prf_output@ == o.prf_output@,
{
    let LoginResultObject {
        id,
        raw_id,
        client_data_json,
        authenticator_data,
        signature,
        user_handle,
        prf_output,
    } = o;
    PasskeyLoginResult {
        id,
        raw_id,
        client_data_json,
        authenticator_data,
        signature,
        user_handle,
        prf_output,
    }
}

} // verus!
