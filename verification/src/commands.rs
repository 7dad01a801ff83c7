//! Command-side validation and the native invocation adapter.
//!
//! A command first extracts the UI window handle; a call without one is
//! rejected immediately, before any token is issued or anything native is
//! invoked. With a handle in hand, the adapter issues a fresh token, parks
//! the call's completion half under it, and packages handle, parameters and
//! token into the one request the native entry point is invoked with.

use vstd::prelude::*;
use crate::bridge::PendingTable;
use crate::bridge::register_step;

verus! {

/// The caller-supplied parameters of a registration call.
#[derive(Debug, Clone, PartialEq, Eq)]
pub struct RegistrationParams {
    pub domain: String,
    pub challenge: Vec<u8>,
    pub username: String,
    pub user_id: Vec<u8>,
    pub salt: Vec<u8>,
}

/// The caller-supplied parameters of a login call.
#[derive(Debug, Clone, PartialEq, Eq)]
pub struct LoginParams {
    pub domain: String,
    pub challenge: Vec<u8>,
    pub salt: Vec<u8>,
}

/// Everything one native registration invocation is made with.
#[derive(Debug, Clone, PartialEq, Eq)]
pub struct RegistrationRequest {
    pub window: u64,
    pub params: RegistrationParams,
    pub token: u64,
}

/// Everything one native login invocation is made with.
#[derive(Debug, Clone, PartialEq, Eq)]
pub struct LoginRequest {
    pub window: u64,
    pub params: LoginParams,
    pub token: u64,
}

/// Validates the UI window handle a command was given. A missing handle is
/// rejected here, before any native invocation; a present one passes through
/// unchanged.
pub fn require_ns_window(ns_window: Option<u64>) -> (r: Result<u64, String>)
    ensures
        ns_window matches Some(h) ==> r == Ok::<u64, String>(h),
        ns_window is None ==> (r matches Err(m) && m@ == "Missing ns_window"@),
{
    match ns_window {
        Some(h) => Ok(h),
        None => Err(String::from_str("Missing ns_window")),
    }
}

/// Prepares the one native registration invocation of a call: issues a fresh
/// token, parks `pending` under it, and returns the request carrying the
/// window handle and the parameters unchanged.
pub fn invoke_registration<S>(
    table: &mut PendingTable<S>,
    pending: S,
    window: u64,
    params: RegistrationParams,
) -> (request: RegistrationRequest)
    requires
        old(table).wf(),
        old(table).next_token() < u64::MAX,
    ensures
        final(table).wf(),
        register_step(*old(table), *final(table), pending, request.token),
        request.window == window,
        request.params == params,
{
    let token = table.register(pending);
    RegistrationRequest { window, params, token }
}

/// Prepares the one native login invocation of a call: issues a fresh token,
/// parks `pending` under it, and returns the request carrying the window
/// handle and the parameters unchanged.
pub fn invoke_login<S>(
    table: &mut PendingTable<S>,
    pending: S,
    window: u64,
    params: LoginParams,
) -> (request: LoginRequest)
    requires
        old(table).wf(),
        old(table).next_token() < u64::MAX,
    ensures
        final(table).wf(),
        register_step(*old(table), *final(table), pending, request.token),
        request.window == window,
        request.params == params,
{
    let token = table.register(pending);
    LoginRequest { window, params, token }
}

} // verus!
