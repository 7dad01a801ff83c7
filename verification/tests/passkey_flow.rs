use macos_passkey::LoginParams;
use macos_passkey::LoginResultObject;
use macos_passkey::NativeDelivery;
use macos_passkey::PasskeyRegistrationResult;
use macos_passkey::PendingTable;
use macos_passkey::RegistrationParams;
use macos_passkey::RegistrationResultObject;
use macos_passkey::complete_login;
use macos_passkey::complete_registration;
use macos_passkey::invoke_login;
use macos_passkey::invoke_registration;
use macos_passkey::marshal_login;
use macos_passkey::marshal_registration;
use macos_passkey::require_ns_window;
use macos_passkey::run_login;
use macos_passkey::run_registration;

fn sample_registration_object() -> RegistrationResultObject {
    RegistrationResultObject {
        id: String::from("cred-id"),
        raw_id: String::from("cred-raw-id"),
        client_data_json: String::from("{\"type\":\"webauthn.create\"}"),
        attestation_object: String::from("attestation-bytes"),
        prf_output: vec![1, 2, 3, 4],
    }
}

fn sample_login_object() -> LoginResultObject {
    LoginResultObject {
        id: String::from("cred-id"),
        raw_id: String::from("cred-raw-id"),
        client_data_json: String::from("{\"type\":\"webauthn.get\"}"),
        authenticator_data: String::from("auth-data"),
        signature: String::from("signature-bytes"),
        user_handle: String::from("user-handle"),
        prf_output: vec![9, 9],
    }
}

#[test]
fn token_reclaimed_exactly_once() {
    let mut table: PendingTable<u64> = PendingTable::new();
    let token = table.register(42);
    assert_eq!(table.remove(token), Some(42));
    assert_eq!(table.remove(token), None);
    assert_eq!(table.remove(token), None);
}

#[test]
fn unknown_token_reclaims_nothing() {
    let mut table: PendingTable<u64> = PendingTable::new();
    let token = table.register(42);
    assert_eq!(table.remove(token + 1), None);
    assert_eq!(table.remove(token), Some(42));
}

#[test]
fn two_registrations_are_independent() {
    let mut table: PendingTable<u64> = PendingTable::new();
    let first = table.register(11);
    let second = table.register(22);
    assert_ne!(first, second);
    assert_eq!(table.remove(first), Some(11));
    assert_eq!(table.remove(second), Some(22));
}

#[test]
fn out_of_order_completion_stays_correlated() {
    let mut table: PendingTable<u64> = PendingTable::new();
    let first = table.register(11);
    let second = table.register(22);
    // The second call's native operation finishes first.
    assert_eq!(table.remove(second), Some(22));
    assert_eq!(table.remove(first), Some(11));
}

#[test]
fn marshaled_registration_matches_record_exactly() {
    let object = sample_registration_object();
    let expected = sample_registration_object();
    let result = marshal_registration(object);
    assert_eq!(result.id, expected.id);
    assert_eq!(result.raw_id, expected.raw_id);
    assert_eq!(result.client_data_json, expected.client_data_json);
    assert_eq!(result.attestation_object, expected.attestation_object);
    assert_eq!(result.prf_output, expected.prf_output);
}

#[test]
fn marshaled_login_matches_record_exactly() {
    let object = sample_login_object();
    let expected = sample_login_object();
    let result = marshal_login(object);
    assert_eq!(result.id, expected.id);
    assert_eq!(result.raw_id, expected.raw_id);
    assert_eq!(result.client_data_json, expected.client_data_json);
    assert_eq!(result.authenticator_data, expected.authenticator_data);
    assert_eq!(result.signature, expected.signature);
    assert_eq!(result.user_handle, expected.user_handle);
    assert_eq!(result.prf_output, expected.prf_output);
}

#[test]
fn marshaled_value_owns_independent_copies() {
    let object = sample_registration_object();
    let result = marshal_registration(object);
    // A later well-formed delivery with different contents must not affect
    // the value already produced.
    let mut other = sample_registration_object();
    other.id = String::from("other-id");
    other.prf_output = vec![0; 4];
    let other_result = marshal_registration(other);
    assert_eq!(result.id, "cred-id");
    assert_eq!(result.prf_output, vec![1, 2, 3, 4]);
    assert_eq!(other_result.id, "other-id");
}

#[test]
fn registration_scenario_delivers_matching_result() {
    // Registration with domain="example.com", challenge=[1,2,3],
    // username="alice", user_id=[9], salt=[7,7].
    let window = require_ns_window(Some(0x7000)).expect("handle present");
    let params = RegistrationParams {
        domain: String::from("example.com"),
        challenge: vec![1, 2, 3],
        username: String::from("alice"),
        user_id: vec![9],
        salt: vec![7, 7],
    };
    let mut table: PendingTable<u64> = PendingTable::new();
    let request = invoke_registration(&mut table, 1, window, params.clone());
    assert_eq!(request.window, 0x7000);
    assert_eq!(request.params, params);

    // The native side completes the call with a well-formed object.
    assert_eq!(table.remove(request.token), Some(1));
    let object = sample_registration_object();
    let outcome = complete_registration(NativeDelivery::Object(object));
    let result = run_registration(outcome);
    let expected = PasskeyRegistrationResult {
        id: String::from("cred-id"),
        raw_id: String::from("cred-raw-id"),
        client_data_json: String::from("{\"type\":\"webauthn.create\"}"),
        attestation_object: String::from("attestation-bytes"),
        prf_output: vec![1, 2, 3, 4],
    };
    assert_eq!(result, Ok(expected));
}

#[test]
fn login_null_delivery_reports_login_failed() {
    let outcome = complete_login(NativeDelivery::Null);
    assert_eq!(outcome, None);
    let result = run_login(outcome);
    assert_eq!(result, Err(String::from("Login failed")));
}

#[test]
fn registration_null_delivery_reports_registration_failed() {
    let outcome = complete_registration(NativeDelivery::Null);
    assert_eq!(outcome, None);
    assert_eq!(
        run_registration(outcome),
        Err(String::from("Registration failed"))
    );
}

#[test]
fn dropped_channel_reports_like_native_failure() {
    let registration = complete_registration(NativeDelivery::Dropped);
    assert_eq!(registration, None);
    assert_eq!(
        run_registration(registration),
        Err(String::from("Registration failed"))
    );
    let login = complete_login(NativeDelivery::Dropped);
    assert_eq!(login, None);
    assert_eq!(run_login(login), Err(String::from("Login failed")));
}

#[test]
fn missing_window_fails_before_any_invocation() {
    let mut table: PendingTable<u64> = PendingTable::new();
    let checked = require_ns_window(None);
    assert_eq!(checked, Err(String::from("Missing ns_window")));
    // No invocation was prepared: the table issued no token at all.
    assert_eq!(table.remove(0), None);
}

#[test]
fn present_window_passes_through() {
    assert_eq!(require_ns_window(Some(7)), Ok(7));
}

#[test]
fn login_invocation_carries_parameters_unchanged() {
    let params = LoginParams {
        domain: String::from("example.com"),
        challenge: vec![5, 6],
        salt: vec![8],
    };
    let mut table: PendingTable<u64> = PendingTable::new();
    let request = invoke_login(&mut table, 3, 0x9000, params.clone());
    assert_eq!(request.window, 0x9000);
    assert_eq!(request.params, params);
    assert_eq!(table.remove(request.token), Some(3));
}

#[test]
fn login_object_delivery_succeeds_with_matching_fields() {
    let outcome = complete_login(NativeDelivery::Object(sample_login_object()));
    let result = run_login(outcome).expect("object delivery succeeds");
    assert_eq!(result.id, "cred-id");
    assert_eq!(result.raw_id, "cred-raw-id");
    assert_eq!(result.client_data_json, "{\"type\":\"webauthn.get\"}");
    assert_eq!(result.authenticator_data, "auth-data");
    assert_eq!(result.signature, "signature-bytes");
    assert_eq!(result.user_handle, "user-handle");
    assert_eq!(result.prf_output, vec![9, 9]);
}
