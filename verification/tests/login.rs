use hotserver::http::HttpError;
use hotserver::login::{login_start, AuthenticationResult, LoginLookup, LoginStep, LoginStore, LOGIN_SESSION_SECONDS};
use hotserver::heart::authenticate::store_request;
use hotserver::heart::authenticate::{login, LoginParams};
use hotserver::server::routes::api::authenticate::AuthenticateApi;

fn is_url_safe(c: char) -> bool {
    c.is_ascii_alphanumeric() || c == '-' || c == '_'
}

#[test]
fn wrong_password_is_forbidden() {
    let step = login_start("alice".to_string(), "hunter2");
    assert_eq!(step, LoginStep::Reply(AuthenticationResult::Forbidden));
    let step = login_start("alice".to_string(), "");
    assert_eq!(step, LoginStep::Reply(AuthenticationResult::Forbidden));
    let step = login_start("alice".to_string(), "Password");
    assert_eq!(step, LoginStep::Reply(AuthenticationResult::Forbidden));
}

#[test]
fn right_password_asks_for_a_lookup_of_a_fresh_id() {
    match login_start("alice".to_string(), "password") {
        LoginStep::Lookup(l) => {
            assert_eq!(l.user_name, "alice");
            assert_eq!(l.session_id.chars().count(), 43);
            assert!(l.session_id.chars().all(is_url_safe));
        }
        other => panic!("unexpected step {other:?}"),
    }
}

#[test]
fn a_found_session_is_a_conflict() {
    let lookup = LoginLookup { session_id: "abc".to_string(), user_name: "bob".to_string() };
    assert_eq!(lookup.after_lookup(Ok(true)), LoginStep::Reply(AuthenticationResult::Conflict));
}

#[test]
fn a_free_id_is_stored_and_then_granted() {
    let lookup = LoginLookup { session_id: "abc".to_string(), user_name: "bob".to_string() };
    let step = lookup.after_lookup(Ok(false));
    let store = LoginStore { session_id: "abc".to_string(), user_name: "bob".to_string() };
    assert_eq!(step, LoginStep::Store(store.clone()));
    assert_eq!(store.after_store(Ok(())), LoginStep::Reply(AuthenticationResult::Granted("abc".to_string())));
}

#[test]
fn whole_login_grants_the_stored_id() {
    let step = login_start("carol".to_string(), "password");
    let LoginStep::Lookup(lookup) = step else { panic!("no lookup") };
    let id = lookup.session_id.clone();
    let LoginStep::Store(store) = lookup.after_lookup(Ok(false)) else { panic!("no store") };
    assert_eq!(store.session_id, id);
    assert_eq!(store.user_name, "carol");
    assert_eq!(store.after_store(Ok(())), LoginStep::Reply(AuthenticationResult::Granted(id)));
}

#[test]
fn statuses_of_the_answers() {
    assert_eq!(AuthenticationResult::Granted("x".to_string()).status(), 200);
    assert_eq!(AuthenticationResult::Conflict.status(), 409);
    assert_eq!(AuthenticationResult::Forbidden.status(), 401);
}

#[test]
fn session_json_text() {
    let store = LoginStore { session_id: "id".to_string(), user_name: "bob".to_string() };
    assert_eq!(store.session_json(), "{\"user_name\":\"bob\"}");
    assert_eq!(store.user_name_key(), "user_name");
    let store = LoginStore { session_id: "id".to_string(), user_name: "a\"b\\c\nd\u{1}é".to_string() };
    assert_eq!(store.session_json(), "{\"user_name\":\"a\\\"b\\\\c\\nd\\u0001é\"}");
    let store = LoginStore { session_id: "id".to_string(), user_name: "\u{8}\t\u{c}\r\u{1f}".to_string() };
    assert_eq!(store.session_json(), "{\"user_name\":\"\\b\\t\\f\\r\\u001f\"}");
}

#[test]
fn login_session_lasts_a_year() {
    assert_eq!(LOGIN_SESSION_SECONDS, 31_536_000);
}

#[test]
fn heart_login_uses_the_params() {
    let params = LoginParams {
        user_name: "dave".to_string(),
        password: "nope".to_string(),
        device_info: "phone".to_string(),
    };
    assert_eq!(login(params), LoginStep::Reply(AuthenticationResult::Forbidden));
    let params = LoginParams {
        user_name: "dave".to_string(),
        password: "password".to_string(),
        device_info: "phone".to_string(),
    };
    assert!(matches!(login(params), LoginStep::Lookup(l) if l.user_name == "dave"));
}

#[test]
fn poem_login_uses_the_query() {
    let api = AuthenticateApi;
    let step = api.greet("erin".to_string(), "bad".to_string(), "laptop".to_string());
    assert_eq!(step, LoginStep::Reply(AuthenticationResult::Forbidden));
    let step = api.greet("erin".to_string(), "password".to_string(), "laptop".to_string());
    assert!(matches!(step, LoginStep::Lookup(l) if l.user_name == "erin" && l.session_id.len() == 43));
}

#[test]
fn failed_lookup_ends_with_an_internal_error() {
    let lookup = LoginLookup { session_id: "abc".to_string(), user_name: "bob".to_string() };
    assert_eq!(
        lookup.after_lookup(Err("pool closed".to_string())),
        LoginStep::Failed(HttpError { status: 500, message: "pool closed".to_string() })
    );
}

#[test]
fn failed_store_ends_with_an_internal_error() {
    let store = LoginStore { session_id: "abc".to_string(), user_name: "bob".to_string() };
    assert_eq!(
        store.after_store(Err("disk full".to_string())),
        LoginStep::Failed(HttpError { status: 500, message: "disk full".to_string() })
    );
}

#[test]
fn heart_store_request_lasts_a_year() {
    let store = LoginStore { session_id: "abc".to_string(), user_name: "bob".to_string() };
    let request = store_request(&store);
    assert_eq!(request.id, "abc");
    assert_eq!(request.session, "{\"user_name\":\"bob\"}");
    assert_eq!(request.expires, 31_536_000);
}
