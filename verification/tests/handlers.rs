use hotserver::server::routes::api::security::{session_for_api_key, session_or_default_for_api_key};
use hotserver::heart::axum_session::{CountResponse, ExistsResponse, LoadResponse};
use hotserver::config::{required_setting, MissingSetting, MAX_DB_CONNECTIONS, MIN_DB_CONNECTIONS};
use hotserver::heart;
use hotserver::http::{storage_reply, HttpError, SpecFormat};
use hotserver::poem_app;
use hotserver::server::endpoints::api::endpoints::{Api, Test as EndpointTest};
use hotserver::server::endpoints::api::session::SessionApi;
use hotserver::server::endpoints::api::test::{Test as ApiTest, TestApi};
use hotserver::server::endpoints::api::api_service_url;
use hotserver::server::endpoints::index as poem_index;
use hotserver::server::hot::{get_unwound_error, shutdown_message, PanicPayload};
use hotserver::server::routes::api::hello_world::{default_none, greet, hello, GreetParams};
use hotserver::server::routes::api::session::{
    load_session_reply, stored_expiry, update_session, write_reply, JsonReply, update_session_expiry, get_default_expires_value,
};
use hotserver::server::routes::api::test::{test_put, Test};
use hotserver::server::routes::api::todo::{ping_failure, todo_put, Todo};
use hotserver::server::routes::hot::HotVersion;
use hotserver::server::routes::index;

#[test]
fn axum_index_counts_from_one() {
    assert_eq!(index::index(None), (1, "hello world! 1".to_string()));
    assert_eq!(index::index(Some(41)), (42, "hello world! 42".to_string()));
    assert_eq!(index::index2(), "hello world!");
}

#[test]
fn poem_index_counts_from_zero() {
    assert_eq!(poem_index::index(None), (0, "hello world! 0".to_string()));
    assert_eq!(poem_index::index(Some(9)), (10, "hello world! 10".to_string()));
}

#[test]
fn greetings() {
    assert_eq!(hello(), "Hello, World!");
    assert_eq!(greet(GreetParams { name: Some("Ann".to_string()) }), "hello, Ann!");
    assert_eq!(greet(GreetParams { name: None }), "hello!");
    assert_eq!(default_none::<String>(), None);
    assert_eq!(Api.index(), "Hello, World!");
    assert_eq!(Api.greet(Some("Bo".to_string())), "hello, Bo!");
    assert_eq!(Api.greet(None), "hello!");
    assert_eq!(poem_app::api::Api.index(Some("Cy".to_string())), "world, Cy!");
    assert_eq!(poem_app::api::Api.index(None), "world!");
    assert_eq!(poem_app::api::Api.world(Some("Di".to_string())), "hello, Di!");
    assert_eq!(poem_app::api::Api.world(None), "hello!");
    assert_eq!(poem_app::index::index(), "hello world 1!");
    assert_eq!(heart::index::index(), "hello world 1!");
    assert_eq!(heart::index::index2(), "hello world 2!");
}

#[test]
fn echoes() {
    assert_eq!(test_put(Test { test: "abc".to_string() }), "test:abc");
    assert_eq!(Api.test(EndpointTest { test: "x".to_string() }), "test:x");
    assert_eq!(TestApi.test(ApiTest { test: "".to_string() }), "test:");
    assert_eq!(
        todo_put(Todo { test: "milk".to_string() }, Ok(())),
        Ok(("todo_put:milk".to_string(), ("name".to_string(), "name".to_string())))
    );
}

#[test]
fn todo_ping_failure() {
    assert_eq!(
        todo_put(Todo { test: "milk".to_string() }, Err("timeout".to_string())),
        Err(HttpError { status: 500, message: "Failed to ping database".to_string() })
    );
    assert_eq!(
        ping_failure(),
        HttpError { status: 500, message: "Failed to ping database".to_string() }
    );
}

#[test]
fn load_session_answers() {
    assert_eq!(
        load_session_reply(Ok(Some("{}".to_string()))),
        Ok(JsonReply { content_type: "application/json".to_string(), body: "{}".to_string() })
    );
    assert_eq!(
        load_session_reply(Err("pool down".to_string())),
        Err(HttpError { status: 500, message: "pool down".to_string() })
    );
    assert_eq!(
        load_session_reply(Ok(None)),
        Err(HttpError { status: 404, message: "Session not found".to_string() })
    );
    let v = SessionApi.load_session(Some(3));
    assert!(v.exists);
    assert_eq!(v.entries, Some(3));
    let v = SessionApi.load_session::<u8>(None);
    assert!(!v.exists);
    assert_eq!(v.entries, None);
}

#[test]
fn expiries() {
    assert_eq!(stored_expiry(0, 99), 99);
    assert_eq!(stored_expiry(5, 99), 5);
    assert_eq!(stored_expiry(u64::MAX, 99), -1);
    assert_eq!(update_session_expiry(1234), 1234);
    let now = std::time::SystemTime::now()
        .duration_since(std::time::UNIX_EPOCH)
        .unwrap()
        .as_secs() as i64;
    let year_ahead = update_session_expiry(0);
    assert!(year_ahead >= now + 31_536_000 - 5 && year_ahead <= now + 31_536_000 + 5);
    let default = get_default_expires_value() as i64;
    assert!(default >= now + 31_536_000 - 5 && default <= now + 31_536_000 + 5);
}

#[test]
fn hot_version_text() {
    assert_eq!(HotVersion { data: 1700000000 }.loaded_version(), "1700000000");
    assert_eq!(HotVersion { data: -5 }.loaded_version(), "-5");
    let v = HotVersion::now();
    let now = std::time::SystemTime::now()
        .duration_since(std::time::UNIX_EPOCH)
        .unwrap()
        .as_secs() as i64;
    assert!(v.data <= now && v.data >= now - 5);
    assert_eq!(v.loaded_version(), v.data.to_string());
}

#[test]
fn unwound_errors() {
    assert_eq!(
        get_unwound_error(PanicPayload::Message("boom".to_string())).message,
        "Unhandled Error: \"boom\""
    );
    assert_eq!(
        get_unwound_error(PanicPayload::Message("say \"hi\"\n".to_string())).message,
        "Unhandled Error: \"say \\\"hi\\\"\\n\""
    );
    assert_eq!(
        get_unwound_error(PanicPayload::Other).message,
        "Unhandled Error: Any { .. }"
    );
}

#[test]
fn unwound_error_of_another_payload_reads_as_its_debug_text() {
    let payload: Box<dyn std::any::Any + Send> = Box::new(42u8);
    assert_eq!(
        get_unwound_error(PanicPayload::Other).message,
        format!("Unhandled Error: {:?}", payload)
    );
}

#[test]
fn shutdown_notices() {
    assert_eq!(shutdown_message(true), "received shutdown_server signal, time to shut down");
    assert_eq!(shutdown_message(false), "shutdown_server listening channel closed");
}

#[test]
fn spec_document_headers() {
    assert_eq!(SpecFormat::Json.content_type(), "application/json");
    assert_eq!(SpecFormat::Yaml.content_type(), "application/x-yaml");
    assert_eq!(SpecFormat::Json.content_disposition(), "inline; filename=\"swagger.json\"");
    assert_eq!(SpecFormat::Yaml.content_disposition(), "inline; filename=\"swagger.yaml\"");
}

#[test]
fn storage_replies() {
    assert_eq!(storage_reply::<i64>(Ok(3)), Ok(3));
    assert_eq!(
        storage_reply::<i64>(Err("db down".to_string())),
        Err(HttpError { status: 500, message: "db down".to_string() })
    );
    assert_eq!(HttpError::internal("x".to_string()).status, 500);
}

#[test]
fn settings() {
    assert_eq!(required_setting("HOST", Some("localhost".to_string())), Ok("localhost".to_string()));
    let err = required_setting("DATABASE_URL", None).unwrap_err();
    assert_eq!(err, MissingSetting { name: "DATABASE_URL".to_string() });
    assert_eq!(err.message(), "DATABASE_URL is not set");
    assert_eq!((MAX_DB_CONNECTIONS, MIN_DB_CONNECTIONS), (100, 0));
}

#[test]
fn api_urls() {
    assert_eq!(api_service_url("http://127.0.0.1:8000"), "http://127.0.0.1:8000/api");
}

#[test]
fn session_store_answers() {
    assert_eq!(CountResponse { count: 0 }.count, 0);
    assert_eq!(LoadResponse { value: Some(String::new()) }.value, Some(String::new()));
    assert!(!ExistsResponse { value: false }.value);
}

#[test]
fn counters_count_visits() {
    let mut previous = None;
    for visit in 1..=5usize {
        let (counter, hello) = index::index(previous);
        assert_eq!(counter, visit);
        assert_eq!(hello, format!("hello world! {visit}"));
        previous = Some(counter);
    }
    let mut previous = None;
    for visit in 1..=5usize {
        let (counter, hello) = poem_index::index(previous);
        assert_eq!(counter, visit - 1);
        assert_eq!(hello, format!("hello world! {}", visit - 1));
        previous = Some(counter);
    }
}

#[test]
fn api_key_checks() {
    assert_eq!(session_for_api_key(Some(Ok(Some(7)))), Some(7));
    assert_eq!(session_for_api_key::<i32>(Some(Ok(None))), None);
    assert_eq!(session_for_api_key::<i32>(Some(Err("down".to_string()))), None);
    assert_eq!(session_for_api_key::<i32>(None), None);
    assert_eq!(session_or_default_for_api_key(Some(Ok(Some(7)))), Some(Some(7)));
    assert_eq!(session_or_default_for_api_key::<i32>(Some(Ok(None))), Some(None));
    assert_eq!(session_or_default_for_api_key::<i32>(Some(Err("down".to_string()))), None);
    assert_eq!(session_or_default_for_api_key::<i32>(None), None);
}

#[test]
fn update_session_requests() {
    let request = update_session("abc".to_string(), 77, Ok("{\"a\":1}".to_string())).unwrap();
    assert_eq!(request.id, "fe_abc");
    assert_eq!(request.session, "{\"a\":1}");
    assert_eq!(request.expires, 77);
    let request = update_session("abc".to_string(), 0, Ok("{}".to_string())).unwrap();
    assert!(request.expires >= 31_536_000);
    assert_eq!(
        update_session("abc".to_string(), 5, Err("bad map".to_string())),
        Err(HttpError { status: 500, message: "bad map".to_string() })
    );
    assert_eq!(write_reply(Ok(())), Ok(()));
    assert_eq!(
        write_reply(Err("store down".to_string())),
        Err(HttpError { status: 500, message: "store down".to_string() })
    );
}

#[test]
fn read_after_write_and_remove() {
    let mut store: std::collections::HashMap<String, String> = std::collections::HashMap::new();
    let request = update_session("sid".to_string(), 9, Ok("{\"x\":true}".to_string())).unwrap();
    store.insert(request.id.clone(), request.session.clone());
    let key = hotserver::server::routes::api::session::frontend_session_id("sid".to_string());
    assert_eq!(load_session_reply(Ok(store.get(&key).cloned())).unwrap().body, "{\"x\":true}");
    store.remove(&key);
    assert_eq!(
        load_session_reply(Ok(store.get(&key).cloned())),
        Err(HttpError { status: 404, message: "Session not found".to_string() })
    );
}
