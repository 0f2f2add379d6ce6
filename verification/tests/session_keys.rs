use hotserver::server::routes::api::session::frontend_session_id;
use hotserver::server::session::{cookie_key_bytes, CookieKeyError};
use hotserver::session_id::{generate_session_id, session_id_of, SESSION_ID_BYTES};

#[test]
fn generated_ids_have_the_shape_of_32_bytes_in_base64() {
    let id = generate_session_id();
    assert_eq!(id.len(), 43);
    assert!(id.chars().all(|c| c.is_ascii_alphanumeric() || c == '-' || c == '_'));
    let decoded = cookie_key_bytes(Some(id)).expect("an id decodes");
    assert_eq!(decoded.len(), SESSION_ID_BYTES);
}

#[test]
fn generated_ids_differ() {
    assert_ne!(generate_session_id(), generate_session_id());
}

#[test]
fn frontend_key_has_the_prefix() {
    assert_eq!(frontend_session_id("abc".to_string()), "fe_abc");
    assert_eq!(frontend_session_id(String::new()), "fe_");
}

#[test]
fn cookie_key_missing() {
    assert_eq!(cookie_key_bytes(None), Err(CookieKeyError::NotSet));
    assert_eq!(CookieKeyError::NotSet.message(), "COOKIE_KEY is not set");
}

#[test]
fn cookie_key_not_base64() {
    assert_eq!(cookie_key_bytes(Some("!!!!".to_string())), Err(CookieKeyError::NotBase64));
    assert_eq!(cookie_key_bytes(Some("aGVsbG8=".to_string())), Err(CookieKeyError::NotBase64));
    assert_eq!(cookie_key_bytes(Some("a+b/".to_string())), Err(CookieKeyError::NotBase64));
    assert_eq!(CookieKeyError::NotBase64.message(), "COOKIE_KEY not base64");
}

#[test]
fn cookie_key_decodes() {
    assert_eq!(
        cookie_key_bytes(Some("aGVsbG8gaW50ZXJuZXR-Cg".to_string())),
        Ok(b"hello internet~\n".to_vec())
    );
    assert_eq!(cookie_key_bytes(Some(String::new())), Ok(Vec::new()));
}

#[test]
fn cookie_key_decoding_is_canonical() {
    assert_eq!(cookie_key_bytes(Some("AA".to_string())), Ok(vec![0]));
    assert_eq!(cookie_key_bytes(Some("AB".to_string())), Err(CookieKeyError::NotBase64));
    assert_eq!(cookie_key_bytes(Some("A".to_string())), Err(CookieKeyError::NotBase64));
    assert_eq!(cookie_key_bytes(Some("_-8".to_string())), Ok(vec![0xff, 0xef]));
    assert_eq!(cookie_key_bytes(Some("AAA=".to_string())), Err(CookieKeyError::NotBase64));
}

#[test]
fn session_id_of_known_bytes() {
    assert_eq!(session_id_of(&[0u8; 32]), "A".repeat(43));
    let mut bytes = [0u8; 32];
    bytes[0] = 0xfb;
    bytes[31] = 0xff;
    let id = session_id_of(&bytes);
    assert!(id.starts_with("-w"));
    assert!(id.ends_with("AP8"));
    assert_eq!(cookie_key_bytes(Some(id)), Ok(bytes.to_vec()));
}
