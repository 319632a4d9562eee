use synology_filestation_tools::synology_api::login_request::build_device_name;
use synology_filestation_tools::synology_api::login_request::build_login_url;

#[test]
fn basic_request_has_no_optional_parameters() {
    let url = build_login_url(
        "https://nas.example.com:5001",
        "bob@example.com",
        "p@ss word!",
        "myhost::synology_fuse",
        false,
        &None,
        &None,
    );
    assert_eq!(
        url,
        "https://nas.example.com:5001/webapi/entry.cgi?api=SYNO.API.Auth&version=6&method=login\
         &account=bob%40example.com&passwd=p%40ss%20word%21&device_name=myhost%3A%3Asynology_fuse\
         &session=FileStation"
    );
    assert!(!url.contains("enable_device_token"));
    assert!(!url.contains("device_id"));
    assert!(!url.contains("otp_code"));
}

#[test]
fn known_device_id_is_appended() {
    let url = build_login_url(
        "https://nas.example.com:5001",
        "bob@example.com",
        "p@ss word!",
        "myhost::synology_fuse",
        false,
        &Some("abc123".to_string()),
        &None,
    );
    assert!(url.ends_with("&session=FileStation&device_id=abc123"));
    assert!(!url.contains("otp_code"));
    assert!(!url.contains("enable_device_token"));
}

#[test]
fn otp_code_comes_after_device_id() {
    let url = build_login_url(
        "https://nas.example.com:5001",
        "bob@example.com",
        "p@ss word!",
        "myhost::synology_fuse",
        false,
        &Some("abc123".to_string()),
        &Some("654321".to_string()),
    );
    assert!(url.ends_with("&device_id=abc123&otp_code=654321"));
}

#[test]
fn otp_code_alone_is_appended() {
    let url = build_login_url(
        "https://nas.example.com:5001",
        "bob@example.com",
        "p@ss word!",
        "myhost::synology_fuse",
        false,
        &None,
        &Some("654321".to_string()),
    );
    assert!(url.ends_with("&session=FileStation&otp_code=654321"));
    assert!(!url.contains("device_id"));
}

#[test]
fn device_token_request_precedes_device_id() {
    let url = build_login_url(
        "https://nas.example.com:5001",
        "bob",
        "pw",
        "h::e",
        true,
        &Some("abc123".to_string()),
        &None,
    );
    assert!(url.ends_with("&session=FileStation&enable_device_token=yes&device_id=abc123"));
}

#[test]
fn unreserved_characters_stay_unencoded() {
    let url = build_login_url("http://e", "Ab9-._~", "x", "d", false, &None, &None);
    assert!(url.contains("&account=Ab9-._~&"));
}

#[test]
fn reserved_characters_use_uppercase_hex() {
    let url = build_login_url("http://e", "a/b", "x?y", "d", false, &None, &None);
    assert!(url.contains("&account=a%2Fb&"));
    assert!(url.contains("&passwd=x%3Fy&"));
}

#[test]
fn multibyte_characters_encode_each_byte() {
    let url = build_login_url("http://e", "ré", "x", "d", false, &None, &None);
    assert!(url.contains("&account=r%C3%A9&"));
}

#[test]
fn device_name_joins_host_and_executable() {
    assert_eq!(build_device_name("myhost", "synology_fuse"), "myhost::synology_fuse");
    assert_eq!(build_device_name("", "tool"), "::tool");
}
