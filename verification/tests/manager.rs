use synology_filestation_tools::synology_api::AuthenticationDatabase;
use synology_filestation_tools::synology_api::AuthenticationManager;
use synology_filestation_tools::synology_api::AuthenticationManagerError;
use synology_filestation_tools::synology_api::Credential;
use synology_filestation_tools::synology_api::LoginOutcome;

fn fresh_manager() -> AuthenticationManager {
    let db = AuthenticationDatabase::new_in_memory().unwrap();
    AuthenticationManager::new(
        "https://nas.example.com:5001".to_string(),
        "bob@example.com".to_string(),
        "myhost::synology_fuse".to_string(),
        db,
    )
    .unwrap()
}

fn credential() -> Credential {
    Credential::new("bob@example.com".to_string(), "p@ss word!".to_string())
}

#[test]
fn fresh_manager_is_unauthenticated() {
    let manager = fresh_manager();
    assert!(!manager.is_authenticated().unwrap());
}

#[test]
fn login_returns_the_exact_request_url() {
    let mut manager = fresh_manager();
    let url = manager.login(&credential(), false, None).unwrap();
    assert_eq!(
        url,
        "https://nas.example.com:5001/webapi/entry.cgi?api=SYNO.API.Auth&version=6&method=login\
         &account=bob%40example.com&passwd=p%40ss%20word%21&device_name=myhost%3A%3Asynology_fuse\
         &session=FileStation"
    );
}

#[test]
fn second_login_while_one_is_pending_is_refused() {
    let mut manager = fresh_manager();
    manager.login(&credential(), false, None).unwrap();
    let second = manager.login(&credential(), false, None);
    assert!(matches!(second, Err(AuthenticationManagerError::LoginInProgress)));
    let outcome = LoginOutcome::Success {
        token: "tok".to_string(),
        device_id: Some("newdev".to_string()),
    };
    manager.complete_login(outcome).unwrap();
    assert!(manager.is_authenticated().unwrap());
    assert_eq!(
        manager.database.get_device_id("https://nas.example.com:5001", "bob@example.com").unwrap(),
        Some("newdev".to_string())
    );
}

#[test]
fn login_while_authenticated_is_refused() {
    let mut manager = fresh_manager();
    manager.login(&credential(), false, None).unwrap();
    manager
        .complete_login(LoginOutcome::Success { token: "tok".to_string(), device_id: None })
        .unwrap();
    let again = manager.login(&credential(), false, None);
    assert!(matches!(again, Err(AuthenticationManagerError::AlreadyAuthenticated)));
}

#[test]
fn timed_out_login_leaves_no_session() {
    let mut manager = fresh_manager();
    manager.login(&credential(), false, None).unwrap();
    let r = manager.complete_login(LoginOutcome::TimedOut);
    assert!(matches!(r, Err(AuthenticationManagerError::TimedOut)));
    assert!(!manager.is_authenticated().unwrap());
}

#[test]
fn failed_outcomes_surface_their_error_and_allow_retry() {
    let mut manager = fresh_manager();
    manager.login(&credential(), false, None).unwrap();
    let r = manager.complete_login(LoginOutcome::InvalidCredentials);
    assert!(matches!(r, Err(AuthenticationManagerError::InvalidCredentials)));
    assert!(!manager.is_authenticated().unwrap());
    manager.login(&credential(), false, None).unwrap();
    let r = manager.complete_login(LoginOutcome::OneTimeCodeRequired);
    assert!(matches!(r, Err(AuthenticationManagerError::OneTimeCodeRequired)));
    manager.login(&credential(), false, None).unwrap();
    let r = manager.complete_login(LoginOutcome::OneTimeCodeRejected);
    assert!(matches!(r, Err(AuthenticationManagerError::OneTimeCodeRejected)));
    manager.login(&credential(), false, None).unwrap();
    let r = manager.complete_login(LoginOutcome::NetworkFailure);
    assert!(matches!(r, Err(AuthenticationManagerError::NetworkFailure)));
    assert!(!manager.is_authenticated().unwrap());
}

#[test]
fn outcome_without_pending_login_is_refused() {
    let mut manager = fresh_manager();
    let r = manager
        .complete_login(LoginOutcome::Success { token: "tok".to_string(), device_id: None });
    assert!(matches!(r, Err(AuthenticationManagerError::NoLoginInProgress)));
    assert!(!manager.is_authenticated().unwrap());
}

#[test]
fn logout_without_session_is_refused() {
    let mut manager = fresh_manager();
    let r = manager.logout();
    assert!(matches!(r, Err(AuthenticationManagerError::NotAuthenticated)));
}

#[test]
fn logout_clears_the_persisted_session() {
    let mut manager = fresh_manager();
    manager.login(&credential(), false, None).unwrap();
    manager
        .complete_login(LoginOutcome::Success { token: "tok".to_string(), device_id: None })
        .unwrap();
    assert!(manager.is_authenticated().unwrap());
    manager.logout().unwrap();
    assert!(!manager.is_authenticated().unwrap());
}

#[test]
fn login_uses_the_stored_device_id() {
    let mut manager = fresh_manager();
    manager
        .database
        .save_session(
            "https://nas.example.com:5001",
            "bob@example.com",
            &Some("abc123".to_string()),
            "tok",
        )
        .unwrap();
    let url = manager.login(&credential(), false, None).unwrap();
    assert!(url.ends_with("&device_id=abc123"));
}

#[test]
fn credential_device_id_wins_over_the_stored_one() {
    let mut manager = fresh_manager();
    let credential = Credential::new_with_device_id(
        "bob@example.com".to_string(),
        "pw".to_string(),
        Some("fromcred".to_string()),
    );
    let url = manager.login(&credential, false, None).unwrap();
    assert!(url.ends_with("&device_id=fromcred"));
}

#[test]
fn describe_redacts_the_password() {
    let credential = Credential::new("bob@example.com".to_string(), "hunter2".to_string());
    let text = credential.describe();
    assert!(text.contains("bob@example.com"));
    assert!(!text.contains("hunter2"));
    assert!(text.contains("<redacted>"));
    assert_eq!(
        text,
        "Credential { username: bob@example.com, password: <redacted>, device_id present: false }"
    );
}

#[test]
fn constructors_carry_their_fields() {
    let c = Credential::new("u".to_string(), "p".to_string());
    assert_eq!(c.username, "u");
    assert_eq!(c.password, "p");
    assert_eq!(c.device_id, None);
    let c = Credential::new_with_device_id("u".to_string(), "p".to_string(), Some("d".to_string()));
    assert_eq!(c.device_id, Some("d".to_string()));
}

#[test]
fn success_without_new_id_keeps_credential_device_id() {
    let mut manager = fresh_manager();
    let credential = Credential::new_with_device_id(
        "bob@example.com".to_string(),
        "pw".to_string(),
        Some("abc123".to_string()),
    );
    manager.login(&credential, false, None).unwrap();
    manager
        .complete_login(LoginOutcome::Success { token: "tok".to_string(), device_id: None })
        .unwrap();
    assert_eq!(
        manager.database.get_device_id("https://nas.example.com:5001", "bob@example.com").unwrap(),
        Some("abc123".to_string())
    );
}

#[test]
fn success_without_new_id_keeps_stored_device_id() {
    let mut manager = fresh_manager();
    manager
        .database
        .save_session(
            "https://nas.example.com:5001",
            "bob@example.com",
            &Some("stored7".to_string()),
            "oldtok",
        )
        .unwrap();
    manager.login(&credential(), false, None).unwrap();
    manager
        .complete_login(LoginOutcome::Success { token: "newtok".to_string(), device_id: None })
        .unwrap();
    assert_eq!(
        manager.database.get_device_id("https://nas.example.com:5001", "bob@example.com").unwrap(),
        Some("stored7".to_string())
    );
}

#[test]
fn newly_issued_device_id_replaces_the_known_one() {
    let mut manager = fresh_manager();
    let credential = Credential::new_with_device_id(
        "bob@example.com".to_string(),
        "pw".to_string(),
        Some("abc123".to_string()),
    );
    manager.login(&credential, false, None).unwrap();
    manager
        .complete_login(LoginOutcome::Success {
            token: "tok".to_string(),
            device_id: Some("fresh9".to_string()),
        })
        .unwrap();
    assert_eq!(
        manager.database.get_device_id("https://nas.example.com:5001", "bob@example.com").unwrap(),
        Some("fresh9".to_string())
    );
}
