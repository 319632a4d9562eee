//! The authentication state machine over the session store and the login
//! request builder.
//!
//! A manager owns one store and one (endpoint, user) pair. A login is a
//! two-step exchange: `login` decides whether a network call may start,
//! builds the exact URL for it and moves to `Authenticating`; the caller's
//! transport performs the call within its own time bound and hands the
//! outcome, as plain values, to `complete_login`, which persists a won
//! session or records the failure. At most one login per pair is in flight:
//! a second `login` while one is pending is refused rather than silently
//! issuing a parallel remote request.

use vstd::prelude::*;
use vstd::string::StrSliceExecFns;
use vstd::string::StringExecFns;

use crate::synology_api::authentication_database::AuthenticationDatabase;
use crate::synology_api::authentication_database::AuthenticationDatabaseError;
use crate::synology_api::login_request::build_login_url;
use crate::synology_api::login_request::login_url;

verus! {

/// A user's login data: the secret is held only for the duration of a login
/// attempt and is never rendered by `describe`.
pub struct Credential {
    pub username: String,
    pub password: String,
    pub device_id: Option<String>,
}

impl Credential {
    pub fn new(username: String, password: String) -> (r: Self)
        ensures
            r.username == username,
            r.password == password,
            r.device_id is None,
    {
        Self::new_with_device_id(username, password, None)
    }

    pub fn new_with_device_id(username: String, password: String, device_id: Option<String>) -> (r:
        Self)
        ensures
            r.username == username,
            r.password == password,
            r.device_id == device_id,
    {
        Self { username, password, device_id }
    }

    /// A rendering that is safe for logs: it shows the username and whether
    /// a device pairing id is present, and redacts the secret.
    pub fn describe(&self) -> (r: String)
        ensures
            r@ == "Credential { username: "@ + self.username@
                + ", password: <redacted>, device_id present: "@ + (if self.device_id is Some {
                "true"@
            } else {
                "false"@
            }) + " }"@,
    {
        let mut text = "Credential { username: ".to_owned();
        text.append(self.username.as_str());
        text.append(", password: <redacted>, device_id present: ");
        match &self.device_id {
            Some(_) => text.append("true"),
            None => text.append("false"),
        }
        text.append(" }");
        proof {
            assert(text@ =~= "Credential { username: "@ + self.username@
                + ", password: <redacted>, device_id present: "@ + (if self.device_id is Some {
                "true"@
            } else {
                "false"@
            }) + " }"@);
        }
        text
    }
}

/// The states of the login state machine.
#[derive(Clone, Copy, PartialEq, Eq, Structural, Debug)]
pub enum AuthenticationState {
    Unauthenticated,
    Authenticating,
    Authenticated,
    LoginFailed,
}

/// Errors of the authentication manager.
#[derive(Debug)]
pub enum AuthenticationManagerError {
    AuthenticationDatabaseError(AuthenticationDatabaseError),
    /// A login for this manager's pair is already in flight.
    LoginInProgress,
    /// A login was asked for while a valid session already exists.
    AlreadyAuthenticated,
    /// A login outcome was handed in while no login was in flight.
    NoLoginInProgress,
    /// A logout was asked for without a valid session.
    NotAuthenticated,
    /// The remote service rejected the username or the password.
    InvalidCredentials,
    /// The remote service demands a one-time code and none was supplied.
    OneTimeCodeRequired,
    /// The remote service rejected the supplied one-time code.
    OneTimeCodeRejected,
    /// The remote service could not be reached or answered malformed data.
    NetworkFailure,
    /// The login attempt exceeded the caller's time bound.
    TimedOut,
}

/// What a performed login call came back with, as plain values.
pub enum LoginOutcome {
    /// The remote service accepted the login and issued a session token and,
    /// possibly, a new device pairing id.
    Success { token: String, device_id: Option<String> },
    InvalidCredentials,
    OneTimeCodeRequired,
    OneTimeCodeRejected,
    NetworkFailure,
    TimedOut,
}

/// The device pairing id a login call should carry: the one the caller's
/// credential brings, or else the one the store remembers for the pair.
pub open spec fn effective_device_id(
    credential_device_id: Option<Seq<char>>,
    records: Map<(Seq<char>, Seq<char>), (Option<Seq<char>>, Seq<char>)>,
    pair: (Seq<char>, Seq<char>),
) -> Option<Seq<char>> {
    match credential_device_id {
        Some(d) => Some(d),
        None => if records.contains_key(pair) {
            records[pair].0
        } else {
            None
        },
    }
}

/// The pairing id a won session keeps: the newly issued one when the
/// remote sent one, else the id that was already known when the login
/// started — a pairing, once held, is never dropped by a successful login.
pub open spec fn persisted_device_id(
    issued: Option<Seq<char>>,
    known: Option<Seq<char>>,
) -> Option<Seq<char>> {
    match issued {
        Some(d) => Some(d),
        None => known,
    }
}

/// Drives login, logout and the authentication check for one (endpoint,
/// user) pair, over one owned session store.
pub struct AuthenticationManager {
    pub database: AuthenticationDatabase,
    pub url: String,
    pub user: String,
    pub device_name: String,
    pub state: AuthenticationState,
    /// The pairing id the login in flight was sent with, kept so that a
    /// success that issues no new id does not lose it.
    pub pending_device_id: Option<String>,
}

impl AuthenticationManager {
    /// The store key this manager answers for.
    pub open spec fn pair(self) -> (Seq<char>, Seq<char>) {
        (self.url@, self.user@)
    }

    /// Builds a manager that owns `database` and answers for the (url,
    /// user) pair; the initial state says whether a session for the pair
    /// already exists in the store. `device_name` is the stable label of
    /// this installation, resolved once by the caller at process start.
    pub fn new(url: String, user: String, device_name: String, database: AuthenticationDatabase)
        -> (r: Result<Self, AuthenticationManagerError>)
        ensures
            r matches Ok(m) ==> m.url == url && m.user == user && m.device_name == device_name
                && m.database == database,
            r matches Ok(m) ==> (m.state is Authenticated <==> database.records().contains_key(
                (url@, user@),
            )),
            r matches Ok(m) ==> m.state is Authenticated || m.state is Unauthenticated,
            r matches Ok(m) ==> m.pending_device_id is None,
            r matches Err(e) ==> e is AuthenticationDatabaseError,
    {
        let logged_in = match database.is_logged_in(url.as_str(), user.as_str()) {
            Ok(b) => b,
            Err(e) => return Err(AuthenticationManagerError::AuthenticationDatabaseError(e)),
        };
        let state = if logged_in {
            AuthenticationState::Authenticated
        } else {
            AuthenticationState::Unauthenticated
        };
        Ok(AuthenticationManager { database, url, user, device_name, state, pending_device_id: None })
    }

    /// Re-evaluates the store: true iff a session record exists for the
    /// pair. No network call is made and nothing changes.
    pub fn is_authenticated(&self) -> (r: Result<bool, AuthenticationManagerError>)
        ensures
            r matches Ok(b) ==> b == self.database.records().contains_key(self.pair()),
            r matches Err(e) ==> e is AuthenticationDatabaseError,
    {
        match self.database.is_logged_in(self.url.as_str(), self.user.as_str()) {
            Ok(b) => Ok(b),
            Err(e) => Err(AuthenticationManagerError::AuthenticationDatabaseError(e)),
        }
    }

    /// Starts a login. Valid only while no session exists and none is in
    /// flight: a pending login is refused as `LoginInProgress`, a live
    /// session as `AlreadyAuthenticated`. On acceptance the manager moves
    /// to `Authenticating`, remembers the pairing id the call carries, and
    /// returns the exact URL of the remote call to perform; the pairing id
    /// is the credential's or, failing that, the stored one. Nothing is
    /// written to the store here, and the only way to fail from a ready
    /// state is the store read for a pairing id: with the credential's own
    /// id the call succeeds.
    pub fn login(
        &mut self,
        credential: &Credential,
        enable_device_token: bool,
        otp_code: Option<String>,
    ) -> (r: Result<String, AuthenticationManagerError>)
        ensures
            final(self).database == old(self).database,
            final(self).url == old(self).url,
            final(self).user == old(self).user,
            final(self).device_name == old(self).device_name,
            old(self).state is Authenticating ==> (r matches Err(e) && e is LoginInProgress)
                && *final(self) == *old(self),
            old(self).state is Authenticated ==> (r matches Err(e) && e is AlreadyAuthenticated)
                && *final(self) == *old(self),
            old(self).state is Unauthenticated || old(self).state is LoginFailed ==> (r matches Ok(
                u,
            ) ==> final(self).state is Authenticating && u@ == login_url(
                old(self).url@,
                credential.username@,
                credential.password@,
                old(self).device_name@,
                enable_device_token,
                effective_device_id(
                    credential.device_id.deep_view(),
                    old(self).database.records(),
                    old(self).pair(),
                ),
                otp_code.deep_view(),
            )),
            old(self).state is Unauthenticated || old(self).state is LoginFailed ==> (r is Ok
                ==> final(self).pending_device_id.deep_view() == effective_device_id(
                credential.device_id.deep_view(),
                old(self).database.records(),
                old(self).pair(),
            )),
            (old(self).state is Unauthenticated || old(self).state is LoginFailed)
                && credential.device_id is Some ==> r is Ok,
            old(self).state is Unauthenticated || old(self).state is LoginFailed ==> (r matches Err(
                e,
            ) ==> e is AuthenticationDatabaseError && final(self).state is LoginFailed
                && credential.device_id is None),
    {
        match self.state {
            AuthenticationState::Authenticating => {
                return Err(AuthenticationManagerError::LoginInProgress);
            },
            AuthenticationState::Authenticated => {
                return Err(AuthenticationManagerError::AlreadyAuthenticated);
            },
            _ => {},
        }
        let device_id: Option<String> = match &credential.device_id {
            Some(d) => Some(d.clone()),
            None => match self.database.get_device_id(self.url.as_str(), self.user.as_str()) {
                Ok(d) => d,
                Err(e) => {
                    self.state = AuthenticationState::LoginFailed;
                    return Err(AuthenticationManagerError::AuthenticationDatabaseError(e));
                },
            },
        };
        let request_url = build_login_url(
            self.url.as_str(),
            credential.username.as_str(),
            credential.password.as_str(),
            self.device_name.as_str(),
            enable_device_token,
            &device_id,
            &otp_code,
        );
        self.pending_device_id = device_id;
        self.state = AuthenticationState::Authenticating;
        Ok(request_url)
    }

    /// Finishes the login in flight with what the remote call came back
    /// with. On success the issued token is persisted as the pair's one
    /// record together with the newly issued pairing id — or, when the
    /// remote issued none, the id the login was sent with, so a held
    /// pairing is never lost — and the manager is `Authenticated`. On
    /// every failure, a timeout included, nothing is written to the store,
    /// the manager is `LoginFailed`, and the matching error is returned so
    /// the caller may decide to retry. Without a login in flight the
    /// outcome is refused as `NoLoginInProgress`.
    pub fn complete_login(&mut self, outcome: LoginOutcome) -> (r: Result<
        (),
        AuthenticationManagerError,
    >)
        ensures
            final(self).url == old(self).url,
            final(self).user == old(self).user,
            final(self).device_name == old(self).device_name,
            !(old(self).state is Authenticating) ==> (r matches Err(e) && e is NoLoginInProgress)
                && *final(self) == *old(self),
            outcome matches LoginOutcome::Success { token, device_id } ==> (old(self).state
                is Authenticating ==> (r is Ok ==> final(self).state is Authenticated
                && final(self).database.records() == old(self).database.records().insert(
                old(self).pair(),
                (
                    persisted_device_id(
                        device_id.deep_view(),
                        old(self).pending_device_id.deep_view(),
                    ),
                    token@,
                ),
            ) && final(self).database.version() == old(self).database.version())),
            old(self).state is Authenticating && outcome is Success ==> (r matches Err(e) ==> e
                is AuthenticationDatabaseError && final(self).state is LoginFailed
                && final(self).database == old(self).database),
            old(self).state is Authenticating && !(outcome is Success) ==> r is Err
                && final(self).state is LoginFailed && final(self).database == old(self).database,
            old(self).state is Authenticating && outcome is InvalidCredentials ==> (r matches Err(e)
                && e is InvalidCredentials),
            old(self).state is Authenticating && outcome is OneTimeCodeRequired ==> (r matches Err(
                e,
            ) && e is OneTimeCodeRequired),
            old(self).state is Authenticating && outcome is OneTimeCodeRejected ==> (r matches Err(
                e,
            ) && e is OneTimeCodeRejected),
            old(self).state is Authenticating && outcome is NetworkFailure ==> (r matches Err(e)
                && e is NetworkFailure),
            old(self).state is Authenticating && outcome is TimedOut ==> (r matches Err(e) && e
                is TimedOut),
    {
        match self.state {
            AuthenticationState::Authenticating => {},
            _ => {
                return Err(AuthenticationManagerError::NoLoginInProgress);
            },
        }
        match outcome {
            LoginOutcome::Success { token, device_id } => {
                let kept_device_id: Option<String> = match device_id {
                    Some(d) => Some(d),
                    None => match &self.pending_device_id {
                        Some(d) => Some(d.clone()),
                        None => None,
                    },
                };
                match self.database.save_session(
                    self.url.as_str(),
                    self.user.as_str(),
                    &kept_device_id,
                    token.as_str(),
                ) {
                    Ok(()) => {
                        self.state = AuthenticationState::Authenticated;
                        Ok(())
                    },
                    Err(e) => {
                        self.state = AuthenticationState::LoginFailed;
                        Err(AuthenticationManagerError::AuthenticationDatabaseError(e))
                    },
                }
            },
            LoginOutcome::InvalidCredentials => {
                self.state = AuthenticationState::LoginFailed;
                Err(AuthenticationManagerError::InvalidCredentials)
            },
            LoginOutcome::OneTimeCodeRequired => {
                self.state = AuthenticationState::LoginFailed;
                Err(AuthenticationManagerError::OneTimeCodeRequired)
            },
            LoginOutcome::OneTimeCodeRejected => {
                self.state = AuthenticationState::LoginFailed;
                Err(AuthenticationManagerError::OneTimeCodeRejected)
            },
            LoginOutcome::NetworkFailure => {
                self.state = AuthenticationState::LoginFailed;
                Err(AuthenticationManagerError::NetworkFailure)
            },
            LoginOutcome::TimedOut => {
                self.state = AuthenticationState::LoginFailed;
                Err(AuthenticationManagerError::TimedOut)
            },
        }
    }

    /// Ends the session. Valid only while authenticated; otherwise refused
    /// as `NotAuthenticated`. The persisted record for the pair is cleared
    /// and the manager returns to `Unauthenticated`. Only the local scrub
    /// happens here: remote invalidation is the caller's transport concern,
    /// and its failure is a non-fatal warning that must not undo the scrub.
    pub fn logout(&mut self) -> (r: Result<(), AuthenticationManagerError>)
        ensures
            final(self).url == old(self).url,
            final(self).user == old(self).user,
            final(self).device_name == old(self).device_name,
            !(old(self).state is Authenticated) ==> (r matches Err(e) && e is NotAuthenticated)
                && *final(self) == *old(self),
            old(self).state is Authenticated ==> (r is Ok ==> final(self).state is Unauthenticated
                && final(self).database.records() == old(self).database.records().remove(
                old(self).pair(),
            ) && final(self).database.version() == old(self).database.version()),
            old(self).state is Authenticated ==> (r matches Err(e) ==> e
                is AuthenticationDatabaseError && *final(self) == *old(self)),
    {
        match self.state {
            AuthenticationState::Authenticated => {},
            _ => {
                return Err(AuthenticationManagerError::NotAuthenticated);
            },
        }
        match self.database.clear_session(self.url.as_str(), self.user.as_str()) {
            Ok(()) => {
                self.state = AuthenticationState::Unauthenticated;
                Ok(())
            },
            Err(e) => Err(AuthenticationManagerError::AuthenticationDatabaseError(e)),
        }
    }
}

} // verus!

