//! The session manager: persistent session store, login-request builder and
//! the authentication state machine.

pub mod authentication_database;
pub mod authentication_manager;
pub mod login_request;
pub mod login_response;

pub use authentication_database::AuthenticationDatabase;
pub use authentication_database::AuthenticationDatabaseError;
pub use authentication_manager::AuthenticationManager;
pub use authentication_manager::AuthenticationManagerError;
pub use authentication_manager::AuthenticationState;
pub use authentication_manager::Credential;
pub use authentication_manager::LoginOutcome;
pub use login_response::interpret_login_response;
