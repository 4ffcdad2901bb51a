//! Token lifecycle for an account service with one session per account:
//! sign-in issues an access token and a refresh token, refresh signs both anew
//! while the refresh token keeps its expiry, logout clears the stored refresh
//! token, and a guard admits requests that carry a live access token.
//!
//! Each operation is a state machine. It says which request it wants put to
//! the store ([`auth::StoreRequest`]), takes the reply ([`auth::StoreReply`])
//! and says what it wants next, until it finishes with a result. What holds
//! the records is up to the caller; [`auth::CredentialStore`] holds them in
//! memory, gives the requests their meaning, and is what the operations are
//! proved against in [`auth::laws`].
//!
//! [`user`] holds the rules and the operations for the users behind the
//! accounts, [`text`] what both need of texts.

pub mod auth;
pub mod errors;
pub mod ping;
pub mod text;
pub mod types;
pub mod user;

pub use errors::{AppError, AppErrorMessage};
pub use types::AppState;
