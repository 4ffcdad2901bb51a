pub mod clock;
pub mod codec;
pub mod constants;
pub mod flow;
pub mod handler;
pub mod helpers;
pub mod jwt;
pub mod laws;
pub mod model;
pub mod services;
pub mod store;
pub mod types;

pub use store::{CredentialStore, StoreReply, StoreRequest};
pub use clock::Timestamp;
pub use flow::{Action, Event};
pub use jwt::JwtAuth;
pub use model::{Credentials, CredentialsPayload, In};
pub use types::{Claims, ResponseRefreshToken, ResponseSignin, ServiceOkRefreshToken, ServiceOkSignin};
