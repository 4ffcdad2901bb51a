pub mod handler;
pub mod helpers;
pub mod model;
pub mod services;
pub mod store;

pub use model::{In, User, UserPayload};
pub use store::{UserAction, UserEvent, UserReply, UserRequest};
