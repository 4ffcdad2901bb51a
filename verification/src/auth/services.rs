pub mod logout;
pub mod refresh;
pub mod signin;
pub mod signup;

pub use logout::{logout_service, LogoutFlow};
pub use refresh::{refresh_token_service, refresh_token_service_at, RefreshFlow};
pub use signin::{signin_service, signin_service_at, SigninFlow};
pub use signup::{signup_service, SignupFlow};
