pub mod delete_user;
pub mod get_all_users;
pub mod get_user;
pub mod insert_user;
pub mod update_user;

pub use delete_user::{delete_user_service, DeleteUserFlow};
pub use get_all_users::{get_all_users_request, get_all_users_service};
pub use get_user::{get_user_request, get_user_service};
pub use insert_user::{insert_user_service, InsertUserFlow};
pub use update_user::{update_user_service, UpdateUserFlow};
