//! Credential and identity core of an authentication service: validated
//! email and password values, user records, a user store contract with an
//! in-memory backend, and the decisions of the authentication flows.

pub mod email;
pub mod flow;
pub mod hashmap_user_store;
pub mod password;
pub mod session;
pub mod store;
pub mod user;

pub use email::Email;
pub use hashmap_user_store::HashmapUserStore;
pub use password::Password;
pub use store::{UserStore, UserStoreError};
pub use user::User;
