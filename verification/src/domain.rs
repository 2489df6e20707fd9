pub mod data_stores;
pub mod email;
pub mod errors;
pub mod password;
pub mod user;

pub use data_stores::{BannedTokenStore, TokenStoreError, UserStore, UserStoreError};
pub use email::Email;
pub use errors::AuthAPIError;
pub use password::Password;
pub use user::{User, UserView};
