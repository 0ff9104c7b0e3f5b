//! Values, errors and store interfaces of the authentication domain.

pub mod data_stores;
pub mod email;
pub mod email_client;
pub mod error;
pub mod password;
pub mod user;

pub use data_stores::BannedTokenStore;
pub use data_stores::BannedTokenStoreError;
pub use data_stores::LoginAttemptId;
pub use data_stores::TwoFACode;
pub use data_stores::TwoFACodeStore;
pub use data_stores::TwoFACodeStoreError;
pub use data_stores::UserStore;
pub use data_stores::UserStoreError;
pub use email::Email;
pub use email_client::EmailClient;
pub use email_client::MailView;
pub use error::log_error_chain;
pub use error::AuthAPIError;
pub use error::ErrorResponse;
pub use password::Password;
pub use user::User;
pub use user::UserView;
