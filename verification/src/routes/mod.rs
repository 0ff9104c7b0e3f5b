//! The authentication flows: signup, login, second-factor verification,
//! logout and token verification.

pub mod login;
pub mod logout;
pub mod signup;
pub mod verify_2fa;
pub mod verify_token;

pub use login::challenge_after_add_code;
pub use login::challenge_after_send_email;
pub use login::handle_2fa;
pub use login::handle_no_2fa;
pub use login::issue_challenge;
pub use login::login;
pub use login::login_after_get_user;
pub use login::login_after_validate_user;
pub use login::LoginOutcome;
pub use login::LoginRequest;
pub use login::LoginResponse;
pub use login::TwoFactorAuthResponse;
pub use logout::logout;
pub use logout::logout_after_store_token;
pub use signup::signup;
pub use signup::signup_after_add_user;
pub use signup::signup_after_get_user;
pub use signup::SignupRequest;
pub use signup::SignupResponse;
pub use verify_2fa::verify_2fa;
pub use verify_2fa::verify_2fa_after_get_code;
pub use verify_2fa::verify_2fa_after_remove_code;
pub use verify_2fa::Verify2FARequest;
pub use verify_token::verify_token;
pub use verify_token::verify_token_after_validate;
pub use verify_token::VerifytokenRequest;
pub use verify_token::VerifytokenResponse;
