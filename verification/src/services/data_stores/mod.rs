//! In-memory stores, and the rules that a durable backend applies around
//! its input and output.

pub mod hashmap_two_fa_code_store;
pub mod hashmap_user_store;
pub mod hashset_banned_token_store;
pub mod mock_email_client;
pub mod postgres_user_store;
pub mod redis_banned_token_store;
pub mod redis_two_fa_code_store;

pub use hashmap_two_fa_code_store::HashmapTwoFACodeStore;
pub use hashmap_two_fa_code_store::PendingChallenge;
pub use hashmap_user_store::HashmapUserStore;
pub use hashset_banned_token_store::HashsetBannedTokenStore;
pub use mock_email_client::MockEmailClient;
pub use mock_email_client::SentEmail;
