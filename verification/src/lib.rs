//! Authentication and session-lifecycle core: validated value types,
//! identity, challenge and revocation stores, and the flows that compose them.
//! Every function here carries a contract that Verus proves.

pub mod domain;
pub mod routes;
pub mod services;
pub mod utils;

pub use domain::error::AuthAPIError;
pub use domain::error::ErrorResponse;
