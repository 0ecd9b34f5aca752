//! Authentication and session lifecycle: credential hashing, access tokens,
//! refresh-token redemption, the request gate and the error taxonomy.

pub mod clock;
pub mod error;
pub mod gate;
pub mod models;
pub mod password;
pub mod search;
pub mod session;
pub mod store;
pub mod token;
pub mod validation;
