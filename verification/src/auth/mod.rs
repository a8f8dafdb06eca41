//! Authentication: access levels, bearer tokens, one-time nonces and the
//! sign-in handshake.

pub mod access_level;
pub mod auth_middleware;
pub mod erc1271;
pub mod error;
pub mod jwt;
pub mod nonce;
pub mod siwe;

pub use access_level::AccessLevel;
pub use auth_middleware::AuthenticationMiddleware;
pub use nonce::NonceStore;
pub use siwe::SiweAuthRpcImpl;
pub use jwt::{JwtError, JwtSigner, JwtSignerKeyConfig, UserClaims};
