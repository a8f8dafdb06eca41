//! An authenticating JSON-RPC gateway for an Ethereum-compatible chain.
//!
//! The library holds the decisions of the gateway: who a caller is, what a
//! bearer token proves, which nonce may still be used, which signature scheme
//! applies to an account, and which RPC method a caller may reach. Everything
//! that talks to the network is left to the program around it, which feeds
//! the answers of the upstream back into the functions found here.

pub mod address;
pub mod auth;
mod clock;
pub mod config;
pub mod proxy;
pub mod rpc;
pub mod service;

pub use address::Address;
pub use auth::AccessLevel;
pub use config::AppConfig;
pub use proxy::RpcProxyImpl;
pub use rpc::RpcError;
pub use service::RpcLoggerMiddleware;
