//! The RPC proxy: which method a caller may reach, where its request goes,
//! and what of the upstream's answer the caller may see.

pub mod error;
pub mod server;

pub use server::RpcProxyImpl;
