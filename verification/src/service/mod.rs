//! Middleware of the RPC service.

pub mod rpc_logger;

pub use rpc_logger::RpcLoggerMiddleware;
