//! The wire protocol of the streaming gateway, and the pool behind it.

pub mod error;
pub mod ident;
pub mod native;
pub mod openai;
pub mod pool;
pub mod routes;
pub mod single;
pub mod sse;
