//! Outbound HTTP request execution for gateway plugins: header and context
//! models, the outbound content-coding decision, the per-call state machine
//! that threads the caller's context through a request, the schema
//! registry's polling decisions, the runtime's worker-thread setting, and the
//! error replies that plugins give.
pub mod bytes;
pub mod headers;
pub mod encoding;
pub mod context;
pub mod uri;
pub mod pipeline;
pub mod registry;
pub mod responses;
pub mod error;
pub mod decimal;
