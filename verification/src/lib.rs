//! A verified transport core for a single-function serverless adapter over
//! CloudEvents: a dual-encoding wire codec (binary headers and a structured
//! JSON document), a response assembler, a signature mapper that derives how
//! events bind to a function's parameters, and the per-request glue that
//! sequences decode, bind, invoke and encode.

pub mod bytes;
pub mod codec;
pub mod errors;
pub mod event;
pub mod json;
pub mod message;
pub mod names;
pub mod pipeline;
pub mod response;
pub mod roundtrip;
pub mod signature;
