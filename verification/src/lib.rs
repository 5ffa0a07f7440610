//! Message translation and validation core for a CosmWasm contract
//! tool server: validates untyped JSON payloads against the contract's
//! query and execute grammars, wraps validated payloads into the
//! envelopes a chain node expects, and exposes the contract's schema
//! and deployment registry as JSON text.

pub mod codec;
pub mod envelope;
pub mod json_text;
pub mod numeric;
pub mod server;
