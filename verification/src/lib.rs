//! Bounded local framing, session-limit negotiation, recovery envelopes, and
//! admission bookkeeping for one local Cogniform agent session.

pub mod bytes;
pub mod codec;
pub mod compilation;
pub mod control;
pub mod digest;
pub mod frame;
pub mod gateway;
pub mod executor;
pub mod limits;
pub mod measurement;
pub mod message;
pub mod observation;
pub mod query;
pub mod reader;
pub mod session;
pub mod slots;
pub mod recovery;
pub mod scenario;
pub mod text;
