//! A one-shot HTTP/1.1 client core: the request-method codec, the buffer
//! bookkeeping of the transport adapter that bridges a readiness-driven and a
//! cursor-driven read interface, and the request/response exchange as a state
//! machine whose steps are driven by whoever owns the socket.

pub mod adapter;
pub mod buffer;
pub mod error;
pub mod exchange;
pub mod item;
pub mod memory;
pub mod method;
pub mod request;
pub mod stream;
pub mod target;
