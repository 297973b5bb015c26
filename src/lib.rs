//! Message layer of the Stratum V1 mining protocol: wire primitive codecs,
//! a JSON-like value model, the request/response frame model, the typed
//! message catalog with its conversions, and dispatch to handlers.

pub mod error;
pub mod hex;
pub mod value;
pub mod primitives;
pub mod frame;
pub mod messages;
pub mod dispatch;
pub mod timestamp;
