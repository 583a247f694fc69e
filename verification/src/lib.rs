//! A bridge between a sandboxed script interpreter and host-side handlers.
//!
//! Scripts call host handlers by namespace and name. The library holds the
//! table of handlers and serves requests from a bounded queue, lets a call
//! wait for its reply within bounds, converts values between the
//! interpreter's side and the host's side, and keeps track of where an
//! engine stands.

pub mod binary64;
pub mod cancellation;
pub mod codec;
pub mod console;
pub mod dispatcher;
pub mod engine;
pub mod equality;
pub mod error;
pub mod fetch;
pub mod interpreter;
pub mod limits;
pub mod msg_channel;
pub mod native;
pub mod router;
pub mod text;
pub mod util;
pub mod value;

pub use cancellation::Cancellation;
pub use console::Console;
pub use dispatcher::Dispatcher;
pub use engine::JsEngine;
pub use error::Error;
pub use msg_channel::MsgChannel;
pub use router::Processor;
pub use value::JsonValue;
