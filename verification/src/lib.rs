//! The safety boundary of a streaming content rewriter: the table of supported
//! character encodings and the shared cell that holds the current one, the
//! string handle that carries text to a foreign caller, the slot for the last
//! error, and the errors of the streaming write path.

pub mod ascii_compatible;
pub mod decimal;
pub mod encodings;
pub mod errors;
pub mod shared_encoding;
pub mod streaming;
pub mod string;
pub mod table;

pub use ascii_compatible::AsciiCompatibleEncoding;
pub use errors::{
    lol_html_take_last_error, save_last_error, streaming_status, CStreamingHandlerError, LastError,
};
pub use shared_encoding::SharedEncoding;
pub use streaming::CStreamingHandler;
pub use string::{lol_html_str_free, Str};
