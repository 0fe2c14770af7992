//! A single-threaded call/response handshake that lets a computation be
//! written as straight-line logic while every external operation is handed
//! to a caller-controlled driver loop, one request at a time.

pub mod channel;
pub mod driver;
pub mod error;
pub mod protocol;

pub use channel::{ChannelModel, SansIo, SansIoFuture, State};
pub use driver::{Driver, Progress, Step, Task};
pub use error::Error;
