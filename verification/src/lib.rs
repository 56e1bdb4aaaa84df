//! One error type for a client that talks to a remote HTTP API.
//!
//! Every failure that the client can meet, in the network transport, in
//! parsing a URI, in encoding or decoding JSON, in building a request or a
//! header, in borrowing the shared client, in decoding text or in local I/O,
//! becomes one value of [`TwilioErr`]. The value owns the failure it was made
//! from, names the kind of failure in a fixed label, and answers for the
//! failure's own source.

pub mod causes;
pub mod convert;
pub mod error;
pub mod labels;

pub use crate::causes::SourceRef;
pub use crate::error::TwilioErr;
pub use crate::error::TwilioErr::{
    BorrowErr, HeaderErr, HttpErr, Io, NetworkErr, SerdeErr, UrlParse, Utf8Err,
};
pub use crate::error::TwilioResult;
