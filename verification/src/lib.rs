//! Decisions behind fetching a release artifact over HTTPS and unpacking it.
//!
//! Nothing here opens a socket or a file. The modules settle what is to be
//! done, and leave the doing to the caller:
//!
//! - [`remote`]: the settings of the client, and the course of one request
//!   from its first send to its result;
//! - [`retry`]: when a throttled request is sent again, and how often;
//! - [`retry_after`]: how long a `Retry-After` header asks to wait;
//! - [`extracter`]: which decoder undoes the compression around a tar archive;
//! - [`duration`] and [`decimal`]: spans of time and decimal numbers, which
//!   the others count with.

pub mod decimal;
pub mod duration;
pub mod extracter;
pub mod remote;
pub mod retry;
pub mod retry_after;
