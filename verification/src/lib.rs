//! Boundary contract between an isolated task context and a host runtime.
//!
//! A task context cannot open sockets or read a clock itself; it calls into
//! the host through the capability surface defined here.  This crate holds
//! the time arithmetic (`Timestamp`, `Duration`), the wire status codec
//! (`HttpRequestStatus`), and the HTTP request/response lifecycle contract
//! (`Externalities`), together with the laws that relate them.

pub mod clock;
pub mod externalities;
pub mod status;

pub use clock::Duration;
pub use clock::Timestamp;
pub use externalities::Externalities;
pub use externalities::HttpRequestId;
pub use externalities::RequestPhase;
pub use status::HttpRequestStatus;
