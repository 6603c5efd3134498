//! Authentication requests for a messaging service's account API.
//!
//! The library computes the XVC signature of a request, assembles the header
//! set, the target URL and the form body of each account operation, and maps
//! the numeric status codes of the service's answers. Sending the request and
//! decoding the JSON body are left to the caller.

pub mod digest;
pub mod xvc;
pub mod agent;
pub mod auth;
pub mod form;
pub mod url;
pub mod client;
pub mod status;
pub mod response;
pub mod resources;
