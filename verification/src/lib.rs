//! Client-side logic for the NetEase Cloud Music web API.
//!
//! The crate holds everything about a call that is not input or output:
//! how a request is built and handed to the signing transform, how the
//! session token is captured from replies, and how replies are decoded into
//! typed records. Sending a request and producing the ciphertext are left to
//! the caller.

pub mod text;
pub mod error;
pub mod user_agent;
pub mod params;
pub mod json;
pub mod session;
pub mod request;
pub mod model;
pub mod artwork;
pub mod api;
