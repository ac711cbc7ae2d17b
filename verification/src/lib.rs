//! The decisions of a photo booth server: what each request does to the booth,
//! which outside call comes next, and what is answered.
//!
//! Nothing here talks to a camera, a pin or a socket. A request advances one
//! step at a time: a step takes the outcome of the last outside call and gives
//! the next call to make, or the answer.

pub mod acquire;
pub mod booth;
pub mod camera;
pub mod capture;
pub mod config;
pub mod gpio;
pub mod http;
pub mod laws;
pub mod listing;
pub mod mjpeg;
pub mod preview;
pub mod protocol;
pub mod request;
pub mod status;
pub mod stream_laws;

