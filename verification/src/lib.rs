//! Client-side logic for submitting jobs to a generative-compute service,
//! following their execution over an event stream, and resizing images.
//!
//! The library reads no file and opens no connection. It prepares what is
//! to be sent ([`submit`]), decodes what arrives ([`event`]), decides what
//! happens next ([`listener`], [`job`]) and words what the user is told
//! ([`report`]); whoever owns the files and the sockets does the rest.

pub mod error;
pub mod event;
pub mod job;
pub mod json;
pub mod listener;
pub mod report;
pub mod resize;
pub mod submit;
pub mod text;
pub mod token;
