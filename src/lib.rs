//! Building, checking and classifying single HTTP requests with JSON bodies.

pub mod error;
pub mod headers;
pub mod request;
pub mod response;
pub mod rest;
