//! The request pipeline of a page-rendering HTTP service.
//!
//! A request names a page by a base64url-encoded URL together with a target
//! width and height. The pipeline decodes the parameter, checks that it is an
//! absolute URL, asks for the page to be fetched and rendered, and maps every
//! outcome to an HTTP status and body. Fetching and rendering are performed by
//! the caller; this crate decides what is to be done next and proves that the
//! decisions follow the stated rules.

pub mod decoder;
pub mod error;
pub mod pipeline;
pub mod validator;
