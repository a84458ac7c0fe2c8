//! Verified core of a merge-request copier: given one source merge request,
//! fan it out onto a list of target branches of the same project.
//!
//! The library builds every request (URLs, JSON bodies) and decides every
//! step of the workflow; the thin binary around it only performs the HTTP
//! calls and reads the configuration.

pub mod copier;
pub mod decode;
pub mod laws;
pub mod model;
pub mod request;
pub mod text;
