//! A tiny library for a static single-page-application server.
//!
//! The server serves one of two pre-built entry documents for the root
//! path, chosen by the `version` cookie, and a static asset directory
//! under a fixed prefix. This crate holds the decision logic — cookie to
//! variant, variant to file path, read outcome to HTTP reply, request
//! path to route — with its contracts; the surrounding binary does the
//! actual listening, cookie parsing and file reading.

pub mod home;
pub mod reply;
pub mod routes;
pub mod selector;
