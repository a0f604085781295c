//! Redirect decisions driven by DNS TXT records.
//!
//! A request for host `h` is answered from the TXT record of `_redirect.h`:
//! the record holds a literal destination, a `rewrite` rule applied to the
//! request path, or a `return` rule. This crate holds the decisions; the
//! HTTP server and the DNS transport live outside it.
pub mod status;
pub mod answer;
pub mod resolver;
pub mod rule;
pub mod text;
