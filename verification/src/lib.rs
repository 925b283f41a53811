//! Headless core of a small portfolio viewer: navigation routes, theme
//! selection, and the fetch state machine behind the artwork catalog and the
//! resume page. Rendering and network transport live outside this crate and
//! talk to it through plain values.

pub mod app;
pub mod artwork;
pub mod catalog;
pub mod config;
pub mod fetch;
pub mod json;
pub mod outcome;
pub mod routes;
pub mod selection;
pub mod text;
pub mod theme;
pub mod transport;
