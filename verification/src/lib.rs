//! Request-dispatch core of a static-file HTTP server.
//!
//! One inbound request is taken through a fixed order of pre-filters, the
//! static resolution and a fixed order of post-transforms. The stages
//! themselves live outside this library; the library owns the order, the
//! short-circuit rule and the data that flows between the stages.

pub mod status;
pub mod config;
pub mod stage;
pub mod handler;
pub mod pipeline;
pub mod laws;
pub mod annotation;
