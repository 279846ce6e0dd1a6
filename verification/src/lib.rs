//! Verified core of a structural diff service.

pub mod api;
pub mod laws;
pub mod model;
pub mod order;
pub mod report;
pub mod service;
pub mod size;
pub mod text;
