//! Network bring-up for a dual-mode radio and the route table that becomes
//! servable once the radio is live.

pub mod bringup;
pub mod config;
pub mod error;
pub mod routes;
pub mod scan;
pub mod status;
