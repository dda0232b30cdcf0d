//! Command gateway for a music-generation desktop application.
//!
//! The gateway sits between a UI caller and an external "musicbrain" bridge.
//! It exposes three operations (generate music, interrogate, get emotions),
//! forwards each request to the bridge exactly as received, and normalizes
//! the bridge's outcome into a uniform response envelope: the bridge's
//! structured result unchanged on success, the failure's cause rendered as a
//! single string on failure. The bridge call itself is asynchronous work that
//! the host performs; the decisions around it live here and are verified.

pub mod bridge;
pub mod gateway;
pub mod payload;
pub mod requests;
