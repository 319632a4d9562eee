//! Authentication and session layer for a client of a Synology FileStation
//! service: a schema-versioned local credential store, a builder for the
//! remote login call, and the state machine that decides whether a network
//! login is required.

pub mod synology_api;
