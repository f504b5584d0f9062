//! An authenticated real-time messaging service's core: the path-based
//! identity check, and the per-connection frame router, heartbeat monitor and
//! shutdown signal of an upgraded socket connection.
pub mod access;
pub mod visits;
pub mod websocket;
