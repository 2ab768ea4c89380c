//! Core of an addressable-LED control service: a fixed-size store of LED
//! cells with a generation counter for cheap change detection, the binary
//! wire codec for WebSocket commands and snapshot pushes, the per-connection
//! session logic (command handling and generation-polling broadcast), and
//! the request-level operations behind the REST endpoints.

pub mod api;
pub mod codec;
pub mod config;
pub mod light_bulb;
pub mod persist;
pub mod repo;
pub mod session;
pub mod types;
