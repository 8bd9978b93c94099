//! The link to the server.

pub mod websocket_link;
