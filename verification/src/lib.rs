//! A client of a network of smart contracts: the engine that runs debots, and the link over which
//! GraphQL operations reach the server.

pub mod client;
pub mod debot;
pub mod json;
pub mod net;
pub mod text;
