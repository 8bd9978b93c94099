//! The debot engine.

pub mod abi;
pub mod acting;
pub mod action;
pub mod context;
pub mod dengine;
pub mod dialogue;
pub mod entering;
pub mod exchange;
pub mod laws;
pub mod loading;
pub mod quiet;
pub mod script;
pub mod session;
pub mod turns;
