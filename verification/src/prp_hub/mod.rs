pub mod config;
pub mod errors;
pub mod status;
pub mod state;
pub mod group;
pub mod session;
pub mod flow;
pub mod discovery;
