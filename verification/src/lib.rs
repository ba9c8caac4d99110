pub mod channel;
pub mod client;
pub mod decode;
pub mod handoff;
pub mod json;
pub mod player;
pub mod schema;
pub mod shell;
