//! Decision logic of an MCP tool server: deployment pulse, content
//! schedule tallies, lead extraction, e-mail preparation, and JSON-RPC
//! request routing, each stated as a contract and proved with Verus.
//! Network and process I/O and serialisation live in the application
//! crate beside this library.

mod clock;
pub mod content;
pub mod demo;
pub mod endpoints;
pub mod fetch;
pub mod mail;
pub mod mailbox;
pub mod model;
pub mod pulse;
pub mod rpc;
pub mod text;
pub mod vault;
pub mod web;
