//! Verified core of a remote-debugging script injector.
//!
//! The library discovers debuggable targets from a JSON listing, selects one
//! by exact title (last match in list order wins), assembles a plugin fragment
//! from plugin file contents, renders a host-script template, and frames a
//! single `Runtime.evaluate` command for a one-shot websocket exchange whose
//! state machine is also defined here. All I/O (HTTP, filesystem, websocket)
//! is left to the surrounding application.

pub mod command;
pub mod discovery;
pub mod errors;
pub mod json;
pub mod pipeline;
pub mod plugins;
pub mod select;
pub mod session;
pub mod template;
pub mod text;
