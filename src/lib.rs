//! Runtime around a multi-turn, tool-using completion engine: conversation
//! history, the handler pipeline that persists it, hook dispatch for the
//! engine's lifecycle events, and the adapter that flattens its stream.
pub mod message;
pub mod params;
pub mod save;
pub mod hooks;
pub mod log;
pub mod handlers;
pub mod agent;
pub mod stream;
pub mod tools;
pub mod data;
