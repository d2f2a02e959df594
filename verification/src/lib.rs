//! GhostWire: peer admission control and abuse mitigation for a mesh
//! messaging node, together with the plain data structures of its front ends.

pub mod adapter;
pub mod config;
pub mod identity;
pub mod keyed;
pub mod mesh;
pub mod message;
pub mod node;
pub mod security;
pub mod text;
pub mod timestamp;
pub mod transport;
pub mod tui;
pub mod web;
