//! Host telemetry reports: the JSON documents that a monitoring endpoint
//! answers with, built from plain readings and proved to carry exactly the
//! documented fields.

pub mod cpu;
pub mod endpoint;
pub mod gpu;
pub mod json;
pub mod memory;
pub mod network;
pub mod page;
pub mod process;
pub mod system;
pub mod text;
