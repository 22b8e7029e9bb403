//! The core of a terminal HTTP client: the application state machine, the
//! request engine's parsing and accumulation rules, and telemetry bars.

pub mod app;
pub mod dispatch;
pub mod engine;
pub mod headers;
pub mod json;
pub mod std_text;
pub mod telemetry;
pub mod text;
pub mod view;
pub mod wire;
