//! A reverse proxy core: route table and matcher, upstream selection,
//! forwarding decisions, and the telemetry store that every request updates.

pub mod config;
pub mod control;
pub mod dashboard;
pub mod forward;
pub mod history;
pub mod ring;
pub mod routing;
pub mod selector;
pub mod state;
pub mod text;
