//! State engine of a sensor dashboard: a bounded history of sensor reports,
//! a debounced presence signal, and the screen power state derived from it.

pub mod clock;
pub mod config;
pub mod data;
pub mod event;
pub mod frame;
pub mod history;
pub mod measurements;
pub mod presence;
pub mod relay;
pub mod report;
pub mod screenctl;
pub mod state;
