//! A real-time broadcast hub: a shared status record, a bounded fan-out bus
//! with lag semantics, and the per-connection relay decisions that sit on top
//! of it. Transport, tasks and timers live outside this library; everything
//! that decides what happens to a frame or a record is stated and proved here.

pub mod health;
pub mod health_store;
pub mod frame;
pub mod bus;
pub mod relay;
pub mod config;
