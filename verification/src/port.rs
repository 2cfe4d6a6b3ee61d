//! The first-generation port-switching backpack: its data model of ports,
//! policies and settings, and the port controller that schedules USB-PD,
//! input-power and persistence work so that emergencies always come first
//! and no enabled port is energized before its enable is durable.
pub mod model;
pub mod controller;
pub mod commissioning;
pub mod control;
pub mod status;
