//! Board-application logic of the backplane backpack that does not touch
//! hardware: its two board revisions, the fan drive, the status LED's
//! colours and WS2812 waveform, and the watchdog supervisor that feeds the
//! watchdog only while every task makes progress.
pub mod action_executor;
pub mod board;
pub mod command_service;
pub mod controller_loop;
pub mod fan;
pub mod reporting;
pub mod pd_bus;
pub mod status;
pub mod supervisor;
