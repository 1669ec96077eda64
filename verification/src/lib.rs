//! Per-application volume control for a PulseAudio sound server.
//!
//! The library holds every decision of the monitor that follows the server: which streams are
//! shown and under what name, how volumes and percentages convert, what a command asks of the
//! server, and in which order the monitor connects, waits, refreshes and publishes.
//! The program around it talks to the server and to the user interface.
pub mod appearance;
pub mod command;
pub mod course;
pub mod exchange;
pub mod handles;
pub mod inventory;
pub mod listing;
pub mod monitor;
pub mod presentation;
pub mod proplist;
pub mod reports;
pub mod server;
pub mod sorting;
pub mod streams;
pub mod text;
pub mod volume;
