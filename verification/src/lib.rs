//! Capture and streaming core of a USB microscope controller.
//!
//! The library holds the rules: the connection state machine, the frame slot,
//! the frame-rate statistics, the request scripts and response grammar of the
//! helper process, and the checks made before anything is written to disk.
//! Device access, processes, files and windows belong to the host program.

pub mod bridge;
pub mod commands;
pub mod config;
pub mod error;
pub mod frame;
pub mod log_panel;
pub mod models;
pub mod outside;
pub mod persist;
pub mod protocol;
pub mod session;
pub mod text;
pub mod viewer;
