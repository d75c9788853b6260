//! The decisions of a firmware flasher for a fleet of ESP32 devices.
//!
//! The flasher compiles a sketch, uploads the firmware and tells devices over MQTT where to fetch
//! it, one device at a time or many. The library holds its state and its rules: [`app`] has the
//! state and how events change it, by the rules that [`model`] states; the modules after it add
//! what a user can do, and those from [`laws`] on state what holds of all of it. Nothing here reads
//! a file, opens a connection or starts a process: the library hands out what is to be done as
//! values, and is handed the outcome.
pub mod text;
pub mod number;
pub mod outside;
pub mod paths;
pub mod types;
pub mod firmware;
pub mod ids;
pub mod version;
pub mod topics;
pub mod worker;
pub mod compile;
pub mod mqtt;
pub mod model;
pub mod app;
pub mod settings;
pub mod devices;
pub mod register;
pub mod deploy;
pub mod bulk;
pub mod laws;
pub mod text_laws;
pub mod event_laws;
pub mod use_laws;
pub mod step_laws;
pub mod view_laws;
