//! Orchestration core of a desktop portal backend: the session table, the
//! virtual-input state machine, the capture pipeline's parameters and the
//! selection broker, each with a machine-checked contract.

pub mod registry;
pub mod remotedesktop;
pub mod session;
pub mod utils;
pub mod pipewirethread;
pub mod response;
pub mod screencast;
pub mod input_capture;
pub mod settings;
pub mod stream_message;
pub mod access;
pub mod gui;
pub mod screenshot;
pub mod slintbackend;
pub mod headless_helper;
pub mod request;
