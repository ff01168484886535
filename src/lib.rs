//! Host Controller Interface engine for a Bluetooth controller attached through a byte stream.
//!
//! The library encodes HCI commands, decodes HCI events, frames the inbound byte stream into
//! packets, correlates command responses, enforces the controller's flow control and drives the
//! multi-step exchanges (initialization, firmware upload, inquiry, connection acceptance) as
//! poll-driven state machines.
pub mod commands;
pub mod connection;
pub mod packet;
pub mod events;
pub mod errors;
pub mod hctl;
pub mod task;
pub mod hci;
pub mod recv;
pub mod send;
pub mod firmware;
pub mod init;
pub mod inquiry;
pub mod controller;
