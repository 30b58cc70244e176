//! Polling engine of a field-device data logger.
//!
//! The crate holds the decisions of a logger that reads registers from
//! Modbus devices and appends time-stamped samples to a relational store:
//! how raw registers become values, which statement stores a sample, and
//! what a device's poll loop does next after each outcome of its transport.
//! Sockets, the database handle and threads belong to the program that
//! drives these functions.

mod clock;
pub mod codec;
pub mod config;
pub mod laws;
pub mod model;
pub mod poller;
pub mod sink;
pub mod supervisor;
