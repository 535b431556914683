//! The decision core of the GIVC command line client.
//!
//! Everything here maps plain values to plain values. Sockets, clocks, terminals and the admin
//! service itself belong to the program around this library.

pub mod command;
pub mod connection;
pub mod lifecycle;
pub mod locale;
pub mod locale_settings;
pub mod registry;
pub mod report;
pub mod text;
pub mod unit;
pub mod watch;
