//! A verified library for bridging a device-resident btsnoop HCI log stream
//! into a live pcap capture feed, with out-of-band logging-toggle handling.

pub mod adb;
pub mod bytes;
pub mod capture;
pub mod config;
pub mod control;
pub mod direction;
pub mod numfmt;
pub mod pipeline;
pub mod session;
pub mod snoop;
