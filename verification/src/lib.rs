//! Frees a TCP port: finds the process that owns the port and ends it.
//!
//! The library holds every decision of the tool and makes no call into the
//! operating system. The program around it makes the calls that the library
//! asks for and hands back what the system answered:
//!
//! - [`validation`] and [`cli`] read the command line and write the texts that
//!   the tool prints;
//! - [`port_service`] finds the owner of a port in the system's table of TCP
//!   connections;
//! - [`process_service`] asks a process for its name and ends it;
//! - [`session`] leads one run from the command line to the exit code;
//! - [`error`] holds the failures of the services and [`text`] the decimal
//!   notation of the numbers in messages.

pub mod cli;
pub mod error;
pub mod port_service;
pub mod process_service;
pub mod session;
pub mod text;
pub mod validation;
