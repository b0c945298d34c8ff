//! A loopback HTTP greeter: the decisions behind bringing the server up,
//! its single route, and the lines it reports to the operator.
//!
//! The crate holds the logic only. Sockets, the runtime and the log sink
//! belong to the program that drives a [`bootstrap::Bootstrap`].

pub mod bootstrap;
pub mod outcome;
pub mod report;
pub mod routes;
