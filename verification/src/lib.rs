//! The decisions behind listing the references of a git remote and fetching from it.
//!
//! Nothing here performs I/O. An operation that talks to a remote is a value that says, through
//! its `request()`, what has to be done next, and that takes what came of it through its `step()`.
//! The program around the library does the work in between, with what the value lends it through its `work()`.
//!
//! * [`connection`] holds the connection to a remote and how it is configured,
//! * [`listing`] lists the references of a remote,
//! * [`prepare`] configures a fetch and [`receive`] performs it,
//! * [`shallow`] turns a change of the shallow boundary into arguments for the server.

pub mod connection;
pub mod listing;
pub mod listing_laws;
pub mod negotiate;
pub mod outcome;
pub mod prepare;
pub mod receive;
pub mod receive_laws;
pub mod ref_map;
pub mod reflog;
pub mod refspec;
pub mod session;
pub mod shallow;
pub mod url;
