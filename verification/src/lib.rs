//! A greeting service reduced to its decisions: which queries name somebody
//! to greet, what the greeting says, and what a request is answered with.
//!
//! Nothing here listens on a socket. A binding decodes the query of a request
//! into [`HelloParams`], hands it to [`root`], and writes out the status and
//! the body that come back.

pub mod handler;
pub mod params;
pub mod response;

pub use handler::{root, Status};
pub use params::{GreetError, HelloParams, MISSING_NAME};
pub use response::{greeting, HelloWorldResponse};
