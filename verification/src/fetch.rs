//! The fetch bridge: requests on their way into a script, and the script's
//! answer on its way back to the host.

pub mod bridge;
pub mod host;
pub mod request;
pub mod response;
