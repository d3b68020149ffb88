//! On-demand activation and discovery of singleton background services that
//! communicate over Unix-domain sockets, namespaced under a caller-chosen base
//! directory.
//!
//! The heart of the library is a pair of verified protocol state machines:
//! [`client::ClientProtocol`] decides, step by step, whether to connect to an
//! already-running service or to activate a fresh one through an ephemeral
//! liveness socket, and [`server::HostProtocol`] mirrors it on the hosting
//! side, pinging the parent's liveness socket and guaranteeing that the named
//! socket file is released when hosting ends.  Around them stand verified
//! helpers for socket-path resolution, ephemeral-socket naming, and launch
//! command assembly.  The actual socket, process and file operations are
//! performed by an unverified driver that feeds their outcomes back into the
//! machines as events.

pub mod client;
pub mod cmd;
pub mod descriptor;
pub mod hex;
pub mod paths;
pub mod server;
pub mod timefmt;
