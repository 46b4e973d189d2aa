//! Core of a selective forwarding unit (SFU) media server.
//!
//! The server accepts WebRTC peers over one UDP socket per configured media
//! port, each owned by a single worker thread, and forwards media between the
//! endpoints of a session.  This crate holds the decision logic of that
//! server: deterministic session-to-port routing, the signaling bridge
//! protocol between the control plane and the workers, the per-iteration
//! decisions of the worker event loop, the supervisor's startup and
//! shutdown rules, the ordered protocol-handler chain, and the small codecs
//! (offer framing, decimal ids) those parts need.  The
//! embedding program performs the I/O these decisions command: it binds the
//! sockets, runs the worker threads and the HTTP front, and carries messages
//! across threads.

pub mod json;
pub mod logging;
pub mod net;
pub mod pipeline;
pub mod routing;
pub mod signaling;
pub mod supervisor;
pub mod text;
pub mod worker;
