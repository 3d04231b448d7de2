//! Physics offload bridge: a request/response protocol that decouples a
//! real-time physics simulation from the frame loop observing it.
//!
//! The frame side scans for entities that still need physics objects, sends
//! creation requests, issues one step request per frame, and writes the
//! returned poses and velocities back into its scene state.  The backend owns
//! the simulation state and the entity-to-handle registry, and answers one
//! request at a time, in order.  Messages travel over an in-process channel
//! pair, a raw stream socket, or a framed socket with optional compression;
//! all three carry the same binary wire format.

pub mod backend;
pub mod codec;
pub mod decode;
pub mod frame;
pub mod latency;
pub mod laws;
pub mod protocol;
pub mod registry;
pub mod roundtrip;
pub mod transport;
pub mod wire;
