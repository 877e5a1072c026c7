//! Lifecycle supervision of a locally launched backend server ("sidecar"):
//! locating its executable, tracking the spawned process, deciding when the
//! server has become reachable, and stopping it on shutdown.
//!
//! Everything here is decision logic. The host application performs the
//! filesystem checks, the spawning, the sleeping and the socket I/O, and feeds
//! the outcomes back into these functions.
pub mod health;
pub mod probe;
pub mod resolver;
pub mod supervisor;
