//! Supervisor core for a long-running worker subprocess.
//!
//! The library owns the decision logic of a worker-process supervisor: when to
//! reuse, recycle, or respawn the single persistent worker; how requests are
//! framed onto the worker's input stream and responses are read back up to a
//! sentinel line; how the textual response is decoded into a result payload or
//! an error; and how a one-shot (non-persistent) invocation's outcome is
//! classified.  Everything that touches the operating system — spawning the
//! process, the pipes, the clock, the lock that serializes callers — stays
//! outside and hands the library plain values.

pub mod envelope;
pub mod framing;
pub mod launch;
pub mod output;
pub mod supervisor;
