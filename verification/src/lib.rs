//! Scheduling and decision core of an issue-driven automation daemon.
//!
//! The daemon watches an issue tracker for work, decides which kind of agent
//! a conversation needs next, spawns and supervises agent sessions, and
//! frees their workspaces afterwards. This library holds the decisions: the
//! adaptive polling cadence, the trigger scan with its spawn guard, the
//! routing of comments, the lifecycle and limits of sessions, and the order
//! of the phases of a cycle. Everything that talks to the outside world
//! stays with the caller, which hands in what it fetched and carries out
//! what the library returns.
//!
//! Beside the daemon core the library holds three small tools of the design
//! workbench: a writer for STEP exchange files, the assembly tree of a crate
//! design, and a reader for colors in hexadecimal notation.

pub mod activity;
pub mod assembly;
pub mod color;
pub mod handoff;
pub mod poller;
pub mod router;
pub mod scheduler;
pub mod session;
pub mod step;
pub mod store;
pub mod text;
pub mod tracker;
pub mod trigger;
