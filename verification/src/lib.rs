//! Keyboard event helper library.
//!
//! The library contains the logic of a small helper process that observes raw
//! keyboard input and reports it as structured records, and that can ask the
//! desktop's accessibility layer to type text. It is organised leaf-first:
//!
//! - [`keys`] translates raw platform key codes to canonical key names;
//! - [`events`] defines the event records the helper emits and the per-device
//!   monitoring step that produces them;
//! - [`discovery`] classifies input devices as keyboards and decides how a
//!   device scan ends;
//! - [`supervisor`] tracks how many device monitors are still alive and
//!   escalates exactly once when the last one dies;
//! - [`cli`] parses the command line and fixes the process exit codes.
//!
//! Everything that talks to the operating system (device files, threads,
//! clocks, the output streams) lives outside this library and hands it plain
//! values.

pub mod cli;
pub mod discovery;
pub mod events;
pub mod keys;
pub mod supervisor;
