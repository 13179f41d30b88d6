//! A resumable, ordered block ingestion pipeline, and the gas parameter table of
//! the framework's native functions.
//!
//! The pipeline is split into small state machines whose decisions are verified:
//! height windows, the windowed stream reader, the progress marker, the block
//! write plan and the orchestrator that ties them together. The network client and
//! the persistent store are driven by the caller, which hands each outcome back.
pub mod natives;
pub mod orchestrator;
pub mod processor;
pub mod progress;
pub mod reader;
pub mod window;
