//! Build-session orchestration engine for a mobile-app build pipeline.
//!
//! The library holds the decision logic of the pipeline: validating a
//! connection descriptor, constructing the platform build commands,
//! relaying output streams into a transcript, classifying outcomes,
//! and managing the single-slot registry of the active local build.
//! The surrounding process, network and filesystem work is left to the
//! embedding application, which drives these verified pieces.

pub mod commands;
pub mod connection;
pub mod controller;
pub mod hardware;
pub mod outcome;
pub mod paths;
pub mod registry;
pub mod relay;
pub mod strutil;
