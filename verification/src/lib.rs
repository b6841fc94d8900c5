//! Automated site-visit recording: a verified core for the recording
//! orchestrator that runs a whole-screen encoder and a browser frame
//! sampler under one session lifecycle, plus the session, notification,
//! export and command-line settings logic around it.

pub mod assembler;
pub mod encoder;
pub mod browser;
pub mod clock;
pub mod control;
pub mod crawler;
pub mod daemon;
pub mod exporter;
pub mod login;
pub mod naming;
pub mod recorder;
pub mod notifier;
pub mod sampler;
pub mod session;
pub mod settings;
pub mod strutil;
