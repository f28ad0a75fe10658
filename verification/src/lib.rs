//! The installer of OctoPOS: everything it decides, without anything it does.
//!
//! The procedures of the installation are transition functions. Each takes the
//! stage it is in and the event that answers its last request, and makes the
//! next request or ends with a result. A program around this library carries the
//! requests out: it runs commands, touches files, reads the clock, and shows
//! progress in a window.
//!
//! - `effect`: the requests and the events.
//! - `pipeline`: the installation as a whole, from the procedures of `system`,
//!   `prepare`, `release` and `service`.
//! - `session`: the installation with what surrounds it in one run.
//! - `stream`: running a command whose output is shown.
//! - `handoff` and `cleanup`: what comes before and after the installation.
//! - `window`, `telemetry`, `fingerprint` and `archive`: what is shown, and what
//!   is reported.
//! - `text`, `number`, `random` and `json`: what the others are made of.
pub mod archive;
pub mod cleanup;
pub mod effect;
pub mod fingerprint;
pub mod handoff;
pub mod json;
pub mod number;
pub mod pipeline;
pub mod prepare;
pub mod random;
pub mod release;
pub mod service;
pub mod session;
pub mod stream;
pub mod system;
pub mod telemetry;
pub mod text;
pub mod window;
