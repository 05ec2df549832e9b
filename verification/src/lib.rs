//! Configuration handling of a Python language server.
//!
//! A client tells the server about its workspace folders and answers its requests for
//! configuration. What it answers decides whose type errors are shown, which language services are
//! served, and which interpreter tells what a file can import. [`session`] makes these decisions on
//! [`settings`] and [`workspace`] folders; [`configuration`] is the exchange with the client.
//!
//! [`scenarios`] are sessions as a client takes them, on the sample files and stand-ins of
//! [`fixtures`]. [`value_laws`] states what holds of every message, [`decision_laws`] what a
//! session decides by what it holds, [`laws`] how a client's answers change that,
//! [`scenario_laws`] what holds of every scenario, and [`conformance`] that a client which goes by
//! one finds what it expects.

pub mod answers;
pub mod configuration;
pub mod conformance;
pub mod decision_laws;
pub mod fixtures;
pub mod json;
pub mod laws;
mod methods;
pub mod path;
pub mod payloads;
pub mod scenario_laws;
pub mod scenarios;
pub mod script;
pub mod session;
pub mod settings;
pub mod value_laws;
pub mod workspace;
