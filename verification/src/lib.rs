//! Selection and serving engine of a stub server that replays recorded
//! request/response exchanges.
//!
//! The engine is set up once over a list of interactions and a
//! configuration, and then answers requests: of the interactions that pass
//! the provider-state filter (`filter`) and that the request matcher reports
//! as matching, one is selected (`select`), and its recorded response is
//! replayed under the CORS policy (`respond`); a request that matches
//! nothing gets a fallback that says what was tried and why it failed
//! (`diagnose`). `handler` puts the parts together, `exchange` offers the
//! same step by step, and `laws` states what holds of the whole.
//!
//! Comparing a request with what an interaction expects is not done here:
//! the matcher is handed in, as a function or as its reports.
//!
//! `source`, `options`, `load` and `error` serve the start-up: where to load
//! from, which option values are valid, and how loading ends. `wrappers`
//! holds the calls into code that is not verified here.

pub mod config;
pub mod diagnose;
pub mod error;
pub mod exchange;
pub mod filter;
pub mod handler;
pub mod headers;
pub mod laws;
pub mod load;
pub mod model;
pub mod options;
pub mod respond;
pub mod select;
pub mod source;
pub mod text;
pub mod wrappers;
