//! Page iteration, polling policies and request builders for cloud API clients.
//!
//! `paginator` holds the page and item sequences, as state machines that a
//! caller drives by handing in what each fetch returned; `runs` states what
//! every run of them does. `polling` holds the policies that govern a loop of
//! repeated attempts. `options`, `recommender` and `cloudtrace` hold request
//! types and their builders, and `kms` the tracing decorators of the key
//! management stubs.
pub mod cloudtrace;
pub mod kms;
pub mod options;
pub mod paginator;
pub mod polling;
pub mod recommender;
pub mod runs;
