//! Streaming matched-filter detection core for astronomical light curves.
//!
//! The crate holds the verified logic of the pipeline: the fixed-capacity
//! ring buffer used for sliding histories, the per-star sliding-window state
//! machine with its fragmented schedule, the trigger policies that turn score
//! streams into detection events, the historical-mean estimator's schedule,
//! the structural planning of the FFT template bank, and the rendezvous
//! protocol that orders the producer and the consumer.  Everything numeric
//! that must run in IEEE-754 single precision (signal conditioning proper,
//! the FFT correlation kernel) lives outside the crate and is driven by the
//! decisions made here.

pub mod async_utils;
pub mod cli;
pub mod cyclic_queue;
pub mod detector;
pub mod detector_utils;
pub mod filter;
pub mod filter_utils;
pub mod mf_config;
pub mod sqlite_stars;
pub mod star;
pub mod sw_star;
pub mod template;
pub mod tester;
pub mod toml_star;
pub mod ticker;
pub mod utils;
