pub mod config;
pub mod laws;
pub mod sanitiser;
pub mod sched;
