//! Synthetic time-series load generation: randomized tag columns, microsecond
//! timestamp columns, columnar insert requests and the progress accounting of
//! an insertion run.

pub mod args;
pub mod data_source;
pub mod driver;
pub mod request;
