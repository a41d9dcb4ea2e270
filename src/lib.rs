//! A small micro-benchmarking harness: timing samples, their statistics,
//! comparison of two sample sets and a chained benchmarking session.
pub mod compare;
pub mod samples;
pub mod session;
pub mod timing;
pub mod workloads;
