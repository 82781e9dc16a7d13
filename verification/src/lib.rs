//! Benchmarking engine that compares erasure coding with full replication
//! over a simulated, bandwidth-limited transfer channel.

pub mod bandwidth;
pub mod clock;
pub mod codec;
pub mod entropy;
pub mod erasure;
pub mod record;
pub mod replication;
pub mod sweep;
pub mod text;
pub mod transfer;
