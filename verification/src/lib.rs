//! The network core of a node: framing of batches on links, assignment of regions, routing between
//! peers, per-face queues, batched propagation and routing counters.

pub mod clock;
pub mod diag_report;
pub mod diag_sites;
pub mod diag_timers;
pub mod diagnostics;
pub mod face_close;
pub mod framing;
pub mod gateway;
pub mod histogram;
pub mod link;
pub mod link_ack;
pub mod link_rx;
pub mod lock_compat;
pub mod metric_text;
pub mod p2p_peer;
pub mod queryable_batch;
pub mod queueing;
pub mod region;
pub mod rx_carry;
pub mod whatami;
