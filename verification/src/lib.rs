//! Core of a continuous radio broadcaster: selection of playable tracks from
//! a catalog, preparation of per-track assets (audio handle plus a rendered,
//! captioned cover), and a bounded FIFO playlist pipeline that drains tracks
//! to an output sink in enqueue order and invalidates consumed content.
//!
//! All I/O (catalog parsing, content fetching, transform subprocesses, the
//! broadcast sink) lives outside this crate; the logic here works on plain
//! values and handles and is verified.

pub mod errors;
pub mod repo;
pub mod caption;
pub mod selector;
pub mod prepare;
pub mod queue;
pub mod pipeline;
