//! Core library of an automated removable-storage backup daemon.
//!
//! When a removable block device is attached, the daemon mounts it, copies its
//! contents into a dated directory under a configured backup root, verifies the
//! copy by content hash, and unmounts the device.  Each such episode is a job
//! with a durable history of state transitions.
//!
//! This crate holds the part of the pipeline that must be correct under
//! failure: the device-acceptance policy and mount bookkeeping, the per-job
//! status model and append-only status log, the in-memory progress registry,
//! the native copy engine's planning and chunk-level hashing, the verifier, and
//! the per-job orchestration decisions.  The surrounding process (hot-plug
//! subscription, file and database I/O, RPC, terminal UI) lives outside and
//! hands this library plain values.

pub mod copy;
pub mod hardware;
pub mod hashing;
pub mod history;
pub mod ids;
pub mod mounts;
pub mod models;
pub mod notify;
pub mod ownership;
pub mod pipeline;
pub mod progress;
pub mod rsync;
pub mod status;
pub mod store;
pub mod text;
pub mod throttle;
pub mod tui;
pub mod transfer;
pub mod verify;
