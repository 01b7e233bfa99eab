//! Core of a cross-platform installer for the Pulsar game engine: the
//! installation pipeline and the download/verification engine, with their
//! behaviour stated in contracts and proved by Verus.
//!
//! The library decides; its caller performs. Network and filesystem effects
//! are handed in as plain values — measured disk space, fetched bytes,
//! chunk sizes, step outcomes — and every decision made on them is
//! specified exactly:
//!
//! - [`pipeline`] — the ordered, rollback-capable step pipeline: the first
//!   failure halts the run, and rollback is owed to exactly the previously
//!   executed steps, in strictly descending order.
//! - [`download`] — streaming-transfer bookkeeping: byte counters, exact
//!   integer percentages clamped to `[0, 100]` and monotone within a
//!   transfer, and aggregate progress across a batch.
//! - [`checksum`] — SHA-256 verification of downloaded files, compared
//!   case-insensitively against an expected hex digest.
//! - [`detector`] — requirement checks: disk space first, then the host
//!   architecture, against a [`detector::SystemRequirements`].
//! - [`config`] — the component catalog and selection set; required
//!   components stay selected and the total size is recomputed exactly.
//! - [`steps`] — the concrete installation steps and their derived values.
//! - [`release`] — release metadata and the platform binary selection.
//! - [`metadata`] — the uninstall record, framed by a fully specified JSON
//!   writer and read back for symmetric removal.
//! - [`platform_linux`], [`platform_macos`] — platform conventions: where
//!   files go and what the integration files hold.

pub mod checksum;
pub mod config;
pub mod detector;
pub mod download;
pub mod error;
pub mod flow;
pub mod metadata;
pub mod pipeline;
pub mod platform_linux;
pub mod platform_macos;
pub mod progress;
pub mod release;
pub mod steps;
pub mod text;
