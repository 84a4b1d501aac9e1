//! A diagnostic wrapper around a shared-read / exclusive-write lock.
//!
//! The wrapper keeps the acquisition semantics of the lock it wraps and adds
//! what is needed to find out which call sites fight over it: a pacing and a
//! sampling policy for retries, call traces with a correlation tag, and the
//! text of the records that describe a blocked acquisition.
//!
//! The library decides and computes; it neither sleeps nor logs. One try for
//! a permit, with all that belongs to it, is a call of
//! `debugging_locks::RwLockWrapped::read_attempt` or `write_attempt`. Where
//! the lock is held elsewhere the call hands back how long to pause and what
//! to log, and the caller pauses, logs and tries again.
//!
//! - `thresholds_config`: how long to pause after a failed attempt, and which
//!   attempts are reported.
//! - `acquisition`: what follows each try, and the laws of an acquisition as
//!   a whole.
//! - `stacktrace_util`: traces, their tags, and the trace of the calling
//!   thread.
//! - `walk`: how the symbols of a call stack are sorted and which of them
//!   make the trace.
//! - `diagnostics`: the records of a blocked acquisition.
//! - `debugging_locks`: the lock.
//! - `text`: helpers for text.

pub mod acquisition;
pub mod debugging_locks;
pub mod diagnostics;
pub mod stacktrace_util;
pub mod text;
pub mod thresholds_config;
pub mod walk;
