//! Real-time audio tap distribution core.
//!
//! The library takes audio sample frames delivered by a producer thread (the
//! OS audio callback) and makes the most recent frame available to any number
//! of consumers, without ever blocking the producer. Samples travel through
//! the core as raw 32-bit words; the core copies them and never does
//! arithmetic on them, so the numeric payload is opaque here. The pieces:
//!
//! * [`listener`] - the per-consumer handoff slot and the keyed registry that
//!   fans each incoming frame out to every registered consumer.
//! * [`seqlock`] - a transition-system model of the concurrent double-buffer
//!   protocol the slot follows across threads, with a proof that a reader can
//!   never observe a torn value.
//! * [`platform`] - the device/stream lifecycle state machine that ties a
//!   registry to a backend stream and coordinates device switches.
//! * [`device`] - device descriptors and the pure decisions made while
//!   enumerating and reordering backend devices.
//! * [`fft`] - the integer layout of the spectral analysis pipeline: how
//!   incoming samples are partitioned into transform bins.
//! * [`error`] - the error taxonomy surfaced to callers.

pub mod device;
pub mod error;
pub mod fft;
pub mod listener;
pub mod platform;
pub mod seqlock;
