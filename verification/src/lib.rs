//! Push-to-talk audio capture pipeline: raw hardware frames are relayed from
//! the real-time capture thread, downmixed to mono, fed through a streaming
//! rate converter in fixed-size chunks, and accumulated into a session buffer
//! that is dispatched for transcription when recording stops.
//!
//! This crate holds the verified logic of the pipeline: the bounded frame
//! relay with its drop policy, the carry-over bookkeeping around the chunked
//! converter, the versioned recording flag, the recording-gated accumulator
//! state machine, configuration validation, and command parsing. The host
//! audio device, the converter's numerics, and all I/O live outside it.

pub mod accumulator;
pub mod capture;
pub mod carry;
pub mod config;
pub mod downmix;
pub mod error;
pub mod event;
pub mod recording;
pub mod relay;
