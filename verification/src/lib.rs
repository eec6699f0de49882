//! Deferred-callback scheduling for a single script execution context.
//!
//! The heart of the crate is [`timers`]: a priority-ordered registry of
//! one-shot timed callbacks ([`timers::OneshotTimers`]) together with an
//! interval layer that gives callers a stable handle space for repeating
//! timers and applies the standard nesting-depth clamp. The registry is a
//! pure state machine: clock readings arrive as plain millisecond values and
//! requests toward the external wake-up source are returned as plain values,
//! so every scheduling decision is verified.
//!
//! The crate also carries two small neighbouring pieces of the same code
//! base: a gamepad list container ([`gamepadlist`]) and a few font-selection
//! items ([`font`]).

pub mod font;
pub mod gamepadlist;
pub mod timers;
