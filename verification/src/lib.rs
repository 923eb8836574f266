//! Control core of a hand-held recipe scale.
//!
//! - [`button`]: a push-button behind a six-sample debounce filter,
//!   classified into press, release and long-press events; [`button_laws`]
//!   proves what holds of it over whole runs of samples.
//! - [`debounce`]: the filter of the `debouncr` crate and what is assumed
//!   of it.
//! - [`event`]: input events and the key events they stand for.
//! - [`queue`]: the bounded event queue on the ring buffer of `heapless`,
//!   whole and split into its two ends; [`queue_laws`] proves its order and
//!   its behaviour when full.
//! - [`interrupt`]: what the two interrupt handlers decide.
//! - [`main_loop`]: what the main loop makes of pending input.
//! - [`scale`]: the load-cell state machine; [`scale_laws`] proves its
//!   transitions and readings.
//! - [`recipes`]: the recipe tables.

pub mod button;
pub mod button_laws;
pub mod debounce;
pub mod event;
pub mod interrupt;
pub mod main_loop;
pub mod queue;
pub mod queue_laws;
pub mod recipes;
pub mod scale;
pub mod scale_laws;
