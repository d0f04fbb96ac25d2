//! The rules of a media player: what plays when, what is shown where, and what the
//! user is told.
//!
//! The player itself is a loop around devices. This library holds what the loop
//! decides, and proves it: each function takes what was observed (a clock reading, a
//! message, a key, the outcome of a call) and says what is to be done.
//!
//! - [`clock`] is exact media time: positions, timestamps and time bases.
//! - [`media`] describes streams, frames, messages and user actions.
//! - [`engine`] is the playback engine: anchoring, back-pressure, seeking,
//!   presentation, volume. [`engine_laws`] holds what spans its operations, and
//!   [`tick`] the order of a tick of the loop.
//! - [`text`] and [`uri`] are strings and source addresses.
//! - [`cli`], [`select`], [`job`] and [`startup`] lead from the command line to a
//!   running job.
//! - [`profile`] and [`status`] are what is printed while playing.
//! - [`output`] and [`sink`] join the engine to devices and to the executor.
//! - [`planes`], [`renderer`], [`bridge`], [`stages`] and [`window`] are the window and
//!   what is drawn in it.

pub mod clock;
pub mod media;
pub mod text;
pub mod uri;
pub mod cli;
pub mod select;
pub mod job;
pub mod startup;
pub mod profile;
pub mod status;
pub mod output;
pub mod sink;
pub mod planes;
pub mod renderer;
pub mod bridge;
pub mod stages;
pub mod window;
pub mod engine;
pub mod engine_laws;
pub mod tick;
