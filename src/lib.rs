//! A terminal music player's core: the track catalog, the play queue, a model of the
//! audio sink it drives, the key-driven state machine, and what gets drawn where.
//!
//! The library performs no I/O. Each step hands back the sink operations to perform
//! and the draw operations to send to the terminal, as plain values.

pub mod track;
pub mod engine;
pub mod view;
pub mod player;

pub use engine::{Engine, PlaybackState, SinkAction, FULL_VOLUME};
pub use player::{command_of_key, Command, KeyInput, Player, Reaction, Screen, MAX_TRACKS};
pub use track::{is_supported_extension, Music};
pub use view::DrawOp;
