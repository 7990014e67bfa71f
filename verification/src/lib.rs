//! The core of a desktop music player, verified with Verus.
//!
//! The player has two threads. The audio thread decodes a file and plays it;
//! the interface shows the library and the playlists, and draws what is
//! played. They talk over two queues, one for each direction, and share a
//! ring of played samples.
//!
//! This crate holds what the two threads decide, and nothing that they do:
//! it opens no file, plays no sound and draws no pixel.
//!
//! - [`engine`]: the audio engine as a state machine, from the commands of
//!   the interface and the outcome of each read and decode to what is done
//!   next and what the interface is told.
//! - [`pipeline`]: which track of a file is played, where playback starts
//!   after a seek, and which errors end a track.
//! - [`command`]: the messages on the two queues.
//! - [`ring`], [`scope`], [`rms_calculator`], [`monitor`]: the ring of
//!   played samples and what the interface feeds from it.
//! - [`library`], [`import`], [`playlist`], [`player`], [`session`]: the
//!   library of tracks, the playlists, the transport and the state of the
//!   interface.
//! - [`stuff`]: a plain player without an engine of its own.
//! - [`purge`], [`recent`]: the sequences that the contracts above speak of.

pub mod command;
pub mod engine;
pub mod import;
pub mod library;
pub mod monitor;
pub mod pipeline;
pub mod player;
pub mod playlist;
pub mod purge;
pub mod recent;
pub mod ring;
pub mod rms_calculator;
pub mod scope;
pub mod session;
pub mod stuff;
