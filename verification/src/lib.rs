//! Metadata resolution and transcoding decisions for audio files.
//!
//! The crate turns what a probing tool and an encoding tool report about an
//! audio file into a title, an artist, lyrics, cover art and playback audio.
//! It runs no tool itself: a driver performs each [`pipeline::Action`] and
//! hands the outcome back as a [`pipeline::Event`].
//!
//! - [`decode`] turns the prober's raw output into text.
//! - [`tags`] holds tag mappings and merges those of a probed file into one.
//! - [`reconcile`] reads title, artist and lyrics from a tag mapping.
//! - [`filename`] fills what the tags left open from the file's base name.
//! - [`outcome`] names the ways in which a tool's work can end, and the errors.
//! - [`pipeline`] is the run itself, as a state machine.
//! - [`commands`] gives the command lines of the tools.
//! - [`transport`] decodes the path that comes in and encodes the bytes that go out.
//! - [`fonts`] sorts font family names and picks the face of a family.
//! - [`text`] has the work on characters that the others share.

pub mod commands;
pub mod decode;
pub mod filename;
pub mod fonts;
pub mod outcome;
pub mod pipeline;
pub mod reconcile;
pub mod tags;
pub mod text;
pub mod transport;
