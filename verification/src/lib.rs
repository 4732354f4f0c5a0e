//! Core decision pipeline of a media-library organizer.
//!
//! The library turns a downloaded video's path into a `(show, season,
//! episode)` classification with a rule-based regex matcher, computes the
//! canonical destination layout (`Season NN` / `Specials` folders, a
//! deterministic sanitized file-name template), tracks failed moves in a
//! pending-relocation queue so they can be retried, and drives the
//! metadata-resolution pipeline as a step machine whose network and
//! filesystem effects are performed by the caller.

pub mod matcher;
pub mod naming;
pub mod pending_videos_list;
pub mod tvshow;


