//! A format-neutral view of audio metadata tags.
//!
//! [`ClearTag`] holds one of three backends (ID3v2, FLAC Vorbis comments, MP4
//! atoms) and forwards every field operation to it; [`AnyTag`] is the lossy
//! neutral form used to move a tag's content between formats; [`Config`] is the
//! policy for formats that keep several artists in one string.
use vstd::prelude::*;

pub mod any_tag;
pub mod artists;
pub mod backends;
pub mod clear_tag;
pub mod config;
pub mod types;

pub use any_tag::AnyTag;
pub use artists::{join_artists, split_artists};
pub use backends::{Fields, FlacTag, Id3v2Tag, Mp4Tag};
pub use clear_tag::{ClearTag, TagFormat};
pub use config::{Config, ConfigView};
pub use types::{Album, MimeType, Picture, Timestamp};

verus! {

} // verus!
