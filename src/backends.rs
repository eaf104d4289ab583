use vstd::prelude::*;

use crate::artists::strings_view;
use crate::config::Config;
use crate::types::{opt_picture, opt_string, Picture, PictureView, Timestamp};

verus! {

/// The mathematical content of [`Fields`].
pub struct FieldsView {
    pub title: Option<Seq<char>>,
    pub date: Option<Timestamp>,
    pub year: Option<i32>,
    pub album_title: Option<Seq<char>>,
    pub album_cover: Option<PictureView>,
    pub composer: Option<Seq<char>>,
    pub track_number: Option<u16>,
    pub total_tracks: Option<u16>,
    pub disc_number: Option<u16>,
    pub total_discs: Option<u16>,
    pub genre: Option<Seq<char>>,
    pub comment: Option<Seq<char>>,
    pub lyricist: Option<Seq<char>>,
    pub duration_ms: Option<u64>,
}

/// No field set.
pub open spec fn empty_fields() -> FieldsView {
    FieldsView {
        title: None,
        date: None,
        year: None,
        album_title: None,
        album_cover: None,
        composer: None,
        track_number: None,
        total_tracks: None,
        disc_number: None,
        total_discs: None,
        genre: None,
        comment: None,
        lyricist: None,
        duration_ms: None,
    }
}

/// The single-valued fields that every format stores in the same way.
///
/// `duration_ms` is read from the audio stream when a file is parsed, in
/// milliseconds; no setter changes it.
pub struct Fields {
    pub title: Option<String>,
    pub date: Option<Timestamp>,
    pub year: Option<i32>,
    pub album_title: Option<String>,
    pub album_cover: Option<Picture>,
    pub composer: Option<String>,
    pub track_number: Option<u16>,
    pub total_tracks: Option<u16>,
    pub disc_number: Option<u16>,
    pub total_discs: Option<u16>,
    pub genre: Option<String>,
    pub comment: Option<String>,
    pub lyricist: Option<String>,
    pub duration_ms: Option<u64>,
}

impl View for Fields {
    type V = FieldsView;

    open spec fn view(&self) -> FieldsView {
        FieldsView {
            title: opt_string(self.title),
            date: self.date,
            year: self.year,
            album_title: opt_string(self.album_title),
            album_cover: opt_picture(self.album_cover),
            composer: opt_string(self.composer),
            track_number: self.track_number,
            total_tracks: self.total_tracks,
            disc_number: self.disc_number,
            total_discs: self.total_discs,
            genre: opt_string(self.genre),
            comment: opt_string(self.comment),
            lyricist: opt_string(self.lyricist),
            duration_ms: self.duration_ms,
        }
    }
}

impl Fields {
    pub fn empty() -> (r: Fields)
        ensures
            r@ == empty_fields(),
    {
        Fields {
            title: None,
            date: None,
            year: None,
            album_title: None,
            album_cover: None,
            composer: None,
            track_number: None,
            total_tracks: None,
            disc_number: None,
            total_discs: None,
            genre: None,
            comment: None,
            lyricist: None,
            duration_ms: None,
        }
    }
}

/// An ID3v2 tag: artist and album artist are each one string, several
/// names being joined by the configured separator.
pub struct Id3v2Tag {
    pub fields: Fields,
    pub artist: Option<String>,
    pub album_artist: Option<String>,
    pub config: Config,
}

/// A FLAC Vorbis-comment block: artist and album artist may repeat.
pub struct FlacTag {
    pub fields: Fields,
    pub artists: Vec<String>,
    pub album_artists: Vec<String>,
    pub config: Config,
}

/// An MP4 metadata atom tree: artist and album artist may repeat.
pub struct Mp4Tag {
    pub fields: Fields,
    pub artists: Vec<String>,
    pub album_artists: Vec<String>,
    pub config: Config,
}

/// The values of an optional single string, as a list of at most one.
pub open spec fn opt_list(o: Option<String>) -> Seq<Seq<char>> {
    match o {
        Some(s) => seq![s@],
        None => Seq::empty(),
    }
}

impl Id3v2Tag {
    /// An empty tag with the default configuration.
    pub fn new() -> (r: Id3v2Tag)
        ensures
            r.fields@ == empty_fields(),
            r.artist is None,
            r.album_artist is None,
            r.config@ == crate::config::default_config(),
    {
        Id3v2Tag { fields: Fields::empty(), artist: None, album_artist: None, config: Config::default() }
    }
}

impl FlacTag {
    /// An empty tag with the default configuration.
    pub fn new() -> (r: FlacTag)
        ensures
            r.fields@ == empty_fields(),
            r.artists@.len() == 0,
            r.album_artists@.len() == 0,
            r.config@ == crate::config::default_config(),
    {
        FlacTag {
            fields: Fields::empty(),
            artists: Vec::new(),
            album_artists: Vec::new(),
            config: Config::default(),
        }
    }
}

impl Mp4Tag {
    /// An empty tag with the default configuration.
    pub fn new() -> (r: Mp4Tag)
        ensures
            r.fields@ == empty_fields(),
            r.artists@.len() == 0,
            r.album_artists@.len() == 0,
            r.config@ == crate::config::default_config(),
    {
        Mp4Tag {
            fields: Fields::empty(),
            artists: Vec::new(),
            album_artists: Vec::new(),
            config: Config::default(),
        }
    }
}

/// Copies a list of strings.
pub fn copy_strings(v: &Vec<String>) -> (r: Vec<String>)
    ensures
        strings_view(r@) == strings_view(v@),
{
    let mut r: Vec<String> = Vec::new();
    let mut i: usize = 0;
    while i < v.len()
        invariant
            i <= v@.len(),
            strings_view(r@) == strings_view(v@).subrange(0, i as int),
        decreases v@.len() - i,
    {
        let ghost before = r@;
        r.push(v[i].clone());
        i = i + 1;
        assert(strings_view(r@) =~= strings_view(v@).subrange(0, i as int)) by {
            assert(strings_view(r@) =~= strings_view(before).push(v@[i - 1]@));
        }
    }
    assert(strings_view(v@).subrange(0, i as int) =~= strings_view(v@));
    r
}

} // verus!
