use vstd::prelude::*;

use crate::artists::{split_artists, split_on, strings_view};
use crate::backends::{copy_strings, opt_list, Fields, FieldsView, FlacTag, Id3v2Tag, Mp4Tag};
use crate::config::{Config, ConfigView};
use crate::types::{
    borrow_picture, borrow_str, opt_picture_ref, opt_str, Album, AlbumView, Picture, PictureView,
    Timestamp,
};

verus! {

/// Which container format backs a tag.
#[derive(Clone, Copy, Debug, PartialEq, Eq)]
pub enum TagFormat {
    Id3,
    Flac,
    Mp4,
}

/// The mathematical content of a [`ClearTag`]: its format, its policy, the
/// single-valued fields, and the stored artist and album-artist values.
///
/// An ID3v2 tag stores at most one value of each of the two lists: a single
/// string in which several names are joined by the separator.
pub struct TagView {
    pub format: TagFormat,
    pub config: ConfigView,
    pub fields: FieldsView,
    pub artists: Seq<Seq<char>>,
    pub album_artists: Seq<Seq<char>>,
}

impl TagView {
    /// The same tag with other single-valued fields.
    pub open spec fn with_fields(self, fields: FieldsView) -> TagView {
        TagView { fields, ..self }
    }

    pub open spec fn well_formed(self) -> bool {
        self.format == TagFormat::Id3 ==> self.artists.len() <= 1 && self.album_artists.len() <= 1
    }
}

/// The first stored value, if any.
pub open spec fn first_of(stored: Seq<Seq<char>>) -> Option<Seq<char>> {
    if stored.len() == 0 {
        None
    } else {
        Some(stored[0])
    }
}

/// The names a caller sees for a stored artist list: a format with one string
/// has it split on the separator when the policy asks for it, and otherwise
/// returned whole; the other formats return their values as they are.
pub open spec fn listed(format: TagFormat, config: ConfigView, stored: Seq<Seq<char>>) -> Option<
    Seq<Seq<char>>,
> {
    if stored.len() == 0 {
        None
    } else if format == TagFormat::Id3 {
        if config.parse_multiple_artists {
            Some(split_on(stored[0], config.sep_artist))
        } else {
            Some(seq![stored[0]])
        }
    } else {
        Some(stored)
    }
}

/// The stored list after one more name: a format with one string appends the
/// separator and the name to it; the others append a value.
pub open spec fn added(format: TagFormat, config: ConfigView, stored: Seq<Seq<char>>, v: Seq<char>) -> Seq<
    Seq<char>,
> {
    if format == TagFormat::Id3 && stored.len() > 0 {
        seq![stored[0] + config.sep_artist + v]
    } else {
        stored.push(v)
    }
}

/// A tag of one of the three supported formats.
///
/// Every accessor goes to the backend of the variant that is held; the variant
/// never changes. Conversions through [`crate::any_tag::AnyTag`] are lossy.
pub enum ClearTag {
    Id3(Id3v2Tag),
    Flac(FlacTag),
    Mp4(Mp4Tag),
}

impl View for ClearTag {
    type V = TagView;

    open spec fn view(&self) -> TagView {
        match self {
            ClearTag::Id3(t) => TagView {
                format: TagFormat::Id3,
                config: t.config@,
                fields: t.fields@,
                artists: opt_list(t.artist),
                album_artists: opt_list(t.album_artist),
            },
            ClearTag::Flac(t) => TagView {
                format: TagFormat::Flac,
                config: t.config@,
                fields: t.fields@,
                artists: strings_view(t.artists@),
                album_artists: strings_view(t.album_artists@),
            },
            ClearTag::Mp4(t) => TagView {
                format: TagFormat::Mp4,
                config: t.config@,
                fields: t.fields@,
                artists: strings_view(t.artists@),
                album_artists: strings_view(t.album_artists@),
            },
        }
    }
}

impl ClearTag {
    /// The view of every tag is well formed.
    pub proof fn lemma_well_formed(&self)
        ensures
            self@.well_formed(),
    {
    }

    /// The format of the held backend.
    pub fn format(&self) -> (r: TagFormat)
        ensures
            r == self@.format,
    {
        match self {
            ClearTag::Id3(_) => TagFormat::Id3,
            ClearTag::Flac(_) => TagFormat::Flac,
            ClearTag::Mp4(_) => TagFormat::Mp4,
        }
    }

    fn fields(&self) -> (r: &Fields)
        ensures
            r@ == self@.fields,
    {
        match self {
            ClearTag::Id3(t) => &t.fields,
            ClearTag::Flac(t) => &t.fields,
            ClearTag::Mp4(t) => &t.fields,
        }
    }

    fn fields_mut(&mut self) -> (r: &mut Fields)
        ensures
            r@ == old(self)@.fields,
            final(self)@ == (TagView { fields: final(r)@, ..old(self)@ }),
    {
        match self {
            ClearTag::Id3(t) => &mut t.fields,
            ClearTag::Flac(t) => &mut t.fields,
            ClearTag::Mp4(t) => &mut t.fields,
        }
    }

    /// The title, if set.
    pub fn title(&self) -> (r: Option<&str>)
        ensures
            opt_str(r) == self@.fields.title,
    {
        borrow_str(&self.fields().title)
    }

    /// Stores the title, replacing any earlier value.
    pub fn set_title(&mut self, title: &str)
        ensures
            final(self)@ == old(self)@.with_fields(
                FieldsView { title: Some(title@), ..old(self)@.fields },
            ),
    {
        self.fields_mut().title = Some(title.to_owned());
    }

    /// Clears the title; nothing happens where it is absent.
    pub fn remove_title(&mut self)
        ensures
            final(self)@ == old(self)@.with_fields(FieldsView { title: None, ..old(self)@.fields }),
    {
        self.fields_mut().title = None;
    }

    /// The album title, if set.
    pub fn album_title(&self) -> (r: Option<&str>)
        ensures
            opt_str(r) == self@.fields.album_title,
    {
        borrow_str(&self.fields().album_title)
    }

    /// Stores the album title, replacing any earlier value.
    pub fn set_album_title(&mut self, album_title: &str)
        ensures
            final(self)@ == old(self)@.with_fields(
                FieldsView { album_title: Some(album_title@), ..old(self)@.fields },
            ),
    {
        self.fields_mut().album_title = Some(album_title.to_owned());
    }

    /// Clears the album title; nothing happens where it is absent.
    pub fn remove_album_title(&mut self)
        ensures
            final(self)@ == old(self)@.with_fields(FieldsView { album_title: None, ..old(self)@.fields }),
    {
        self.fields_mut().album_title = None;
    }

    /// The composer, if set.
    pub fn composer(&self) -> (r: Option<&str>)
        ensures
            opt_str(r) == self@.fields.composer,
    {
        borrow_str(&self.fields().composer)
    }

    /// Stores the composer, replacing any earlier value.
    pub fn set_composer(&mut self, composer: &str)
        ensures
            final(self)@ == old(self)@.with_fields(
                FieldsView { composer: Some(composer@), ..old(self)@.fields },
            ),
    {
        self.fields_mut().composer = Some(composer.to_owned());
    }

    /// Clears the composer; nothing happens where it is absent.
    pub fn remove_composer(&mut self)
        ensures
            final(self)@ == old(self)@.with_fields(FieldsView { composer: None, ..old(self)@.fields }),
    {
        self.fields_mut().composer = None;
    }

    /// The genre, if set.
    pub fn genre(&self) -> (r: Option<&str>)
        ensures
            opt_str(r) == self@.fields.genre,
    {
        borrow_str(&self.fields().genre)
    }

    /// Stores the genre, replacing any earlier value.
    pub fn set_genre(&mut self, genre: &str)
        ensures
            final(self)@ == old(self)@.with_fields(
                FieldsView { genre: Some(genre@), ..old(self)@.fields },
            ),
    {
        self.fields_mut().genre = Some(genre.to_owned());
    }

    /// Clears the genre; nothing happens where it is absent.
    pub fn remove_genre(&mut self)
        ensures
            final(self)@ == old(self)@.with_fields(FieldsView { genre: None, ..old(self)@.fields }),
    {
        self.fields_mut().genre = None;
    }

    /// The comment, if set.
    pub fn comment(&self) -> (r: Option<&str>)
        ensures
            opt_str(r) == self@.fields.comment,
    {
        borrow_str(&self.fields().comment)
    }

    /// Stores the comment, replacing any earlier value.
    pub fn set_comment(&mut self, comment: &str)
        ensures
            final(self)@ == old(self)@.with_fields(
                FieldsView { comment: Some(comment@), ..old(self)@.fields },
            ),
    {
        self.fields_mut().comment = Some(comment.to_owned());
    }

    /// Clears the comment; nothing happens where it is absent.
    pub fn remove_comment(&mut self)
        ensures
            final(self)@ == old(self)@.with_fields(FieldsView { comment: None, ..old(self)@.fields }),
    {
        self.fields_mut().comment = None;
    }

    /// The lyricist, if set.
    pub fn lyricist(&self) -> (r: Option<&str>)
        ensures
            opt_str(r) == self@.fields.lyricist,
    {
        borrow_str(&self.fields().lyricist)
    }

    /// Stores the lyricist, replacing any earlier value.
    pub fn set_lyricist(&mut self, lyricist: &str)
        ensures
            final(self)@ == old(self)@.with_fields(
                FieldsView { lyricist: Some(lyricist@), ..old(self)@.fields },
            ),
    {
        self.fields_mut().lyricist = Some(lyricist.to_owned());
    }

    /// Clears the lyricist; nothing happens where it is absent.
    pub fn remove_lyricist(&mut self)
        ensures
            final(self)@ == old(self)@.with_fields(FieldsView { lyricist: None, ..old(self)@.fields }),
    {
        self.fields_mut().lyricist = None;
    }

    /// The recording date, if set.
    pub fn date(&self) -> (r: Option<Timestamp>)
        ensures
            r == self@.fields.date,
    {
        self.fields().date
    }

    /// Stores the recording date, replacing any earlier value.
    pub fn set_date(&mut self, date: Timestamp)
        ensures
            final(self)@ == old(self)@.with_fields(
                FieldsView { date: Some(date), ..old(self)@.fields },
            ),
    {
        self.fields_mut().date = Some(date);
    }

    /// Clears the recording date; nothing happens where it is absent.
    pub fn remove_date(&mut self)
        ensures
            final(self)@ == old(self)@.with_fields(FieldsView { date: None, ..old(self)@.fields }),
    {
        self.fields_mut().date = None;
    }

    /// The year, if set.
    pub fn year(&self) -> (r: Option<i32>)
        ensures
            r == self@.fields.year,
    {
        self.fields().year
    }

    /// Stores the year, replacing any earlier value.
    pub fn set_year(&mut self, year: i32)
        ensures
            final(self)@ == old(self)@.with_fields(
                FieldsView { year: Some(year), ..old(self)@.fields },
            ),
    {
        self.fields_mut().year = Some(year);
    }

    /// Clears the year; nothing happens where it is absent.
    pub fn remove_year(&mut self)
        ensures
            final(self)@ == old(self)@.with_fields(FieldsView { year: None, ..old(self)@.fields }),
    {
        self.fields_mut().year = None;
    }

    /// The track number, if set.
    pub fn track_number(&self) -> (r: Option<u16>)
        ensures
            r == self@.fields.track_number,
    {
        self.fields().track_number
    }

    /// Stores the track number, replacing any earlier value.
    pub fn set_track_number(&mut self, track_number: u16)
        ensures
            final(self)@ == old(self)@.with_fields(
                FieldsView { track_number: Some(track_number), ..old(self)@.fields },
            ),
    {
        self.fields_mut().track_number = Some(track_number);
    }

    /// Clears the track number; nothing happens where it is absent.
    pub fn remove_track_number(&mut self)
        ensures
            final(self)@ == old(self)@.with_fields(FieldsView { track_number: None, ..old(self)@.fields }),
    {
        self.fields_mut().track_number = None;
    }

    /// The number of tracks on the disc, if set.
    pub fn total_tracks(&self) -> (r: Option<u16>)
        ensures
            r == self@.fields.total_tracks,
    {
        self.fields().total_tracks
    }

    /// Stores the number of tracks on the disc, replacing any earlier value.
    pub fn set_total_tracks(&mut self, total_tracks: u16)
        ensures
            final(self)@ == old(self)@.with_fields(
                FieldsView { total_tracks: Some(total_tracks), ..old(self)@.fields },
            ),
    {
        self.fields_mut().total_tracks = Some(total_tracks);
    }

    /// Clears the number of tracks on the disc; nothing happens where it is absent.
    pub fn remove_total_tracks(&mut self)
        ensures
            final(self)@ == old(self)@.with_fields(FieldsView { total_tracks: None, ..old(self)@.fields }),
    {
        self.fields_mut().total_tracks = None;
    }

    /// The disc number, if set.
    pub fn disc_number(&self) -> (r: Option<u16>)
        ensures
            r == self@.fields.disc_number,
    {
        self.fields().disc_number
    }

    /// Stores the disc number, replacing any earlier value.
    pub fn set_disc_number(&mut self, disc_number: u16)
        ensures
            final(self)@ == old(self)@.with_fields(
                FieldsView { disc_number: Some(disc_number), ..old(self)@.fields },
            ),
    {
        self.fields_mut().disc_number = Some(disc_number);
    }

    /// Clears the disc number; nothing happens where it is absent.
    pub fn remove_disc_number(&mut self)
        ensures
            final(self)@ == old(self)@.with_fields(FieldsView { disc_number: None, ..old(self)@.fields }),
    {
        self.fields_mut().disc_number = None;
    }

    /// The number of discs, if set.
    pub fn total_discs(&self) -> (r: Option<u16>)
        ensures
            r == self@.fields.total_discs,
    {
        self.fields().total_discs
    }

    /// Stores the number of discs, replacing any earlier value.
    pub fn set_total_discs(&mut self, total_discs: u16)
        ensures
            final(self)@ == old(self)@.with_fields(
                FieldsView { total_discs: Some(total_discs), ..old(self)@.fields },
            ),
    {
        self.fields_mut().total_discs = Some(total_discs);
    }

    /// Clears the number of discs; nothing happens where it is absent.
    pub fn remove_total_discs(&mut self)
        ensures
            final(self)@ == old(self)@.with_fields(FieldsView { total_discs: None, ..old(self)@.fields }),
    {
        self.fields_mut().total_discs = None;
    }

    /// The album cover, if set.
    pub fn album_cover(&self) -> (r: Option<&Picture>)
        ensures
            opt_picture_ref(r) == self@.fields.album_cover,
    {
        borrow_picture(&self.fields().album_cover)
    }

    /// Stores the album cover, replacing any earlier value.
    pub fn set_album_cover(&mut self, cover: Picture)
        ensures
            final(self)@ == old(self)@.with_fields(
                FieldsView { album_cover: Some(cover@), ..old(self)@.fields },
            ),
    {
        self.fields_mut().album_cover = Some(cover);
    }

    /// Clears the album cover; nothing happens where it is absent.
    pub fn remove_album_cover(&mut self)
        ensures
            final(self)@ == old(self)@.with_fields(FieldsView { album_cover: None, ..old(self)@.fields }),
    {
        self.fields_mut().album_cover = None;
    }

    /// The playing time in milliseconds, as the backend read it from the
    /// audio stream; `None` where it was not read.
    pub fn duration(&self) -> (r: Option<u64>)
        ensures
            r == self@.fields.duration_ms,
    {
        self.fields().duration_ms
    }

    /// The first stored artist, or for an ID3v2 tag the whole artist string.
    pub fn artist(&self) -> (r: Option<&str>)
        ensures
            opt_str(r) == first_of(self@.artists),
    {
        match self {
            ClearTag::Id3(t) => borrow_str(&t.artist),
            ClearTag::Flac(t) => first_str(&t.artists),
            ClearTag::Mp4(t) => first_str(&t.artists),
        }
    }

    /// Makes `artist` the only stored artist value.
    pub fn set_artist(&mut self, artist: &str)
        ensures
            final(self)@ == (TagView { artists: seq![artist@], ..old(self)@ }),
    {
        match self {
            ClearTag::Id3(t) => t.artist = Some(artist.to_owned()),
            ClearTag::Flac(t) => t.artists = single(artist),
            ClearTag::Mp4(t) => t.artists = single(artist),
        }
    }

    /// Clears every stored artist value.
    pub fn remove_artist(&mut self)
        ensures
            final(self)@ == (TagView { artists: Seq::empty(), ..old(self)@ }),
    {
        match self {
            ClearTag::Id3(t) => t.artist = None,
            ClearTag::Flac(t) => t.artists = Vec::new(),
            ClearTag::Mp4(t) => t.artists = Vec::new(),
        }
        assert(final(self)@.artists =~= Seq::empty());
    }

    /// The artist names, split or not according to the format and the policy.
    /// A stored empty string that is split reads as one empty name.
    pub fn artists(&self) -> (r: Option<Vec<String>>)
        ensures
            opt_strings(r) == listed(self@.format, self@.config, self@.artists),
    {
        match self {
            ClearTag::Id3(t) => list_joined(&t.artist, &t.config),
            ClearTag::Flac(t) => list_values(&t.artists),
            ClearTag::Mp4(t) => list_values(&t.artists),
        }
    }

    /// Adds one artist name after those already stored.
    pub fn add_artist(&mut self, artist: &str)
        ensures
            final(self)@ == (TagView {
                artists: added(old(self)@.format, old(self)@.config, old(self)@.artists, artist@),
                ..old(self)@
            }),
    {
        match self {
            ClearTag::Id3(t) => append_joined(&mut t.artist, t.config.sep_artist, artist),
            ClearTag::Flac(t) => append_value(&mut t.artists, artist),
            ClearTag::Mp4(t) => append_value(&mut t.artists, artist),
        }
    }

    /// The first stored album artist, or for an ID3v2 tag the whole string.
    pub fn album_artist(&self) -> (r: Option<&str>)
        ensures
            opt_str(r) == first_of(self@.album_artists),
    {
        match self {
            ClearTag::Id3(t) => borrow_str(&t.album_artist),
            ClearTag::Flac(t) => first_str(&t.album_artists),
            ClearTag::Mp4(t) => first_str(&t.album_artists),
        }
    }

    /// Makes `album_artist` the only stored album-artist value.
    pub fn set_album_artist(&mut self, album_artist: &str)
        ensures
            final(self)@ == (TagView { album_artists: seq![album_artist@], ..old(self)@ }),
    {
        match self {
            ClearTag::Id3(t) => t.album_artist = Some(album_artist.to_owned()),
            ClearTag::Flac(t) => t.album_artists = single(album_artist),
            ClearTag::Mp4(t) => t.album_artists = single(album_artist),
        }
    }

    /// Clears every stored album-artist value.
    pub fn remove_album_artist(&mut self)
        ensures
            final(self)@ == (TagView { album_artists: Seq::empty(), ..old(self)@ }),
    {
        match self {
            ClearTag::Id3(t) => t.album_artist = None,
            ClearTag::Flac(t) => t.album_artists = Vec::new(),
            ClearTag::Mp4(t) => t.album_artists = Vec::new(),
        }
        assert(final(self)@.album_artists =~= Seq::empty());
    }

    /// The album-artist names, split or not according to the format and the policy.
    pub fn album_artists(&self) -> (r: Option<Vec<String>>)
        ensures
            opt_strings(r) == listed(self@.format, self@.config, self@.album_artists),
    {
        match self {
            ClearTag::Id3(t) => list_joined(&t.album_artist, &t.config),
            ClearTag::Flac(t) => list_values(&t.album_artists),
            ClearTag::Mp4(t) => list_values(&t.album_artists),
        }
    }

    /// Adds one album-artist name after those already stored.
    pub fn add_album_artist(&mut self, album_artist: &str)
        ensures
            final(self)@ == (TagView {
                album_artists: added(
                    old(self)@.format,
                    old(self)@.config,
                    old(self)@.album_artists,
                    album_artist@,
                ),
                ..old(self)@
            }),
    {
        match self {
            ClearTag::Id3(t) => append_joined(&mut t.album_artist, t.config.sep_artist, album_artist),
            ClearTag::Flac(t) => append_value(&mut t.album_artists, album_artist),
            ClearTag::Mp4(t) => append_value(&mut t.album_artists, album_artist),
        }
    }

    /// The album: present exactly when an album title is set.
    pub fn album(&self) -> (r: Option<Album<'_>>)
        ensures
            opt_album(r) == album_of(self@),
    {
        match self.album_title() {
            Some(title) => Some(Album { title, artist: self.album_artist(), cover: self.album_cover() }),
            None => None,
        }
    }

    /// Stores the album's title, artist and cover; an absent artist or cover
    /// clears the stored one.
    pub fn set_album(&mut self, album: Album)
        ensures
            final(self)@ == (TagView {
                fields: (FieldsView {
                    album_title: Some(album.title@),
                    album_cover: album@.cover,
                    ..old(self)@.fields
                }),
                album_artists: opt_seq(album@.artist),
                ..old(self)@
            }),
    {
        self.set_album_title(album.title);
        match album.artist {
            Some(artist) => self.set_album_artist(artist),
            None => self.remove_album_artist(),
        }
        match album.cover {
            Some(cover) => self.set_album_cover(cover.duplicate()),
            None => self.remove_album_cover(),
        }
    }

    /// Clears the album's title, artist and cover.
    pub fn remove_album(&mut self)
        ensures
            final(self)@ == (TagView {
                fields: (FieldsView { album_title: None, album_cover: None, ..old(self)@.fields }),
                album_artists: Seq::empty(),
                ..old(self)@
            }),
    {
        self.remove_album_title();
        self.remove_album_artist();
        self.remove_album_cover();
    }

    /// The normalisation policy in effect.
    pub fn config(&self) -> (r: &Config)
        ensures
            r@ == self@.config,
    {
        match self {
            ClearTag::Id3(t) => &t.config,
            ClearTag::Flac(t) => &t.config,
            ClearTag::Mp4(t) => &t.config,
        }
    }

    /// Replaces the policy; stored values are left as they are.
    pub fn set_config(&mut self, config: Config)
        ensures
            final(self)@ == (TagView { config: config@, ..old(self)@ }),
    {
        match self {
            ClearTag::Id3(t) => t.config = config,
            ClearTag::Flac(t) => t.config = config,
            ClearTag::Mp4(t) => t.config = config,
        }
    }

    /// The ID3v2 backend, where that is the one held.
    pub fn get_inner_id3(&self) -> (r: Option<&Id3v2Tag>)
        ensures
            r == (match self {
                ClearTag::Id3(t) => Some(t),
                _ => None,
            }),
    {
        match self {
            ClearTag::Id3(t) => Some(t),
            _ => None,
        }
    }

    /// The FLAC backend, where that is the one held.
    pub fn get_inner_flac(&self) -> (r: Option<&FlacTag>)
        ensures
            r == (match self {
                ClearTag::Flac(t) => Some(t),
                _ => None,
            }),
    {
        match self {
            ClearTag::Flac(t) => Some(t),
            _ => None,
        }
    }

    /// The MP4 backend, where that is the one held.
    pub fn get_inner_mp4(&self) -> (r: Option<&Mp4Tag>)
        ensures
            r == (match self {
                ClearTag::Mp4(t) => Some(t),
                _ => None,
            }),
    {
        match self {
            ClearTag::Mp4(t) => Some(t),
            _ => None,
        }
    }

    /// The ID3v2 backend for changing, where that is the one held.
    pub fn get_inner_id3_mut(&mut self) -> (r: Option<&mut Id3v2Tag>)
        ensures
            match r {
                Some(t) => *old(self) == ClearTag::Id3(*t) && *final(self) == ClearTag::Id3(*final(t)),
                None => old(self)@.format != TagFormat::Id3 && *final(self) == *old(self),
            },
    {
        match self {
            ClearTag::Id3(t) => Some(t),
            _ => None,
        }
    }

    /// The FLAC backend for changing, where that is the one held.
    pub fn get_inner_flac_mut(&mut self) -> (r: Option<&mut FlacTag>)
        ensures
            match r {
                Some(t) => *old(self) == ClearTag::Flac(*t) && *final(self) == ClearTag::Flac(*final(t)),
                None => old(self)@.format != TagFormat::Flac && *final(self) == *old(self),
            },
    {
        match self {
            ClearTag::Flac(t) => Some(t),
            _ => None,
        }
    }

    /// The MP4 backend for changing, where that is the one held.
    pub fn get_inner_mp4_mut(&mut self) -> (r: Option<&mut Mp4Tag>)
        ensures
            match r {
                Some(t) => *old(self) == ClearTag::Mp4(*t) && *final(self) == ClearTag::Mp4(*final(t)),
                None => old(self)@.format != TagFormat::Mp4 && *final(self) == *old(self),
            },
    {
        match self {
            ClearTag::Mp4(t) => Some(t),
            _ => None,
        }
    }
}

/// In each format, what a setter stores its getter reads back, and after a
/// remover its getter reads nothing. For the artist and album-artist fields
/// the getter is `artist` / `album_artist`; for the album it is `album`.
pub proof fn law_set_then_get(
    t: TagView,
    s: Seq<char>,
    date: Timestamp,
    year: i32,
    n: u16,
    cover: PictureView,
    album: AlbumView,
)
    ensures
            t.with_fields(FieldsView { title: Some(s), ..t.fields }).fields.title == Some(s),
            t.with_fields(FieldsView { title: None, ..t.fields }).fields.title is None,
            t.with_fields(FieldsView { album_title: Some(s), ..t.fields }).fields.album_title == Some(s),
            t.with_fields(FieldsView { album_title: None, ..t.fields }).fields.album_title is None,
            t.with_fields(FieldsView { composer: Some(s), ..t.fields }).fields.composer == Some(s),
            t.with_fields(FieldsView { composer: None, ..t.fields }).fields.composer is None,
            t.with_fields(FieldsView { genre: Some(s), ..t.fields }).fields.genre == Some(s),
            t.with_fields(FieldsView { genre: None, ..t.fields }).fields.genre is None,
            t.with_fields(FieldsView { comment: Some(s), ..t.fields }).fields.comment == Some(s),
            t.with_fields(FieldsView { comment: None, ..t.fields }).fields.comment is None,
            t.with_fields(FieldsView { lyricist: Some(s), ..t.fields }).fields.lyricist == Some(s),
            t.with_fields(FieldsView { lyricist: None, ..t.fields }).fields.lyricist is None,
            t.with_fields(FieldsView { date: Some(date), ..t.fields }).fields.date == Some(date),
            t.with_fields(FieldsView { date: None, ..t.fields }).fields.date is None,
            t.with_fields(FieldsView { year: Some(year), ..t.fields }).fields.year == Some(year),
            t.with_fields(FieldsView { year: None, ..t.fields }).fields.year is None,
            t.with_fields(FieldsView { track_number: Some(n), ..t.fields }).fields.track_number == Some(n),
            t.with_fields(FieldsView { track_number: None, ..t.fields }).fields.track_number is None,
            t.with_fields(FieldsView { total_tracks: Some(n), ..t.fields }).fields.total_tracks == Some(n),
            t.with_fields(FieldsView { total_tracks: None, ..t.fields }).fields.total_tracks is None,
            t.with_fields(FieldsView { disc_number: Some(n), ..t.fields }).fields.disc_number == Some(n),
            t.with_fields(FieldsView { disc_number: None, ..t.fields }).fields.disc_number is None,
            t.with_fields(FieldsView { total_discs: Some(n), ..t.fields }).fields.total_discs == Some(n),
            t.with_fields(FieldsView { total_discs: None, ..t.fields }).fields.total_discs is None,
            t.with_fields(FieldsView { album_cover: Some(cover), ..t.fields }).fields.album_cover == Some(cover),
            t.with_fields(FieldsView { album_cover: None, ..t.fields }).fields.album_cover is None,
            first_of((TagView { artists: seq![s], ..t }).artists) == Some(s),
            first_of((TagView { artists: Seq::empty(), ..t }).artists) is None,
            first_of((TagView { album_artists: seq![s], ..t }).album_artists) == Some(s),
            first_of((TagView { album_artists: Seq::empty(), ..t }).album_artists) is None,
            album_of(
                TagView {
                    fields: (FieldsView {
                        album_title: Some(album.title),
                        album_cover: album.cover,
                        ..t.fields
                    }),
                    album_artists: opt_seq(album.artist),
                    ..t
                },
            ) == Some(album),
            album_of(
                TagView {
                    fields: (FieldsView { album_title: None, album_cover: None, ..t.fields }),
                    album_artists: Seq::empty(),
                    ..t
                },
            ) is None,
{
}

/// The names of an optional list of strings.
pub open spec fn opt_strings(o: Option<Vec<String>>) -> Option<Seq<Seq<char>>> {
    match o {
        Some(v) => Some(strings_view(v@)),
        None => None,
    }
}

/// An optional name as a list of at most one.
pub open spec fn opt_seq(o: Option<Seq<char>>) -> Seq<Seq<char>> {
    match o {
        Some(s) => seq![s],
        None => Seq::empty(),
    }
}

pub open spec fn opt_album(o: Option<Album>) -> Option<AlbumView> {
    match o {
        Some(a) => Some(a@),
        None => None,
    }
}

/// The album a tag describes: there is one exactly when an album title is set.
pub open spec fn album_of(v: TagView) -> Option<AlbumView> {
    match v.fields.album_title {
        Some(title) => Some(
            AlbumView { title, artist: first_of(v.album_artists), cover: v.fields.album_cover },
        ),
        None => None,
    }
}

fn first_str(v: &Vec<String>) -> (r: Option<&str>)
    ensures
        opt_str(r) == first_of(strings_view(v@)),
{
    if v.len() == 0 {
        None
    } else {
        Some(v[0].as_str())
    }
}

fn single(s: &str) -> (r: Vec<String>)
    ensures
        strings_view(r@) == seq![s@],
{
    let r = vec![s.to_owned()];
    assert(strings_view(r@) =~= seq![s@]);
    r
}

fn list_joined(stored: &Option<String>, config: &Config) -> (r: Option<Vec<String>>)
    ensures
        opt_strings(r) == listed(TagFormat::Id3, config@, opt_list(*stored)),
{
    match stored {
        None => None,
        Some(s) => {
            if config.parse_multiple_artists {
                Some(split_artists(s.as_str(), config.sep_artist))
            } else {
                Some(single(s.as_str()))
            }
        },
    }
}

fn list_values(stored: &Vec<String>) -> (r: Option<Vec<String>>)
    ensures
        opt_strings(r) == (if stored@.len() == 0 {
            None
        } else {
            Some(strings_view(stored@))
        }),
{
    if stored.len() == 0 {
        None
    } else {
        Some(copy_strings(stored))
    }
}

fn append_joined(stored: &mut Option<String>, sep: &str, v: &str)
    ensures
        opt_list(*final(stored)) == (match *old(stored) {
            Some(s) => seq![s@ + sep@ + v@],
            None => seq![v@],
        }),
{
    match stored {
        Some(s) => {
            s.append(sep);
            s.append(v);
        },
        None => *stored = Some(v.to_owned()),
    }
}

fn append_value(stored: &mut Vec<String>, v: &str)
    ensures
        strings_view(final(stored)@) == strings_view(old(stored)@).push(v@),
{
    stored.push(v.to_owned());
    assert(strings_view(final(stored)@) =~= strings_view(old(stored)@).push(v@));
}

} // verus!
