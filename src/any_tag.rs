use vstd::prelude::*;

use crate::artists::{join_artists, join_with, lemma_join_split, lemma_split_nonempty, strings_view};
use crate::backends::{copy_strings, opt_list, Fields, FieldsView, FlacTag, Id3v2Tag, Mp4Tag};
use crate::clear_tag::{listed, opt_strings, ClearTag, TagFormat, TagView};
use crate::config::{Config, ConfigView};
use crate::types::{borrow_picture, borrow_str, copy_picture, copy_str, opt_picture, opt_string, Picture, Timestamp};

verus! {

/// The mathematical content of an [`AnyTag`].
pub struct AnyTagView {
    pub config: ConfigView,
    pub fields: FieldsView,
    pub artists: Option<Seq<Seq<char>>>,
    pub album_artists: Option<Seq<Seq<char>>>,
}

/// A format-neutral bag of optional fields, used to carry a tag's content from
/// one format to another. Conversions in either direction may lose fields.
pub struct AnyTag {
    pub config: Config,
    pub title: Option<String>,
    pub artists: Option<Vec<String>>,
    pub date: Option<Timestamp>,
    pub year: Option<i32>,
    pub duration_ms: Option<u64>,
    pub album_title: Option<String>,
    pub album_artists: Option<Vec<String>>,
    pub album_cover: Option<Picture>,
    pub track_number: Option<u16>,
    pub total_tracks: Option<u16>,
    pub disc_number: Option<u16>,
    pub total_discs: Option<u16>,
    pub genre: Option<String>,
    pub composer: Option<String>,
    pub comment: Option<String>,
    pub lyricist: Option<String>,
}

impl View for AnyTag {
    type V = AnyTagView;

    open spec fn view(&self) -> AnyTagView {
        AnyTagView {
            config: self.config@,
            fields: FieldsView {
                title: opt_string(self.title),
                date: self.date,
                year: self.year,
                album_title: opt_string(self.album_title),
                album_cover: opt_picture(self.album_cover),
                composer: opt_string(self.composer),
                track_number: self.track_number,
                total_tracks: self.total_tracks,
                disc_number: self.disc_number,
                total_discs: self.total_discs,
                genre: opt_string(self.genre),
                comment: opt_string(self.comment),
                lyricist: opt_string(self.lyricist),
                duration_ms: self.duration_ms,
            },
            artists: opt_strings(self.artists),
            album_artists: opt_strings(self.album_artists),
        }
    }
}

/// What a tag reads as in the neutral form: every field through its getter,
/// the artist lists as `artists` and `album_artists` give them.
pub open spec fn anytag_of(t: TagView) -> AnyTagView {
    AnyTagView {
        config: t.config,
        fields: t.fields,
        artists: listed(t.format, t.config, t.artists),
        album_artists: listed(t.format, t.config, t.album_artists),
    }
}

/// How a format stores a list of names: a format with one string joins a
/// non-empty list with the separator; the others keep the values.
pub open spec fn stored_from(format: TagFormat, config: ConfigView, names: Option<Seq<Seq<char>>>) -> Seq<
    Seq<char>,
> {
    match names {
        None => Seq::empty(),
        Some(ns) => if format == TagFormat::Id3 {
            if ns.len() == 0 {
                Seq::empty()
            } else {
                seq![join_with(ns, config.sep_artist)]
            }
        } else {
            ns
        },
    }
}

/// A fresh tag of `format` filled from the neutral form. The duration belongs
/// to an audio stream, so a fresh tag has none.
pub open spec fn tag_from_any(a: AnyTagView, format: TagFormat) -> TagView {
    TagView {
        format,
        config: a.config,
        fields: FieldsView { duration_ms: None, ..a.fields },
        artists: stored_from(format, a.config, a.artists),
        album_artists: stored_from(format, a.config, a.album_artists),
    }
}

/// Converting a tag to the neutral form and back into its own format keeps
/// every field that a setter can write, the artist lists and the policy; only
/// the duration, which no setter writes, is lost.
pub proof fn law_anytag_round_trip(t: TagView)
    requires
        t.well_formed(),
    ensures
        tag_from_any(anytag_of(t), t.format) == (TagView {
            fields: (FieldsView { duration_ms: None, ..t.fields }),
            ..t
        }),
{
    lemma_stored_listed(t.format, t.config, t.artists);
    lemma_stored_listed(t.format, t.config, t.album_artists);
}

proof fn lemma_stored_listed(format: TagFormat, config: ConfigView, stored: Seq<Seq<char>>)
    requires
        format == TagFormat::Id3 ==> stored.len() <= 1,
    ensures
        stored_from(format, config, listed(format, config, stored)) == stored,
{
    if stored.len() == 0 {
        assert(stored =~= Seq::empty());
    } else if format == TagFormat::Id3 {
        if config.parse_multiple_artists {
            lemma_split_nonempty(stored[0], config.sep_artist);
            lemma_join_split(stored[0], config.sep_artist);
        } else {
            assert(join_with(seq![stored[0]], config.sep_artist) == stored[0]);
        }
        assert(stored =~= seq![stored[0]]);
    }
}

fn copy_names(names: &Option<Vec<String>>) -> (r: Option<Vec<String>>)
    ensures
        opt_strings(r) == opt_strings(*names),
{
    match names {
        Some(v) => Some(copy_strings(v)),
        None => None,
    }
}

fn joined_from(names: &Option<Vec<String>>, config: &Config) -> (r: Option<String>)
    ensures
        opt_list(r) == stored_from(TagFormat::Id3, config@, opt_strings(*names)),
{
    match names {
        Some(v) => {
            if v.len() == 0 {
                None
            } else {
                Some(join_artists(v, config.sep_artist))
            }
        },
        None => None,
    }
}

fn values_from(names: &Option<Vec<String>>) -> (r: Vec<String>)
    ensures
        strings_view(r@) == (match opt_strings(*names) {
            Some(ns) => ns,
            None => Seq::empty(),
        }),
{
    match names {
        Some(v) => copy_strings(v),
        None => {
            let r: Vec<String> = Vec::new();
            assert(strings_view(r@) =~= Seq::empty());
            r
        },
    }
}

impl AnyTag {
    fn fields(&self) -> (r: Fields)
        ensures
            r@ == (FieldsView { duration_ms: None, ..self@.fields }),
    {
        Fields {
            title: copy_str(borrow_str(&self.title)),
            date: self.date,
            year: self.year,
            album_title: copy_str(borrow_str(&self.album_title)),
            album_cover: copy_picture(borrow_picture(&self.album_cover)),
            composer: copy_str(borrow_str(&self.composer)),
            track_number: self.track_number,
            total_tracks: self.total_tracks,
            disc_number: self.disc_number,
            total_discs: self.total_discs,
            genre: copy_str(borrow_str(&self.genre)),
            comment: copy_str(borrow_str(&self.comment)),
            lyricist: copy_str(borrow_str(&self.lyricist)),
            duration_ms: None,
        }
    }
}

impl ClearTag {
    /// The tag's content in the neutral form.
    pub fn to_anytag(&self) -> (r: AnyTag)
        ensures
            r@ == anytag_of(self@),
    {
        AnyTag {
            config: *self.config(),
            title: copy_str(self.title()),
            artists: self.artists(),
            date: self.date(),
            year: self.year(),
            duration_ms: self.duration(),
            album_title: copy_str(self.album_title()),
            album_artists: self.album_artists(),
            album_cover: copy_picture(self.album_cover()),
            track_number: self.track_number(),
            total_tracks: self.total_tracks(),
            disc_number: self.disc_number(),
            total_discs: self.total_discs(),
            genre: copy_str(self.genre()),
            composer: copy_str(self.composer()),
            comment: copy_str(self.comment()),
            lyricist: copy_str(self.lyricist()),
        }
    }

    /// A fresh tag of `format` holding what `any` carries, so far as the
    /// format can hold it.
    pub fn from_anytag(any: &AnyTag, format: TagFormat) -> (r: ClearTag)
        ensures
            r@ == tag_from_any(any@, format),
    {
        let fields = any.fields();
        match format {
            TagFormat::Id3 => ClearTag::Id3(
                Id3v2Tag {
                    fields,
                    artist: joined_from(&any.artists, &any.config),
                    album_artist: joined_from(&any.album_artists, &any.config),
                    config: any.config,
                },
            ),
            TagFormat::Flac => ClearTag::Flac(
                FlacTag {
                    fields,
                    artists: values_from(&any.artists),
                    album_artists: values_from(&any.album_artists),
                    config: any.config,
                },
            ),
            TagFormat::Mp4 => ClearTag::Mp4(
                Mp4Tag {
                    fields,
                    artists: values_from(&any.artists),
                    album_artists: values_from(&any.album_artists),
                    config: any.config,
                },
            ),
        }
    }
}

} // verus!
