use audiotags::{
    Album, AnyTag, ClearTag, Config, FlacTag, Id3v2Tag, MimeType, Mp4Tag, Picture, TagFormat,
    Timestamp,
};

fn all_formats() -> Vec<ClearTag> {
    vec![
        ClearTag::Id3(Id3v2Tag::new()),
        ClearTag::Flac(FlacTag::new()),
        ClearTag::Mp4(Mp4Tag::new()),
    ]
}

fn stamp() -> Timestamp {
    Timestamp { year: 2020, month: Some(5), day: Some(17), hour: None, minute: None, second: None }
}

fn names(v: &[&str]) -> Vec<String> {
    v.iter().map(|s| s.to_string()).collect()
}

#[test]
fn every_field_reads_back_what_was_set() {
    for mut tag in all_formats() {
        tag.set_title("Song");
        tag.set_artist("Someone");
        tag.set_date(stamp());
        tag.set_year(1999);
        tag.set_album_title("Record");
        tag.set_album_artist("Band");
        tag.set_album_cover(Picture::new(vec![1, 2, 3], MimeType::Png));
        tag.set_composer("Writer");
        tag.set_track_number(4);
        tag.set_total_tracks(11);
        tag.set_disc_number(1);
        tag.set_total_discs(2);
        tag.set_genre("Jazz");
        tag.set_comment("nice");
        tag.set_lyricist("Poet");
        assert_eq!(tag.title(), Some("Song"));
        assert_eq!(tag.artist(), Some("Someone"));
        assert_eq!(tag.date(), Some(stamp()));
        assert_eq!(tag.year(), Some(1999));
        assert_eq!(tag.album_title(), Some("Record"));
        assert_eq!(tag.album_artist(), Some("Band"));
        let cover = tag.album_cover().unwrap();
        assert_eq!(cover.data, vec![1, 2, 3]);
        assert_eq!(cover.mime_type, MimeType::Png);
        assert_eq!(tag.composer(), Some("Writer"));
        assert_eq!(tag.track_number(), Some(4));
        assert_eq!(tag.total_tracks(), Some(11));
        assert_eq!(tag.disc_number(), Some(1));
        assert_eq!(tag.total_discs(), Some(2));
        assert_eq!(tag.genre(), Some("Jazz"));
        assert_eq!(tag.comment(), Some("nice"));
        assert_eq!(tag.lyricist(), Some("Poet"));
    }
}

#[test]
fn every_field_is_gone_after_removal() {
    for mut tag in all_formats() {
        tag.set_title("Song");
        tag.set_artist("Someone");
        tag.set_year(1999);
        tag.set_track_number(4);
        tag.set_album_cover(Picture::new(vec![9], MimeType::Jpeg));
        tag.set_album_artist("Band");
        tag.remove_title();
        tag.remove_artist();
        tag.remove_year();
        tag.remove_track_number();
        tag.remove_album_cover();
        tag.remove_album_artist();
        tag.remove_date();
        assert_eq!(tag.title(), None);
        assert_eq!(tag.artist(), None);
        assert_eq!(tag.artists(), None);
        assert_eq!(tag.year(), None);
        assert_eq!(tag.track_number(), None);
        assert!(tag.album_cover().is_none());
        assert_eq!(tag.album_artist(), None);
        assert_eq!(tag.date(), None);
    }
}

#[test]
fn setting_replaces_the_earlier_value() {
    for mut tag in all_formats() {
        tag.set_genre("Rock");
        tag.set_genre("Pop");
        assert_eq!(tag.genre(), Some("Pop"));
        tag.add_artist("X");
        tag.add_artist("Y");
        tag.set_artist("Z");
        assert_eq!(tag.artist(), Some("Z"));
        assert_eq!(tag.artists(), Some(names(&["Z"])));
    }
}

#[test]
fn album_round_trip() {
    for mut tag in all_formats() {
        assert!(tag.album().is_none());
        let cover = Picture::new(vec![7, 8], MimeType::Gif);
        tag.set_album(Album { title: "Record", artist: Some("Band"), cover: Some(&cover) });
        {
            let album = tag.album().unwrap();
            assert_eq!(album.title, "Record");
            assert_eq!(album.artist, Some("Band"));
            assert_eq!(album.cover.unwrap().data, vec![7, 8]);
        }
        tag.set_album(Album { title: "Other", artist: None, cover: None });
        {
            let album = tag.album().unwrap();
            assert_eq!(album.title, "Other");
            assert_eq!(album.artist, None);
            assert!(album.cover.is_none());
        }
        tag.remove_album();
        assert!(tag.album().is_none());
        assert_eq!(tag.album_title(), None);
    }
}

#[test]
fn joined_artists_split_on_separator() {
    let mut tag = ClearTag::Id3(Id3v2Tag::new());
    tag.set_config(Config { sep_artist: ";", parse_multiple_artists: true, lang: "XXX" });
    tag.set_artist("A;B;C");
    assert_eq!(tag.artists(), Some(names(&["A", "B", "C"])));
    tag.set_config(Config { sep_artist: ";", parse_multiple_artists: false, lang: "XXX" });
    assert_eq!(tag.artists(), Some(names(&["A;B;C"])));
    assert_eq!(tag.artist(), Some("A;B;C"));
}

#[test]
fn joined_album_artists_split_on_separator() {
    let mut tag = ClearTag::Id3(Id3v2Tag::new());
    tag.set_album_artist("P/Q");
    assert_eq!(tag.album_artists(), Some(names(&["P/Q"])));
    tag.set_config(Config::default().sep_artist("/"));
    assert_eq!(tag.album_artists(), Some(names(&["P", "Q"])));
}

#[test]
fn add_artist_appends_with_separator() {
    let mut tag = ClearTag::Id3(Id3v2Tag::new());
    tag.set_artist("A;B");
    tag.add_artist("D");
    assert_eq!(tag.artist(), Some("A;B;D"));
    assert_eq!(tag.artists(), Some(names(&["A", "B", "D"])));
}

#[test]
fn add_artist_on_empty_joined_tag_stores_name_alone() {
    let mut tag = ClearTag::Id3(Id3v2Tag::new());
    tag.add_artist("D");
    assert_eq!(tag.artist(), Some("D"));
    tag.add_album_artist("E");
    tag.add_album_artist("F");
    assert_eq!(tag.album_artist(), Some("E;F"));
}

#[test]
fn add_artist_on_multi_value_formats_appends_entries() {
    for mut tag in vec![ClearTag::Flac(FlacTag::new()), ClearTag::Mp4(Mp4Tag::new())] {
        tag.add_artist("A;B");
        tag.add_artist("C");
        tag.add_artist("C");
        assert_eq!(tag.artist(), Some("A;B"));
        assert_eq!(tag.artists(), Some(names(&["A;B", "C", "C"])));
        tag.add_album_artist("X");
        assert_eq!(tag.album_artists(), Some(names(&["X"])));
    }
}

#[test]
fn empty_artist_string_splits_to_one_empty_name() {
    let mut tag = ClearTag::Id3(Id3v2Tag::new());
    tag.set_artist("");
    assert_eq!(tag.artists(), Some(names(&[""])));
}

#[test]
fn get_inner_matches_variant() {
    let mut flac = ClearTag::Flac(FlacTag::new());
    let mut mp4 = ClearTag::Mp4(Mp4Tag::new());
    let mut id3 = ClearTag::Id3(Id3v2Tag::new());
    assert!(flac.get_inner_flac().is_some());
    assert!(mp4.get_inner_flac().is_none());
    assert!(id3.get_inner_flac().is_none());
    assert!(mp4.get_inner_mp4().is_some());
    assert!(id3.get_inner_id3().is_some());
    assert!(flac.get_inner_id3().is_none());
    flac.get_inner_flac_mut().unwrap().artists.push("Inner".to_string());
    assert_eq!(flac.artist(), Some("Inner"));
    assert!(mp4.get_inner_id3_mut().is_none());
    id3.get_inner_id3_mut().unwrap().artist = Some("Direct".to_string());
    assert_eq!(id3.artist(), Some("Direct"));
    assert!(id3.get_inner_mp4_mut().is_none());
}

#[test]
fn fresh_mp4_tag_track_numbers() {
    let mut tag = ClearTag::Mp4(Mp4Tag::new());
    assert_eq!(tag.duration(), None);
    tag.set_track_number(3);
    tag.set_total_tracks(12);
    assert_eq!(tag.track_number(), Some(3));
    assert_eq!(tag.total_tracks(), Some(12));
}

#[test]
fn duration_is_read_from_backend() {
    let mut inner = FlacTag::new();
    inner.fields.duration_ms = Some(215_000);
    let tag = ClearTag::Flac(inner);
    assert_eq!(tag.duration(), Some(215_000));
}

#[test]
fn config_defaults_and_builders() {
    let c = Config::default();
    assert_eq!(c.sep_artist, ";");
    assert!(c.parse_multiple_artists);
    assert_eq!(c.lang, "XXX");
    let d = c.sep_artist(" & ").parse_multiple_artists(false).language("eng");
    assert_eq!(d.sep_artist, " & ");
    assert!(!d.parse_multiple_artists);
    assert_eq!(d.lang, "eng");
    let e = Config::default().sep_artist("");
    assert_eq!(e.sep_artist, "");
    assert_eq!(e.lang, "XXX");
}

#[test]
fn set_config_changes_reading_not_stored_data() {
    let mut tag = ClearTag::Id3(Id3v2Tag::new());
    tag.set_artist("A;B");
    tag.set_config(Config::default().sep_artist(","));
    assert_eq!(tag.config().sep_artist, ",");
    assert_eq!(tag.artist(), Some("A;B"));
    assert_eq!(tag.artists(), Some(names(&["A;B"])));
    tag.add_artist("C");
    assert_eq!(tag.artist(), Some("A;B,C"));
}

fn filled(format: TagFormat) -> ClearTag {
    let mut tag = ClearTag::from_anytag(&empty_any(), format);
    tag.set_title("Song");
    tag.add_artist("A");
    tag.add_artist("B");
    tag.set_date(stamp());
    tag.set_year(2001);
    tag.set_album_title("Record");
    tag.set_album_artist("Band");
    tag.set_album_cover(Picture::new(vec![5, 6], MimeType::Bmp));
    tag.set_composer("Writer");
    tag.set_track_number(2);
    tag.set_total_tracks(9);
    tag.set_disc_number(1);
    tag.set_total_discs(3);
    tag.set_genre("Folk");
    tag.set_comment("c");
    tag.set_lyricist("L");
    tag
}

fn empty_any() -> AnyTag {
    AnyTag {
        config: Config::default(),
        title: None,
        artists: None,
        date: None,
        year: None,
        duration_ms: None,
        album_title: None,
        album_artists: None,
        album_cover: None,
        track_number: None,
        total_tracks: None,
        disc_number: None,
        total_discs: None,
        genre: None,
        composer: None,
        comment: None,
        lyricist: None,
    }
}

#[test]
fn anytag_round_trip_keeps_fields() {
    for format in [TagFormat::Id3, TagFormat::Flac, TagFormat::Mp4] {
        let tag = filled(format);
        assert_eq!(tag.format(), format);
        let back = ClearTag::from_anytag(&tag.to_anytag(), format);
        assert_eq!(back.format(), format);
        assert_eq!(back.title(), tag.title());
        assert_eq!(back.artist(), tag.artist());
        assert_eq!(back.artists(), tag.artists());
        assert_eq!(back.date(), tag.date());
        assert_eq!(back.year(), tag.year());
        assert_eq!(back.album_title(), tag.album_title());
        assert_eq!(back.album_artist(), tag.album_artist());
        assert_eq!(back.album_cover().unwrap().data, vec![5, 6]);
        assert_eq!(back.composer(), tag.composer());
        assert_eq!(back.track_number(), Some(2));
        assert_eq!(back.total_tracks(), Some(9));
        assert_eq!(back.disc_number(), Some(1));
        assert_eq!(back.total_discs(), Some(3));
        assert_eq!(back.genre(), Some("Folk"));
        assert_eq!(back.comment(), Some("c"));
        assert_eq!(back.lyricist(), Some("L"));
    }
}

#[test]
fn anytag_carries_artist_lists() {
    let tag = filled(TagFormat::Id3);
    assert_eq!(tag.artist(), Some("A;B"));
    let any = tag.to_anytag();
    assert_eq!(any.artists, Some(names(&["A", "B"])));
    assert_eq!(any.album_artists, Some(names(&["Band"])));
    assert_eq!(any.title.as_deref(), Some("Song"));
}

#[test]
fn anytag_round_trip_without_splitting() {
    let mut tag = filled(TagFormat::Id3);
    tag.set_config(Config::default().parse_multiple_artists(false));
    let back = ClearTag::from_anytag(&tag.to_anytag(), TagFormat::Id3);
    assert_eq!(back.artist(), Some("A;B"));
    assert!(!back.config().parse_multiple_artists);
}

#[test]
fn conversion_between_formats_joins_or_keeps_artists() {
    let flac = filled(TagFormat::Flac);
    assert_eq!(flac.artists(), Some(names(&["A", "B"])));
    let id3 = ClearTag::from_anytag(&flac.to_anytag(), TagFormat::Id3);
    assert_eq!(id3.artist(), Some("A;B"));
    let mp4 = ClearTag::from_anytag(&id3.to_anytag(), TagFormat::Mp4);
    assert_eq!(mp4.artists(), Some(names(&["A", "B"])));
    assert_eq!(mp4.artist(), Some("A"));
}

#[test]
fn conversion_drops_duration() {
    let mut inner = Mp4Tag::new();
    inner.fields.duration_ms = Some(1000);
    let tag = ClearTag::Mp4(inner);
    let any = tag.to_anytag();
    assert_eq!(any.duration_ms, Some(1000));
    let back = ClearTag::from_anytag(&any, TagFormat::Mp4);
    assert_eq!(back.duration(), None);
}

#[test]
fn empty_artist_list_stores_nothing_in_joined_format() {
    let mut any = empty_any();
    any.artists = Some(Vec::new());
    let tag = ClearTag::from_anytag(&any, TagFormat::Id3);
    assert_eq!(tag.artist(), None);
    let flac = ClearTag::from_anytag(&any, TagFormat::Flac);
    assert_eq!(flac.artists(), None);
}
