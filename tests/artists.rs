use audiotags::{join_artists, split_artists, Picture, MimeType};

fn names(v: &[&str]) -> Vec<String> {
    v.iter().map(|s| s.to_string()).collect()
}

#[test]
fn split_on_single_char() {
    assert_eq!(split_artists("A;B;C", ";"), names(&["A", "B", "C"]));
}

#[test]
fn split_without_separator_present() {
    assert_eq!(split_artists("Solo", ";"), names(&["Solo"]));
}

#[test]
fn split_empty_string() {
    assert_eq!(split_artists("", ";"), names(&[""]));
}

#[test]
fn split_with_empty_separator_keeps_whole() {
    assert_eq!(split_artists("A;B", ""), names(&["A;B"]));
}

#[test]
fn split_keeps_empty_pieces() {
    assert_eq!(split_artists(";A;;B;", ";"), names(&["", "A", "", "B", ""]));
}

#[test]
fn split_on_multi_char_separator() {
    assert_eq!(split_artists("Ann & Bob & Cy", " & "), names(&["Ann", "Bob", "Cy"]));
    assert_eq!(split_artists("aaa", "aa"), names(&["", "a"]));
}

#[test]
fn split_non_ascii() {
    assert_eq!(split_artists("Björk·Sigur Rós", "·"), names(&["Björk", "Sigur Rós"]));
}

#[test]
fn join_values() {
    assert_eq!(join_artists(&names(&["A", "B", "C"]), ";"), "A;B;C");
    assert_eq!(join_artists(&names(&["A"]), ";"), "A");
    assert_eq!(join_artists(&Vec::new(), ";"), "");
    assert_eq!(join_artists(&names(&["", ""]), " / "), " / ");
}

#[test]
fn join_after_split_restores() {
    for (s, sep) in [("A;B;;C", ";"), ("x--y-", "--"), ("", ","), ("abc", "")] {
        assert_eq!(join_artists(&split_artists(s, sep), sep), s);
    }
}

#[test]
fn picture_duplicate_is_equal() {
    let p = Picture::new(vec![1, 2, 3, 4], MimeType::Tiff);
    let q = p.duplicate();
    assert_eq!(q.data, vec![1, 2, 3, 4]);
    assert_eq!(q.mime_type, MimeType::Tiff);
}

#[test]
fn mime_names_round_trip() {
    for m in [MimeType::Png, MimeType::Jpeg, MimeType::Tiff, MimeType::Bmp, MimeType::Gif] {
        assert_eq!(MimeType::from_mime_name(m.mime_name()), Some(m));
    }
    assert_eq!(MimeType::Jpeg.mime_name(), "image/jpeg");
    assert_eq!(MimeType::from_mime_name("image/gif"), Some(MimeType::Gif));
    assert_eq!(MimeType::from_mime_name("image/webp"), None);
    assert_eq!(MimeType::from_mime_name(""), None);
}
