use vstd::prelude::*;

verus! {

/// The image formats an embedded cover may have.
#[derive(Clone, Copy, Debug, PartialEq, Eq)]
pub enum MimeType {
    Png,
    Jpeg,
    Tiff,
    Bmp,
    Gif,
}

/// The MIME name of each image format.
pub open spec fn mime_name_of(m: MimeType) -> Seq<char> {
    match m {
        MimeType::Png => "image/png"@,
        MimeType::Jpeg => "image/jpeg"@,
        MimeType::Tiff => "image/tiff"@,
        MimeType::Bmp => "image/bmp"@,
        MimeType::Gif => "image/gif"@,
    }
}

/// The image format whose MIME name is `s`, if any.
pub open spec fn mime_of_name(s: Seq<char>) -> Option<MimeType> {
    if s == mime_name_of(MimeType::Png) {
        Some(MimeType::Png)
    } else if s == mime_name_of(MimeType::Jpeg) {
        Some(MimeType::Jpeg)
    } else if s == mime_name_of(MimeType::Tiff) {
        Some(MimeType::Tiff)
    } else if s == mime_name_of(MimeType::Bmp) {
        Some(MimeType::Bmp)
    } else if s == mime_name_of(MimeType::Gif) {
        Some(MimeType::Gif)
    } else {
        None
    }
}

impl MimeType {
    /// The MIME name, such as `"image/png"`.
    pub fn mime_name(self) -> (r: &'static str)
        ensures
            r@ == mime_name_of(self),
    {
        match self {
            MimeType::Png => "image/png",
            MimeType::Jpeg => "image/jpeg",
            MimeType::Tiff => "image/tiff",
            MimeType::Bmp => "image/bmp",
            MimeType::Gif => "image/gif",
        }
    }

    /// The image format named by a MIME name; `None` for any other text.
    pub fn from_mime_name(s: &str) -> (r: Option<MimeType>)
        ensures
            r == mime_of_name(s@),
    {
        if same_chars(s, MimeType::Png.mime_name()) {
            Some(MimeType::Png)
        } else if same_chars(s, MimeType::Jpeg.mime_name()) {
            Some(MimeType::Jpeg)
        } else if same_chars(s, MimeType::Tiff.mime_name()) {
            Some(MimeType::Tiff)
        } else if same_chars(s, MimeType::Bmp.mime_name()) {
            Some(MimeType::Bmp)
        } else if same_chars(s, MimeType::Gif.mime_name()) {
            Some(MimeType::Gif)
        } else {
            None
        }
    }
}

fn same_chars(a: &str, b: &str) -> (r: bool)
    ensures
        r == (a@ == b@),
{
    let n = a.unicode_len();
    if n != b.unicode_len() {
        return false;
    }
    let mut i: usize = 0;
    while i < n
        invariant
            n == a@.len(),
            n == b@.len(),
            i <= n,
            forall|j: int| 0 <= j < i ==> a@[j] == b@[j],
        decreases n - i,
    {
        if a.get_char(i) != b.get_char(i) {
            return false;
        }
        i = i + 1;
    }
    assert(a@ =~= b@);
    true
}

/// The mathematical content of a [`Picture`].
pub struct PictureView {
    pub data: Seq<u8>,
    pub mime_type: MimeType,
}

/// An embedded image: its bytes and their format.
#[derive(Debug)]
pub struct Picture {
    pub data: Vec<u8>,
    pub mime_type: MimeType,
}

impl View for Picture {
    type V = PictureView;

    open spec fn view(&self) -> PictureView {
        PictureView { data: self.data@, mime_type: self.mime_type }
    }
}

impl Picture {
    pub fn new(data: Vec<u8>, mime_type: MimeType) -> (r: Picture)
        ensures
            r@ == (PictureView { data: data@, mime_type }),
    {
        Picture { data, mime_type }
    }

    /// An independent copy of the picture.
    pub fn duplicate(&self) -> (r: Picture)
        ensures
            r@ == self@,
    {
        let mut data: Vec<u8> = Vec::new();
        let mut i: usize = 0;
        while i < self.data.len()
            invariant
                i <= self.data@.len(),
                data@ == self.data@.subrange(0, i as int),
            decreases self.data@.len() - i,
        {
            data.push(self.data[i]);
            i = i + 1;
            assert(data@ =~= self.data@.subrange(0, i as int));
        }
        assert(data@ =~= self.data@);
        Picture { data, mime_type: self.mime_type }
    }
}

/// A recording date with optional finer parts, as ID3v2 timestamps have it.
#[derive(Clone, Copy, Debug, PartialEq, Eq)]
pub struct Timestamp {
    pub year: i32,
    pub month: Option<u8>,
    pub day: Option<u8>,
    pub hour: Option<u8>,
    pub minute: Option<u8>,
    pub second: Option<u8>,
}

/// The album a track belongs to, borrowed from the tag it was read from.
pub struct Album<'a> {
    pub title: &'a str,
    pub artist: Option<&'a str>,
    pub cover: Option<&'a Picture>,
}

/// The mathematical content of an [`Album`].
pub struct AlbumView {
    pub title: Seq<char>,
    pub artist: Option<Seq<char>>,
    pub cover: Option<PictureView>,
}

impl<'a> View for Album<'a> {
    type V = AlbumView;

    open spec fn view(&self) -> AlbumView {
        AlbumView { title: self.title@, artist: opt_str(self.artist), cover: opt_picture_ref(self.cover) }
    }
}

pub open spec fn opt_string(o: Option<String>) -> Option<Seq<char>> {
    match o {
        Some(s) => Some(s@),
        None => None,
    }
}

pub open spec fn opt_str(o: Option<&str>) -> Option<Seq<char>> {
    match o {
        Some(s) => Some(s@),
        None => None,
    }
}

pub open spec fn opt_picture(o: Option<Picture>) -> Option<PictureView> {
    match o {
        Some(p) => Some(p@),
        None => None,
    }
}

pub open spec fn opt_picture_ref(o: Option<&Picture>) -> Option<PictureView> {
    match o {
        Some(p) => Some(p@),
        None => None,
    }
}

pub fn borrow_str(o: &Option<String>) -> (r: Option<&str>)
    ensures
        opt_str(r) == opt_string(*o),
{
    match o {
        Some(s) => Some(s.as_str()),
        None => None,
    }
}

pub fn copy_str(o: Option<&str>) -> (r: Option<String>)
    ensures
        opt_string(r) == opt_str(o),
{
    match o {
        Some(s) => Some(s.to_owned()),
        None => None,
    }
}

pub fn borrow_picture(o: &Option<Picture>) -> (r: Option<&Picture>)
    ensures
        opt_picture_ref(r) == opt_picture(*o),
{
    match o {
        Some(p) => Some(p),
        None => None,
    }
}

pub fn copy_picture(o: Option<&Picture>) -> (r: Option<Picture>)
    ensures
        opt_picture(r) == opt_picture_ref(o),
{
    match o {
        Some(p) => Some(p.duplicate()),
        None => None,
    }
}

} // verus!
