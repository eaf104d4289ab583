use vstd::prelude::*;

verus! {

/// The mathematical content of a [`Config`].
pub struct ConfigView {
    pub sep_artist: Seq<char>,
    pub parse_multiple_artists: bool,
    pub lang: Seq<char>,
}

/// Normalisation policy shared by every tag format.
///
/// A `Config` is a plain value: the builder methods consume it and hand back a
/// modified copy, so a value never changes once it is in use.
#[derive(Clone, Copy)]
pub struct Config {
    /// The separator used when parsing and formatting multiple artists in
    /// formats that store all artists in one string.
    pub sep_artist: &'static str,
    /// Whether the artist string is split on `sep_artist` when read.
    pub parse_multiple_artists: bool,
    /// Language of comments, a three-letter code. Defaults to `"XXX"`.
    pub lang: &'static str,
}

impl View for Config {
    type V = ConfigView;

    open spec fn view(&self) -> ConfigView {
        ConfigView {
            sep_artist: self.sep_artist@,
            parse_multiple_artists: self.parse_multiple_artists,
            lang: self.lang@,
        }
    }
}

/// The policy a fresh `Config` carries: `";"` as separator, splitting on, language `"XXX"`.
pub open spec fn default_config() -> ConfigView {
    ConfigView { sep_artist: seq![';'], parse_multiple_artists: true, lang: seq!['X', 'X', 'X'] }
}

impl Default for Config {
    fn default() -> (r: Self)
        ensures
            r@ == default_config(),
    {
        proof {
            reveal_strlit(";");
            reveal_strlit("XXX");
        }
        let r = Config { sep_artist: ";", parse_multiple_artists: true, lang: "XXX" };
        assert(r@.sep_artist =~= seq![';']);
        assert(r@.lang =~= seq!['X', 'X', 'X']);
        r
    }
}

impl Config {
    /// Replaces the artist separator. An empty separator is accepted; it turns
    /// splitting into a no-op.
    pub fn sep_artist(self, sep: &'static str) -> (r: Self)
        ensures
            r@ == (ConfigView { sep_artist: sep@, ..self@ }),
    {
        let mut c = self;
        c.sep_artist = sep;
        c
    }

    /// Turns splitting of single-string artist fields on or off.
    pub fn parse_multiple_artists(self, parse_multiple_artists: bool) -> (r: Self)
        ensures
            r@ == (ConfigView { parse_multiple_artists, ..self@ }),
    {
        let mut c = self;
        c.parse_multiple_artists = parse_multiple_artists;
        c
    }

    /// Replaces the comment language; the code is not validated.
    pub fn language(self, lang: &'static str) -> (r: Self)
        ensures
            r@ == (ConfigView { lang: lang@, ..self@ }),
    {
        let mut c = self;
        c.lang = lang;
        c
    }
}

} // verus!
