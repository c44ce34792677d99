//! The metadata normalizer: from a JSON value of one of several known shapes to
//! the canonical "now playing" record.

use crate::json::Json;
use crate::text::{find, split_once, starts_with, trim, trimmed};
use vstd::prelude::*;

verus! {

/// The canonical record of what is on air. A record is built whole and never
/// changed afterwards; a newer one replaces it.
#[derive(Clone, Debug, PartialEq, Eq)]
pub struct NowPlaying {
    pub artist: Option<String>,
    pub title: Option<String>,
    pub art_url: Option<String>,
}

/// What a record says, as plain sequences of characters.
pub struct NowPlayingView {
    pub artist: Option<Seq<char>>,
    pub title: Option<Seq<char>>,
    pub art_url: Option<Seq<char>>,
}

/// The characters of an optional string.
pub open spec fn chars(field: Option<String>) -> Option<Seq<char>> {
    match field {
        Some(s) => Some(s@),
        None => None,
    }
}

impl View for NowPlaying {
    type V = NowPlayingView;

    open spec fn view(&self) -> NowPlayingView {
        NowPlayingView {
            artist: chars(self.artist),
            title: chars(self.title),
            art_url: chars(self.art_url),
        }
    }
}

/// What an optional record says.
pub open spec fn said(record: Option<NowPlaying>) -> Option<NowPlayingView> {
    match record {
        Some(r) => Some(r@),
        None => None,
    }
}

impl Default for NowPlaying {
    /// The record that says nothing.
    fn default() -> (record: NowPlaying)
        ensures
            record@ == (NowPlayingView { artist: None, title: None, art_url: None }),
    {
        NowPlaying { artist: None, title: None, art_url: None }
    }
}

/// The first of `keys` that names a member of `value`, as that member.
pub open spec fn first_member(value: Json, keys: Seq<&str>) -> Option<Json>
    decreases keys.len(),
{
    if keys.len() == 0 {
        None
    } else if value.member(keys[0]@) is Some {
        value.member(keys[0]@)
    } else {
        first_member(value, keys.skip(1))
    }
}

/// The characters of a member that is present and a string.
pub open spec fn text_of(found: Option<Json>) -> Option<Seq<char>> {
    match found {
        Some(value) => value.text(),
        None => None,
    }
}

fn get_first<'a>(value: &'a Json, keys: &[&str]) -> (found: Option<&'a Json>)
    ensures
        match found {
            Some(member) => first_member(*value, keys@) == Some(*member),
            None => first_member(*value, keys@) is None,
        },
{
    let mut i: usize = 0;
    assert(keys@.skip(0) =~= keys@);
    while i < keys.len()
        invariant
            i <= keys@.len(),
            first_member(*value, keys@) == first_member(*value, keys@.skip(i as int)),
        decreases keys@.len() - i,
    {
        let found = value.get(keys[i]);
        if found.is_some() {
            return found;
        }
        assert(keys@.skip(i as int).skip(1) =~= keys@.skip(i + 1));
        i += 1;
    }
    None
}

fn owned_text(found: Option<&Json>) -> (out: Option<String>)
    ensures
        chars(out) == text_of(
            match found {
                Some(v) => Some(*v),
                None => None,
            },
        ),
{
    match found {
        Some(value) => match value.as_str() {
            Some(s) => Some(s.to_owned()),
            None => None,
        },
        None => None,
    }
}

/// The origin that relative artwork paths are resolved against.
pub const API_ORIGIN: &'static str = "https://api.plaza.one";

/// The separator between artist and title in an Icecast stream title.
pub const TITLE_SEPARATOR: &'static str = " - ";

/// The absolute form of an artwork reference: an absolute URL stands as it is,
/// a protocol-relative one gets the `https:` scheme, a root-relative path is
/// appended to the API origin, and anything else is a path below that origin.
pub open spec fn art_url_of(raw: Seq<char>) -> Seq<char> {
    if "http://"@.is_prefix_of(raw) || "https://"@.is_prefix_of(raw) {
        raw
    } else if "//"@.is_prefix_of(raw) {
        "https:"@ + raw
    } else if "/"@.is_prefix_of(raw) {
        API_ORIGIN@ + raw
    } else {
        API_ORIGIN@ + "/"@ + raw
    }
}

/// The absolute form of an artwork reference that may be missing.
pub open spec fn absolute(art: Option<Seq<char>>) -> Option<Seq<char>> {
    match art {
        Some(raw) => Some(art_url_of(raw)),
        None => None,
    }
}

/// The record that a candidate object holds: `artist` from the key of that
/// name; `title` from the first present of `title`, `song`, `track`; the
/// artwork from the first present of seven known keys, made absolute. A
/// candidate with neither artist nor title holds no record, artwork or not.
pub open spec fn song_info(value: Json) -> Option<NowPlayingView> {
    let artist = text_of(value.member("artist"@));
    let title = text_of(first_member(value, seq!["title", "song", "track"]));
    let art = text_of(
        first_member(
            value,
            seq!["artwork", "artwork_url", "art", "cover", "cover_url", "image", "album_art"],
        ),
    );
    if artist is Some || title is Some {
        Some(NowPlayingView { artist, title, art_url: absolute(art) })
    } else {
        None
    }
}

/// The record that an Icecast stream title stands for: artist and title on
/// either side of the first separator, each trimmed; the whole string as the
/// title when there is no separator.
pub open spec fn split_title(single: Seq<char>) -> NowPlayingView {
    match find(single, TITLE_SEPARATOR@) {
        Some(at) => NowPlayingView {
            artist: Some(trimmed(single.subrange(0, at))),
            title: Some(trimmed(single.subrange(at + TITLE_SEPARATOR@.len(), single.len() as int))),
            art_url: None,
        },
        None => NowPlayingView { artist: None, title: Some(single), art_url: None },
    }
}

/// The record of an Icecast status document: the title of `icestats.source`,
/// or of the first source where there are several.
pub open spec fn icecast_info(value: Json) -> Option<NowPlayingView> {
    match value.member("icestats"@) {
        Some(stats) => match stats.member("source"@) {
            Some(source) => match text_of(source.head().member("title"@)) {
                Some(single) => Some(split_title(single)),
                None => None,
            },
            None => None,
        },
        None => None,
    }
}

/// The record read from a document of unknown shape. Flat `artist` and `title`
/// keys come first: either of them makes a record, with the artwork from the
/// first present of `artwork`, `image`, `art`, made absolute. Artwork alone
/// makes none. Next comes a `current` or `now_playing` member, read as a
/// candidate object and deciding the outcome if present. The Icecast shape is
/// tried last. A value that is no object holds no record.
pub open spec fn possible_metadata(value: Json) -> Option<NowPlayingView> {
    let artist = text_of(value.member("artist"@));
    let title = text_of(value.member("title"@));
    let image = text_of(first_member(value, seq!["artwork", "image", "art"]));
    let nested = first_member(value, seq!["current", "now_playing"]);
    if !(value is Object) {
        None
    } else if artist is Some || title is Some {
        Some(NowPlayingView { artist, title, art_url: absolute(image) })
    } else if nested is Some {
        song_info(nested->0)
    } else {
        icecast_info(value)
    }
}

/// The record read from the primary endpoint's document. The first present of
/// `now_playing`, `broadcast.now_playing` and `current_song` is read as a
/// candidate object and decides the outcome; a document with none of them is
/// read as one of unknown shape.
pub open spec fn plaza_api(value: Json) -> Option<NowPlayingView> {
    let direct = value.member("now_playing"@);
    let nested = match value.member("broadcast"@) {
        Some(broadcast) => broadcast.member("now_playing"@),
        None => None,
    };
    let current = value.member("current_song"@);
    if direct is Some {
        song_info(direct->0)
    } else if nested is Some {
        song_info(nested->0)
    } else if current is Some {
        song_info(current->0)
    } else {
        possible_metadata(value)
    }
}

/// Makes an artwork reference absolute.
pub fn normalize_art_url(raw: &str) -> (url: String)
    ensures
        url@ == art_url_of(raw@),
{
    if starts_with(raw, "http://") || starts_with(raw, "https://") {
        raw.to_owned()
    } else if starts_with(raw, "//") {
        "https:".to_owned().concat(raw)
    } else if starts_with(raw, "/") {
        API_ORIGIN.to_owned().concat(raw)
    } else {
        API_ORIGIN.to_owned().concat("/").concat(raw)
    }
}

/// Reads the artwork reference that a member holds, if it is present and a
/// string, and makes it absolute.
fn absolute_art(found: Option<&Json>) -> (url: Option<String>)
    ensures
        chars(url) == absolute(
            text_of(
                match found {
                    Some(member) => Some(*member),
                    None => None,
                },
            ),
        ),
{
    match found {
        Some(member) => match member.as_str() {
            Some(raw) => Some(normalize_art_url(raw)),
            None => None,
        },
        None => None,
    }
}

/// Reads the record that a candidate object holds.
pub fn extract_song_info(value: &Json) -> (record: Option<NowPlaying>)
    ensures
        said(record) == song_info(*value),
{
    let artist = owned_text(value.get("artist"));
    let title_keys = ["title", "song", "track"];
    let title = owned_text(get_first(value, &title_keys));
    let art_keys = ["artwork", "artwork_url", "art", "cover", "cover_url", "image", "album_art"];
    let art_url = absolute_art(get_first(value, &art_keys));
    if artist.is_some() || title.is_some() {
        Some(NowPlaying { artist, title, art_url })
    } else {
        None
    }
}

/// Reads the record that an Icecast stream title stands for.
pub fn parse_stream_title(single: String) -> (record: NowPlaying)
    ensures
        record@ == split_title(single@),
{
    match split_once(single.as_str(), TITLE_SEPARATOR) {
        Some((artist, title)) => NowPlaying {
            artist: Some(trim(artist.as_str())),
            title: Some(trim(title.as_str())),
            art_url: None,
        },
        None => NowPlaying { artist: None, title: Some(single), art_url: None },
    }
}

/// Reads the record of a document of unknown shape.
pub fn parse_possible_metadata(value: &Json) -> (record: Option<NowPlaying>)
    ensures
        said(record) == possible_metadata(*value),
{
    if !value.is_object() {
        return None;
    }
    let artist = owned_text(value.get("artist"));
    let title = owned_text(value.get("title"));
    if artist.is_some() || title.is_some() {
        let image_keys = ["artwork", "image", "art"];
        let art_url = absolute_art(get_first(value, &image_keys));
        return Some(NowPlaying { artist, title, art_url });
    }
    let nested_keys = ["current", "now_playing"];
    if let Some(current) = get_first(value, &nested_keys) {
        return extract_song_info(current);
    }
    if let Some(stats) = value.get("icestats") {
        if let Some(source) = stats.get("source") {
            if let Some(single) = owned_text(source.first_or_self().get("title")) {
                return Some(parse_stream_title(single));
            }
        }
    }
    None
}

/// Reads the record of the primary endpoint's document.
pub fn parse_plaza_api(value: &Json) -> (record: Option<NowPlaying>)
    ensures
        said(record) == plaza_api(*value),
{
    if let Some(now_playing) = value.get("now_playing") {
        return extract_song_info(now_playing);
    }
    if let Some(broadcast) = value.get("broadcast") {
        if let Some(now_playing) = broadcast.get("now_playing") {
            return extract_song_info(now_playing);
        }
    }
    if let Some(current) = value.get("current_song") {
        return extract_song_info(current);
    }
    parse_possible_metadata(value)
}

} // verus!
