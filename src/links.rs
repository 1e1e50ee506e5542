//! Links posted in chat: the embed-friendly mirror of a social-media link,
//! the song-link lookup for a music link, and the catalog id in a manga
//! link.
use vstd::prelude::*;
use vstd::string::StringExecFns;

use crate::models::SonglinkResponse;
use crate::pattern::{first_match, first_match_of, group_of, take_group};

verus! {

/// A post on the short-message site.
pub const TWITTER_URL_PATTERN: &'static str = r"https?://(?:www\.)?(twitter\.com|x\.com)/([\w.-]+)/status/(\d+)";

/// A short video link.
pub const TIKTOK_URL_PATTERN: &'static str = r"https?://vt\.tiktok\.com/(\w+)";

/// An illustration page, optionally under a language and with a page index.
pub const PIXIV_ARTWORK_URL_PATTERN: &'static str = r"https?://(?:www\.)pixiv\.net/(?:(?P<lang>[a-z]{2})/)?artworks/(?P<id>\d+)(?:/(?P<idx>\d+))?";

/// A shortened illustration link.
pub const PIXIV_SHORT_URL_PATTERN: &'static str = r"https?://(?:www\.)pixiv\.net/i/(\d+)";

/// An illustration link of the old form.
pub const PIXIV_LEGACY_PATTERN: &'static str = r"https?://(?:www\.)?pixiv\.net/member_illust\.php\?illust_id=(\d+)";

/// A video or music-video link.
pub const YOUTUBE_URL_PATTERN: &'static str = r"(?:https?://)?(?:(?:www\.)?youtube\.com/watch\?v=|(?:www\.)?youtu\.be/|(?:music\.youtube\.com)/watch\?v=)([a-zA-Z0-9_-]{11})";

/// A track or album link on the streaming service.
pub const SPOTIFY_URL_PATTERN: &'static str = r"(?:https?://)?(?:open\.)?spotify\.com/(?:track|album)/([a-zA-Z0-9]{22})(?:\?.*)?";

/// A manga page on the catalog.
pub const MANGADEX_URL_PATTERN: &'static str = r"https?://(?:www\.)?mangadex\.org/title/([0-9a-fA-F-]+)";

/// The `i`-th group of the first match of `pattern` in `text`.
pub open spec fn group_in(pattern: Seq<char>, text: Seq<char>, i: int) -> Option<Seq<char>> {
    group_of(first_match_of(pattern, text), i)
}

/// Finds the `i`-th group of the first match of `pattern` in `text`.
pub fn find_group(pattern: &str, text: &str, i: usize) -> (r: Option<String>)
    ensures
        match r {
            Some(s) => group_in(pattern@, text@, i as int) == Some(s@),
            None => group_in(pattern@, text@, i as int) is None,
        },
{
    take_group(first_match(pattern, text), i)
}

/// The mirror of a short-message post: the same user and status on the
/// embed-friendly host.
pub open spec fn twitter_mirror_of(content: Seq<char>) -> Option<Seq<char>> {
    let user = group_in(TWITTER_URL_PATTERN@, content, 2);
    let status = group_in(TWITTER_URL_PATTERN@, content, 3);
    if user is Some && status is Some {
        Some("https://fixupx.com/"@ + user->Some_0 + "/status/"@ + status->Some_0)
    } else {
        None
    }
}

/// Rewrites the first short-message post link in a message.
pub fn twitter_mirror(content: &str) -> (r: Option<String>)
    ensures
        match r {
            Some(s) => twitter_mirror_of(content@) == Some(s@),
            None => twitter_mirror_of(content@) is None,
        },
{
    let user = find_group(TWITTER_URL_PATTERN, content, 2);
    let status = find_group(TWITTER_URL_PATTERN, content, 3);
    match (user, status) {
        (Some(u), Some(st)) => {
            let mut s = String::from_str("https://fixupx.com/");
            s.append(u.as_str());
            s.append("/status/");
            s.append(st.as_str());
            Some(s)
        },
        _ => None,
    }
}

/// The mirror of a short video link.
pub open spec fn tiktok_mirror_of(content: Seq<char>) -> Option<Seq<char>> {
    match group_in(TIKTOK_URL_PATTERN@, content, 1) {
        Some(id) => Some("https://vxtiktok.com/"@ + id),
        None => None,
    }
}

/// Rewrites the first short video link in a message.
pub fn tiktok_mirror(content: &str) -> (r: Option<String>)
    ensures
        match r {
            Some(s) => tiktok_mirror_of(content@) == Some(s@),
            None => tiktok_mirror_of(content@) is None,
        },
{
    match find_group(TIKTOK_URL_PATTERN, content, 1) {
        Some(id) => Some(String::from_str("https://vxtiktok.com/").concat(id.as_str())),
        None => None,
    }
}

/// The text of an optional group, empty when the group did not take part.
pub open spec fn or_empty(o: Option<Seq<char>>) -> Seq<char> {
    match o {
        Some(s) => s,
        None => Seq::empty(),
    }
}

/// The mirror path of an illustration page.
pub open spec fn artwork_path_of(lang: Seq<char>, id: Seq<char>, idx: Seq<char>) -> Seq<char> {
    let path = if lang.len() == 0 {
        "artworks/"@ + id
    } else {
        lang + "/artworks/"@ + id
    };
    if idx.len() != 0 {
        path + "/"@ + idx
    } else {
        path
    }
}

/// The mirror of the first illustration link in a message: a page link
/// first, else a shortened link, else an old-form link.
pub open spec fn pixiv_mirror_of(content: Seq<char>) -> Option<Seq<char>> {
    if first_match_of(PIXIV_ARTWORK_URL_PATTERN@, content) is Some {
        Some(
            "https://phixiv.net/"@ + artwork_path_of(
                or_empty(group_in(PIXIV_ARTWORK_URL_PATTERN@, content, 1)),
                or_empty(group_in(PIXIV_ARTWORK_URL_PATTERN@, content, 2)),
                or_empty(group_in(PIXIV_ARTWORK_URL_PATTERN@, content, 3)),
            ),
        )
    } else if group_in(PIXIV_SHORT_URL_PATTERN@, content, 1) is Some {
        Some("https://phixiv.net/i/"@ + group_in(PIXIV_SHORT_URL_PATTERN@, content, 1)->Some_0)
    } else if group_in(PIXIV_LEGACY_PATTERN@, content, 1) is Some {
        Some(
            "https://phixiv.net/member_illust.php?illust_id="@ + group_in(PIXIV_LEGACY_PATTERN@, content, 1)->Some_0,
        )
    } else {
        None
    }
}

fn text_or_empty(o: Option<String>) -> (r: String)
    ensures
        r@ == or_empty(
            match o {
                Some(s) => Some(s@),
                None => None,
            },
        ),
{
    match o {
        Some(s) => s,
        None => String::new(),
    }
}

/// Writes the mirror path of an illustration page.
pub fn artwork_path(lang: &str, id: &str, idx: &str) -> (r: String)
    ensures
        r@ == artwork_path_of(lang@, id@, idx@),
{
    let mut path = if lang.unicode_len() == 0 {
        String::from_str("artworks/").concat(id)
    } else {
        let mut p = String::from_str(lang);
        p.append("/artworks/");
        p.append(id);
        p
    };
    if idx.unicode_len() != 0 {
        path.append("/");
        path.append(idx);
    }
    path
}

/// Rewrites the first illustration link in a message.
pub fn pixiv_mirror(content: &str) -> (r: Option<String>)
    ensures
        match r {
            Some(s) => pixiv_mirror_of(content@) == Some(s@),
            None => pixiv_mirror_of(content@) is None,
        },
{
    let artwork = first_match(PIXIV_ARTWORK_URL_PATTERN, content);
    if artwork.is_some() {
        let lang = text_or_empty(take_group(artwork.clone(), 1));
        let id = text_or_empty(take_group(artwork.clone(), 2));
        let idx = text_or_empty(take_group(artwork, 3));
        let path = artwork_path(lang.as_str(), id.as_str(), idx.as_str());
        return Some(String::from_str("https://phixiv.net/").concat(path.as_str()));
    }
    match find_group(PIXIV_SHORT_URL_PATTERN, content, 1) {
        Some(id) => {
            return Some(String::from_str("https://phixiv.net/i/").concat(id.as_str()));
        },
        None => {},
    }
    match find_group(PIXIV_LEGACY_PATTERN, content, 1) {
        Some(id) => Some(String::from_str("https://phixiv.net/member_illust.php?illust_id=").concat(id.as_str())),
        None => None,
    }
}

/// The whole first video or music-video link in a message.
pub fn youtube_link(content: &str) -> (r: Option<String>)
    ensures
        match r {
            Some(s) => group_in(YOUTUBE_URL_PATTERN@, content@, 0) == Some(s@),
            None => group_in(YOUTUBE_URL_PATTERN@, content@, 0) is None,
        },
{
    find_group(YOUTUBE_URL_PATTERN, content, 0)
}

/// The whole first streaming-service link in a message.
pub fn spotify_link(content: &str) -> (r: Option<String>)
    ensures
        match r {
            Some(s) => group_in(SPOTIFY_URL_PATTERN@, content@, 0) == Some(s@),
            None => group_in(SPOTIFY_URL_PATTERN@, content@, 0) is None,
        },
{
    find_group(SPOTIFY_URL_PATTERN, content, 0)
}

/// The percent-encoding of a text for use in a query string.
pub uninterp spec fn url_encoded_of(s: Seq<char>) -> Seq<char>;

/// Relies on `urlencoding::encode`: every byte but ASCII letters, digits and
/// `-`, `_`, `.`, `~` is percent-encoded.
#[verifier::external_body]
fn url_encoded(s: &str) -> (r: String)
    ensures
        r@ == url_encoded_of(s@),
{
    urlencoding::encode(s).into_owned()
}

/// The song-link lookup for a music link.
pub open spec fn songlink_request_url_of(link: Seq<char>) -> Seq<char> {
    "https://api.song.link/v1-alpha.1/links?url="@ + url_encoded_of(link) + "&userCountry=JP"@
}

/// Writes the song-link lookup for a music link.
pub fn songlink_request_url(link: &str) -> (r: String)
    ensures
        r@ == songlink_request_url_of(link@),
{
    let mut s = String::from_str("https://api.song.link/v1-alpha.1/links?url=");
    s.append(url_encoded(link).as_str());
    s.append("&userCountry=JP");
    s
}

/// The reply when the lookup found no counterpart.
pub const NO_MATCH_REPLY: &'static str = "i didn't match anything for your link...";

/// The reply to a music-video link: the streaming-service counterpart, if
/// the lookup found one.
pub fn spotify_reply(resp: &SonglinkResponse) -> (r: Option<String>)
    ensures
        match resp.links_by_platform.spotify {
            Some(l) => r is Some && r->Some_0@ == "here's your spotify link: "@ + l.url@,
            None => r is None,
        },
{
    match &resp.links_by_platform.spotify {
        Some(l) => Some(String::from_str("here's your spotify link: ").concat(l.url.as_str())),
        None => None,
    }
}

/// The reply to a streaming-service link: the music-video counterpart, if
/// the lookup found one.
pub fn youtube_reply(resp: &SonglinkResponse) -> (r: Option<String>)
    ensures
        match resp.links_by_platform.youtube_music {
            Some(l) => r is Some && r->Some_0@ == "here's your youtube link: "@ + l.url@,
            None => r is None,
        },
{
    match &resp.links_by_platform.youtube_music {
        Some(l) => Some(String::from_str("here's your youtube link: ").concat(l.url.as_str())),
        None => None,
    }
}

/// The hyphenated form of the identifier that a text spells, if it spells
/// one.
pub uninterp spec fn uuid_of(s: Seq<char>) -> Option<Seq<char>>;

/// Relies on `uuid::Uuid::try_parse` and the hyphenated display of the
/// identifier.
#[verifier::external_body]
fn parse_uuid(s: &str) -> (r: Option<String>)
    ensures
        match r {
            Some(u) => uuid_of(s@) == Some(u@),
            None => uuid_of(s@) is None,
        },
{
    uuid::Uuid::try_parse(s).ok().map(|u| u.hyphenated().to_string())
}

/// Why a manga could not be read from a command's input.
#[derive(Clone, Copy, Debug, PartialEq, Eq, Structural)]
pub enum MangaInputError {
    /// A catalog link whose id is not an identifier.
    InvalidUuid,
    /// Neither a catalog link nor an identifier.
    InvalidLink,
}

impl MangaInputError {
    /// The reply that explains the error.
    pub fn message(&self) -> (r: &'static str)
        ensures
            r@ == match self {
                MangaInputError::InvalidUuid => "invalid uuid supplied."@,
                MangaInputError::InvalidLink => "invalid link supplied."@,
            },
    {
        match self {
            MangaInputError::InvalidUuid => "invalid uuid supplied.",
            MangaInputError::InvalidLink => "invalid link supplied.",
        }
    }
}

/// The manga id that a command's input names: the id in a catalog link, else
/// the input itself as an identifier.
pub open spec fn manga_id_of(input: Seq<char>) -> Result<Seq<char>, MangaInputError> {
    match group_in(MANGADEX_URL_PATTERN@, input, 1) {
        Some(g) => match uuid_of(g) {
            Some(u) => Ok(u),
            None => Err(MangaInputError::InvalidUuid),
        },
        None => match uuid_of(input) {
            Some(u) => Ok(u),
            None => Err(MangaInputError::InvalidLink),
        },
    }
}

/// Reads the manga id that a command's input names.
pub fn manga_id_from_input(input: &str) -> (r: Result<String, MangaInputError>)
    ensures
        match r {
            Ok(u) => manga_id_of(input@) == Ok::<Seq<char>, MangaInputError>(u@),
            Err(e) => manga_id_of(input@) == Err::<Seq<char>, MangaInputError>(e),
        },
{
    match find_group(MANGADEX_URL_PATTERN, input, 1) {
        Some(g) => match parse_uuid(g.as_str()) {
            Some(u) => Ok(u),
            None => Err(MangaInputError::InvalidUuid),
        },
        None => match parse_uuid(input) {
            Some(u) => Ok(u),
            None => Err(MangaInputError::InvalidLink),
        },
    }
}

/// The manga id in the first catalog link of a message, when the link holds
/// an identifier.
pub open spec fn manga_link_id_of(content: Seq<char>) -> Option<Seq<char>> {
    match group_in(MANGADEX_URL_PATTERN@, content, 1) {
        Some(g) => uuid_of(g),
        None => None,
    }
}

/// Reads the manga id of the first catalog link in a message.
pub fn manga_link_id(content: &str) -> (r: Option<String>)
    ensures
        match r {
            Some(u) => manga_link_id_of(content@) == Some(u@),
            None => manga_link_id_of(content@) is None,
        },
{
    match find_group(MANGADEX_URL_PATTERN, content, 1) {
        Some(g) => parse_uuid(g.as_str()),
        None => None,
    }
}

} // verus!
