//! The chapter tracker: watched manga, the latest qualifying chapter the
//! catalog reports for each, and the text of a new-chapter notification.
use vstd::prelude::*;
use vstd::string::StringExecFns;

use crate::listing::{joined, joined_of, views};
use crate::text::{decimal, decimal_of};
use crate::tracker::{
    changed_indices, law_failed_fetch_is_skipped, law_one_item_per_change, next_record, persists, scan, Fetched,
    TrackPolicy, Watched,
};

verus! {

/// A watched manga as stored: its row id, catalog id, when it was last
/// polled and the publish time of the newest chapter seen, in seconds since
/// the Unix epoch.
#[derive(Clone, Debug, PartialEq, Eq)]
pub struct Manga {
    pub id: i64,
    pub manga_dex_id: String,
    pub last_updated: i64,
    pub last_chapter_date: Option<i64>,
}

/// The newest chapter the catalog reports in the tracked language.
#[derive(Clone, Debug)]
pub struct ChapterInfo {
    pub id: String,
    pub chapter: Option<String>,
    pub volume: Option<String>,
    pub title: Option<String>,
    pub publish_at: Option<i64>,
}

/// What the catalog answered for one watched manga in one tick.
#[derive(Clone, Debug)]
pub enum ChapterFetch {
    /// A request for the manga or its feed failed.
    Failed,
    /// The feed answered; with no chapter when nothing qualifies.
    Latest(Option<ChapterInfo>),
}

/// Manga report a change on first sight and are left untouched when the
/// catalog cannot be reached.
pub open spec fn manga_policy() -> TrackPolicy {
    TrackPolicy { notify_first_sight: true, touch_on_failure: false }
}

/// The watched state of a stored manga.
pub open spec fn watch_of(m: Manga) -> Watched {
    Watched { fingerprint: m.last_chapter_date, last_checked_at: m.last_updated }
}

/// A numbered chapter with a publish time is an observation of that time;
/// a feed with nothing numbered or dated observes nothing.
pub open spec fn observation_of(f: ChapterFetch) -> Fetched {
    match f {
        ChapterFetch::Failed => Fetched::Failed,
        ChapterFetch::Latest(Some(c)) => if c.chapter is Some && c.publish_at is Some {
            Fetched::Observed(c.publish_at->Some_0)
        } else {
            Fetched::Absent
        },
        ChapterFetch::Latest(None) => Fetched::Absent,
    }
}

/// Reads one feed answer as an observation.
pub fn chapter_observation(f: &ChapterFetch) -> (r: Fetched)
    ensures
        r == observation_of(*f),
{
    match f {
        ChapterFetch::Failed => Fetched::Failed,
        ChapterFetch::Latest(Some(c)) => {
            if c.chapter.is_some() {
                match c.publish_at {
                    Some(t) => Fetched::Observed(t),
                    None => Fetched::Absent,
                }
            } else {
                Fetched::Absent
            }
        },
        ChapterFetch::Latest(None) => Fetched::Absent,
    }
}

/// The stored manga once its watched state is `w`.
pub open spec fn with_watch(m: Manga, w: Watched) -> Manga {
    Manga {
        id: m.id,
        manga_dex_id: m.manga_dex_id,
        last_updated: w.last_checked_at,
        last_chapter_date: w.fingerprint,
    }
}

/// The outcome of one chapter-tracker tick.
pub struct ChapterTick {
    /// Each manga as it stands after the tick, in input order.
    pub manga: Vec<Manga>,
    /// Whether each manga is written back.
    pub persist: Vec<bool>,
    /// The positions of the manga with a new chapter, in increasing order.
    pub changed: Vec<usize>,
}

/// Runs the change detector over every watched manga, given what the
/// catalog answered for each.
pub fn chapter_tick(manga: &Vec<Manga>, fetches: &Vec<ChapterFetch>, now: i64) -> (r: ChapterTick)
    requires
        manga.len() == fetches.len(),
    ensures
        r.manga@.len() == manga@.len(),
        r.persist@.len() == manga@.len(),
        forall|i: int|
            0 <= i < manga@.len() ==> {
                let w = next_record(watch_of(manga@[i]), observation_of(fetches@[i]), manga_policy(), now);
                &&& (#[trigger] r.manga@[i]).id == manga@[i].id
                &&& r.manga@[i].manga_dex_id@ == manga@[i].manga_dex_id@
                &&& r.manga@[i].last_updated == w.last_checked_at
                &&& r.manga@[i].last_chapter_date == w.fingerprint
            },
        forall|i: int|
            0 <= i < manga@.len() ==> #[trigger] r.persist@[i] == persists(
                observation_of(fetches@[i]),
                manga_policy(),
            ),
        r.changed@.map_values(|k: usize| k as int) == changed_indices(
            manga@.map_values(|m: Manga| watch_of(m)),
            fetches@.map_values(|f: ChapterFetch| observation_of(f)),
            manga_policy(),
        ),
{
    let mut watched: Vec<Watched> = Vec::new();
    let mut observed: Vec<Fetched> = Vec::new();
    let mut i: usize = 0;
    while i < manga.len()
        invariant
            manga.len() == fetches.len(),
            i <= manga.len(),
            watched@ == manga@.subrange(0, i as int).map_values(|m: Manga| watch_of(m)),
            observed@ == fetches@.subrange(0, i as int).map_values(|f: ChapterFetch| observation_of(f)),
        decreases manga.len() - i,
    {
        let m = &manga[i];
        watched.push(Watched { fingerprint: m.last_chapter_date, last_checked_at: m.last_updated });
        observed.push(chapter_observation(&fetches[i]));
        assert(watched@ =~= manga@.subrange(0, i + 1).map_values(|m: Manga| watch_of(m)));
        assert(observed@ =~= fetches@.subrange(0, i + 1).map_values(|f: ChapterFetch| observation_of(f)));
        i = i + 1;
    }
    assert(manga@.subrange(0, manga@.len() as int) =~= manga@);
    assert(fetches@.subrange(0, fetches@.len() as int) =~= fetches@);
    let policy = TrackPolicy { notify_first_sight: true, touch_on_failure: false };
    let s = scan(&watched, &observed, policy, now);
    let mut out: Vec<Manga> = Vec::new();
    let mut j: usize = 0;
    while j < manga.len()
        invariant
            j <= manga.len(),
            s.records@.len() == manga@.len(),
            watched@ == manga@.map_values(|m: Manga| watch_of(m)),
            observed@ == fetches@.map_values(|f: ChapterFetch| observation_of(f)),
            manga.len() == fetches.len(),
            policy == manga_policy(),
            forall|k: int|
                0 <= k < manga@.len() ==> #[trigger] s.records@[k] == next_record(
                    watched@[k],
                    observed@[k],
                    policy,
                    now,
                ),
            out@.len() == j,
            forall|k: int|
                0 <= k < j ==> {
                    let w = next_record(watch_of(manga@[k]), observation_of(fetches@[k]), manga_policy(), now);
                    &&& (#[trigger] out@[k]).id == manga@[k].id
                    &&& out@[k].manga_dex_id@ == manga@[k].manga_dex_id@
                    &&& out@[k].last_updated == w.last_checked_at
                    &&& out@[k].last_chapter_date == w.fingerprint
                },
        decreases manga.len() - j,
    {
        let w = s.records[j];
        out.push(
            Manga {
                id: manga[j].id,
                manga_dex_id: manga[j].manga_dex_id.clone(),
                last_updated: w.last_checked_at,
                last_chapter_date: w.fingerprint,
            },
        );
        j = j + 1;
    }
    ChapterTick { manga: out, persist: s.persist, changed: s.changed }
}

/// In one tick, a manga whose catalog request failed is not reported and
/// keeps its stored record, while a manga whose feed brings a numbered
/// chapter published after its stored chapter date (or with no date stored)
/// is reported and takes that chapter's publish time.
pub proof fn law_failed_manga_does_not_hold_back_others(
    manga: Seq<Manga>,
    fetches: Seq<ChapterFetch>,
    now: i64,
    x: int,
    y: int,
    t: i64,
)
    requires
        manga.len() == fetches.len(),
        0 <= x < manga.len(),
        0 <= y < manga.len(),
        fetches[x] is Failed,
        fetches[y] matches ChapterFetch::Latest(Some(c)) && c.chapter is Some && c.publish_at == Some(t),
        match manga[y].last_chapter_date {
            Some(d) => t > d,
            None => true,
        },
    ensures
        ({
            let w = manga.map_values(|m: Manga| watch_of(m));
            let f = fetches.map_values(|g: ChapterFetch| observation_of(g));
            let c = changed_indices(w, f, manga_policy());
            &&& !c.contains(x)
            &&& next_record(w[x], f[x], manga_policy(), now) == watch_of(manga[x])
            &&& !persists(f[x], manga_policy())
            &&& c.contains(y)
            &&& next_record(w[y], f[y], manga_policy(), now) == (Watched {
                fingerprint: Some(t),
                last_checked_at: now,
            })
            &&& persists(f[y], manga_policy())
        }),
{
    let w = manga.map_values(|m: Manga| watch_of(m));
    let f = fetches.map_values(|g: ChapterFetch| observation_of(g));
    assert(f[x] == Fetched::Failed);
    assert(f[y] == Fetched::Observed(t));
    law_failed_fetch_is_skipped(w, f, manga_policy(), now, x);
    law_one_item_per_change(w, f, manga_policy(), 1, y);
}

/// The heading of a new-chapter notification.
pub open spec fn chapter_heading_of(volume: Option<Seq<char>>, chapter: Seq<char>, title: Option<Seq<char>>) -> Seq<char> {
    let numbered = match volume {
        Some(v) => "Vol. "@ + v + ", Ch. "@ + chapter,
        None => "Ch. "@ + chapter,
    };
    match title {
        Some(t) => numbered + " - "@ + t,
        None => numbered,
    }
}

/// The view of an optional string.
pub open spec fn opt_view(o: Option<String>) -> Option<Seq<char>> {
    match o {
        Some(s) => Some(s@),
        None => None,
    }
}

/// Writes the volume, chapter number and chapter title of a new chapter.
pub fn chapter_heading(volume: &Option<String>, chapter: &str, title: &Option<String>) -> (r: String)
    ensures
        r@ == chapter_heading_of(opt_view(*volume), chapter@, opt_view(*title)),
{
    let mut s = match volume {
        Some(v) => {
            let mut s = String::from_str("Vol. ");
            s.append(v.as_str());
            s.append(", Ch. ");
            s.append(chapter);
            s
        },
        None => {
            let mut s = String::from_str("Ch. ");
            s.append(chapter);
            s
        },
    };
    match title {
        Some(t) => {
            s.append(" - ");
            s.append(t.as_str());
        },
        None => {},
    }
    s
}

/// The message text above a batch of new-chapter notifications.
pub open spec fn batch_header_of(n: int) -> Seq<char> {
    if n > 1 {
        "New chapters are out!"@
    } else {
        "A new chapter is out!"@
    }
}

/// Chooses the message text for a batch of `n` new chapters.
pub fn chapter_batch_header(n: usize) -> (r: &'static str)
    ensures
        r@ == batch_header_of(n as int),
{
    if n > 1 {
        "New chapters are out!"
    } else {
        "A new chapter is out!"
    }
}

/// The title shown for a manga: English, else romanized Japanese, else
/// Japanese.
pub open spec fn display_title_of(en: Option<Seq<char>>, ja_ro: Option<Seq<char>>, ja: Option<Seq<char>>) -> Option<Seq<char>> {
    if en is Some {
        en
    } else if ja_ro is Some {
        ja_ro
    } else {
        ja
    }
}

/// Picks the title to show for a manga from its localized titles.
pub fn display_title(en: Option<String>, ja_ro: Option<String>, ja: Option<String>) -> (r: Option<String>)
    ensures
        opt_view(r) == display_title_of(opt_view(en), opt_view(ja_ro), opt_view(ja)),
{
    match en {
        Some(t) => Some(t),
        None => match ja_ro {
            Some(t) => Some(t),
            None => ja,
        },
    }
}

/// The catalog page of a chapter.
pub fn chapter_url(id: &str) -> (r: String)
    ensures
        r@ == "https://mangadex.org/chapter/"@ + id@,
{
    String::from_str("https://mangadex.org/chapter/").concat(id)
}

/// The preview image of a chapter.
pub fn chapter_image_url(id: &str) -> (r: String)
    ensures
        r@ == "https://og.mangadex.org/og-image/chapter/"@ + id@,
{
    String::from_str("https://og.mangadex.org/og-image/chapter/").concat(id)
}

/// The catalog page of a manga.
pub fn manga_url(id: &str) -> (r: String)
    ensures
        r@ == "https://mangadex.org/title/"@ + id@,
{
    String::from_str("https://mangadex.org/title/").concat(id)
}

/// The preview image of a manga.
pub fn manga_image_url(id: &str) -> (r: String)
    ensures
        r@ == "https://og.mangadex.org/og-image/manga/"@ + id@,
{
    String::from_str("https://og.mangadex.org/og-image/manga/").concat(id)
}

/// The tag line of a manga: its content rating in bold, when known, before
/// its tags.
pub open spec fn tags_line_of(rating: Option<Seq<char>>, tags: Seq<char>) -> Seq<char> {
    match rating {
        Some(r) => "**"@ + r + "**, "@ + tags,
        None => tags,
    }
}

/// Writes the tag line of a manga from its content rating and its tags.
pub fn tags_line(rating: &Option<String>, tags: &Vec<String>) -> (r: String)
    ensures
        r@ == tags_line_of(opt_view(*rating), joined_of(views(tags@))),
{
    let t = joined(tags);
    match rating {
        Some(r) => {
            let mut s = String::from_str("**");
            s.append(r.as_str());
            s.append("**, ");
            s.append(t.as_str());
            s
        },
        None => t,
    }
}

/// The publication line of a manga: its year, when known, then its status.
pub open spec fn publication_line_of(year: Option<u16>, status: Seq<char>) -> Seq<char> {
    match year {
        Some(y) => decimal_of(y as nat) + ", "@ + status,
        None => status,
    }
}

/// Writes the publication line of a manga.
pub fn publication_line(year: Option<u16>, status: &str) -> (r: String)
    ensures
        r@ == publication_line_of(year, status@),
{
    match year {
        Some(y) => {
            let mut s = decimal(y as u64);
            s.append(", ");
            s.append(status);
            s
        },
        None => String::from_str(status),
    }
}

/// A known value, or the word "unknown".
pub fn or_unknown(value: Option<String>) -> (r: String)
    ensures
        r@ == match value {
            Some(v) => v@,
            None => "unknown"@,
        },
{
    match value {
        Some(v) => v,
        None => String::from_str("unknown"),
    }
}

/// The list page of a manga on the tracking site.
pub fn anilist_url(id: &str) -> (r: String)
    ensures
        r@ == "https://anilist.co/manga/"@ + id@,
{
    String::from_str("https://anilist.co/manga/").concat(id)
}

/// The reply once a manga is tracked, after a note when the shared list
/// could not be updated.
pub open spec fn tracked_reply_of(list_failed: bool, title: Seq<char>, id: Seq<char>) -> Seq<char> {
    let note = if list_failed {
        "*failed to update the mdlist. it will (hopefully) be updated the next time you add a manga. you can also try running `s>manga sync` to sync the mdlist.*\n\n"@
    } else {
        Seq::empty()
    };
    note + "added [**"@ + title + "**](https://mangadex.org/title/"@ + id
        + ") to the tracking list! you will be notified when a new chapter is uploaded."@
}

/// Writes the reply once a manga is tracked.
pub fn tracked_reply(list_failed: bool, title: &str, id: &str) -> (r: String)
    ensures
        r@ == tracked_reply_of(list_failed, title@, id@),
{
    let mut s = if list_failed {
        String::from_str(
            "*failed to update the mdlist. it will (hopefully) be updated the next time you add a manga. you can also try running `s>manga sync` to sync the mdlist.*\n\n",
        )
    } else {
        String::new()
    };
    s.append("added [**");
    s.append(title);
    s.append("**](https://mangadex.org/title/");
    s.append(id);
    s.append(") to the tracking list! you will be notified when a new chapter is uploaded.");
    s
}

/// The reply when the manga is tracked already.
pub fn already_tracked_reply(title: &str) -> (r: String)
    ensures
        r@ == "**"@ + title@ + "** is already in the tracking list."@,
{
    let mut s = String::from_str("**");
    s.append(title);
    s.append("** is already in the tracking list.");
    s
}

} // verus!
