//! Paged lists shown in chat: the order of the tracked manga, the text of
//! each page, and the pager that moves between pages.
use vstd::prelude::*;
use vstd::string::StringExecFns;

use crate::batching::Batch;
use crate::text::{decimal, decimal_of, signed_decimal, signed_decimal_of};

verus! {

/// A tracked manga as listed: its title, catalog id and the publish time of
/// its newest chapter.
pub struct ListedManga {
    pub title: String,
    pub id: String,
    pub last_updated: Option<i64>,
}

/// A manga with publish time `a` may be listed before one with `b`: newer
/// first, those never updated last.
pub open spec fn listed_before(a: Option<i64>, b: Option<i64>) -> bool {
    match (a, b) {
        (Some(x), Some(y)) => x >= y,
        (Some(_), None) => true,
        (None, None) => true,
        (None, Some(_)) => false,
    }
}

fn listed_before_exec(a: Option<i64>, b: Option<i64>) -> (r: bool)
    ensures
        r == listed_before(a, b),
{
    match (a, b) {
        (Some(x), Some(y)) => x >= y,
        (Some(_), None) => true,
        (None, None) => true,
        (None, Some(_)) => false,
    }
}

/// The listing order of manga with the given publish times: a permutation
/// of the positions, newest first and never-updated last.
pub fn listing_order(dates: &Vec<Option<i64>>) -> (r: Vec<usize>)
    ensures
        r@.len() == dates@.len(),
        forall|k: int| 0 <= k < r@.len() ==> (#[trigger] r@[k]) < dates@.len(),
        forall|a: int, b: int| 0 <= a < b < r@.len() ==> r@[a] != r@[b],
        forall|a: int, b: int|
            0 <= a < b < r@.len() ==> listed_before(dates@[r@[a] as int], dates@[r@[b] as int]),
{
    let mut out: Vec<usize> = Vec::new();
    let mut i: usize = 0;
    while i < dates.len()
        invariant
            i <= dates.len(),
            out@.len() == i,
            forall|k: int| 0 <= k < out@.len() ==> (#[trigger] out@[k]) < i,
            forall|a: int, b: int| 0 <= a < b < out@.len() ==> out@[a] != out@[b],
            forall|a: int, b: int|
                0 <= a < b < out@.len() ==> listed_before(dates@[out@[a] as int], dates@[out@[b] as int]),
        decreases dates.len() - i,
    {
        let d = dates[i];
        let mut p: usize = 0;
        while p < out.len() && listed_before_exec(dates[out[p]], d)
            invariant
                p <= out@.len(),
                out@.len() == i,
                i < dates@.len(),
                d == dates@[i as int],
                forall|k: int| 0 <= k < out@.len() ==> (#[trigger] out@[k]) < i,
                forall|k: int| 0 <= k < p ==> listed_before(dates@[(#[trigger] out@[k]) as int], d),
            decreases out@.len() - p,
        {
            p = p + 1;
        }
        let ghost old_out = out@;
        out.insert(p, i);
        assert forall|a: int, b: int| 0 <= a < b < out@.len() implies listed_before(
            dates@[out@[a] as int],
            dates@[out@[b] as int],
        ) by {
            if p < old_out.len() {
                assert(!listed_before(dates@[old_out[p as int] as int], d));
            }
            if a < p && b == p {
            } else if a == p && b > p {
                assert(listed_before(dates@[old_out[p as int] as int], dates@[old_out[b - 1] as int]) || b - 1 == p);
            } else if a < p && b > p {
                assert(out@[b] == old_out[b - 1]);
            } else if a > p {
                assert(out@[a] == old_out[a - 1]);
                assert(out@[b] == old_out[b - 1]);
            }
        }
        i = i + 1;
    }
    out
}

/// Puts the listed manga in listing order: newest chapter first, those
/// never updated last.
pub fn in_listing_order(entries: &Vec<ListedManga>) -> (r: Vec<ListedManga>)
    ensures
        r@.len() == entries@.len(),
        exists|order: Seq<usize>|
            {
                &&& #[trigger] order.len() == entries@.len()
                &&& forall|k: int| 0 <= k < order.len() ==> (#[trigger] order[k]) < entries@.len()
                &&& forall|a: int, b: int| 0 <= a < b < order.len() ==> order[a] != order[b]
                &&& forall|k: int|
                    0 <= k < order.len() ==> (#[trigger] r@[k]).title@ == entries@[order[k] as int].title@
                        && r@[k].id@ == entries@[order[k] as int].id@ && r@[k].last_updated
                        == entries@[order[k] as int].last_updated
            },
        forall|a: int, b: int| 0 <= a < b < r@.len() ==> listed_before(r@[a].last_updated, r@[b].last_updated),
{
    let mut dates: Vec<Option<i64>> = Vec::new();
    let mut i: usize = 0;
    while i < entries.len()
        invariant
            i <= entries.len(),
            dates@.len() == i,
            forall|k: int| 0 <= k < i ==> #[trigger] dates@[k] == entries@[k].last_updated,
        decreases entries.len() - i,
    {
        dates.push(entries[i].last_updated);
        i = i + 1;
    }
    let order = listing_order(&dates);
    let mut out: Vec<ListedManga> = Vec::new();
    let mut j: usize = 0;
    while j < order.len()
        invariant
            j <= order.len(),
            order@.len() == entries@.len(),
            dates@.len() == entries@.len(),
            forall|k: int| 0 <= k < entries@.len() ==> #[trigger] dates@[k] == entries@[k].last_updated,
            forall|k: int| 0 <= k < order@.len() ==> (#[trigger] order@[k]) < entries@.len(),
            out@.len() == j,
            forall|k: int|
                0 <= k < j ==> (#[trigger] out@[k]).title@ == entries@[order@[k] as int].title@ && out@[k].id@
                    == entries@[order@[k] as int].id@ && out@[k].last_updated
                    == entries@[order@[k] as int].last_updated,
        decreases order.len() - j,
    {
        let e = &entries[order[j]];
        out.push(ListedManga { title: e.title.clone(), id: e.id.clone(), last_updated: e.last_updated });
        j = j + 1;
    }
    assert forall|a: int, b: int| 0 <= a < b < out@.len() implies listed_before(
        out@[a].last_updated,
        out@[b].last_updated,
    ) by {
        assert(dates@[order@[a] as int] == out@[a].last_updated);
        assert(dates@[order@[b] as int] == out@[b].last_updated);
    }
    assert(order@.len() == entries@.len());
    out
}

/// The list line of the manga at 1-based position `pos`.
pub open spec fn manga_line_of(pos: nat, m: ListedManga) -> Seq<char> {
    let link = decimal_of(pos) + ". ["@ + m.title@ + "](https://mangadex.org/title/"@ + m.id@ + ")"@;
    match m.last_updated {
        Some(t) => link + " (last updated: <t:"@ + signed_decimal_of(t as int) + ":R>)\n"@,
        None => link + "\n"@,
    }
}

/// The lines of the first `k` manga of a page that starts at `start`.
pub open spec fn manga_page_upto(entries: Seq<ListedManga>, start: nat, k: nat) -> Seq<char>
    decreases k,
{
    if k == 0 {
        Seq::empty()
    } else {
        manga_page_upto(entries, start, (k - 1) as nat) + manga_line_of(start + k, entries[start + k - 1])
    }
}

/// Writes one page of the manga list, numbering the entries from the
/// page's start.
pub fn manga_page(entries: &Vec<ListedManga>, page: Batch) -> (r: String)
    requires
        page.start + page.len <= entries@.len(),
    ensures
        r@ == manga_page_upto(entries@, page.start as nat, page.len as nat),
{
    let mut s = String::new();
    let mut k: usize = 0;
    let n = entries.len();
    while k < page.len
        invariant
            k <= page.len,
            n == entries@.len(),
            page.start + page.len <= entries@.len(),
            s@ == manga_page_upto(entries@, page.start as nat, k as nat),
        decreases page.len - k,
    {
        let m = &entries[page.start + k];
        s.append(decimal((page.start + k + 1) as u64).as_str());
        s.append(". [");
        s.append(m.title.as_str());
        s.append("](https://mangadex.org/title/");
        s.append(m.id.as_str());
        s.append(")");
        match m.last_updated {
            Some(t) => {
                s.append(" (last updated: <t:");
                s.append(signed_decimal(t).as_str());
                s.append(":R>)\n");
            },
            None => {
                s.append("\n");
            },
        }
        k = k + 1;
    }
    s
}

/// The aliases joined by commas.
pub open spec fn joined_of(items: Seq<Seq<char>>) -> Seq<char>
    decreases items.len(),
{
    if items.len() == 0 {
        Seq::empty()
    } else if items.len() == 1 {
        items[0]
    } else {
        joined_of(items.drop_last()) + ", "@ + items.last()
    }
}

/// The views of a list of strings.
pub open spec fn views(items: Seq<String>) -> Seq<Seq<char>> {
    items.map_values(|s: String| s@)
}

/// Joins strings with commas.
pub fn joined(items: &Vec<String>) -> (r: String)
    ensures
        r@ == joined_of(views(items@)),
{
    let mut s = String::new();
    let mut i: usize = 0;
    while i < items.len()
        invariant
            i <= items.len(),
            s@ == joined_of(views(items@.subrange(0, i as int))),
        decreases items.len() - i,
    {
        if i > 0 {
            s.append(", ");
        }
        s.append(items[i].as_str());
        assert(views(items@.subrange(0, i + 1)).drop_last() =~= views(items@.subrange(0, i as int)));
        i = i + 1;
    }
    assert(items@.subrange(0, items@.len() as int) =~= items@);
    s
}

/// A comma and a space start at position `i` of `s`.
pub open spec fn sep_at(s: Seq<char>, i: int) -> bool {
    0 <= i && i + 1 < s.len() && s[i] == ',' && s[i + 1] == ' '
}

/// `s` holds no comma followed by a space.
pub open spec fn free_of_sep(s: Seq<char>) -> bool {
    forall|i: int| !#[trigger] sep_at(s, i)
}

/// Splits a comma-separated list back into its items: joined by commas
/// they give the text again, and none holds a comma followed by a space.
pub fn split_aliases(s: &str) -> (r: Vec<String>)
    ensures
        r@.len() >= 1,
        joined_of(views(r@)) == s@,
        forall|k: int| 0 <= k < r@.len() ==> free_of_sep((#[trigger] r@[k])@),
{
    let n = s.unicode_len();
    let mut out: Vec<String> = Vec::new();
    let mut start: usize = 0;
    let mut i: usize = 0;
    while i < n
        invariant
            n == s@.len(),
            start <= i <= n,
            out@.len() == 0 ==> start == 0,
            out@.len() > 0 ==> start >= 2 && sep_at(s@, start - 2) && joined_of(views(out@)) == s@.subrange(
                0,
                start - 2,
            ),
            forall|k: int| 0 <= k < out@.len() ==> free_of_sep((#[trigger] out@[k])@),
            forall|j: int| start <= j < i ==> !#[trigger] sep_at(s@, j),
        decreases n - i,
    {
        if i + 1 < n && s.get_char(i) == ',' && s.get_char(i + 1) == ' ' {
            let piece = String::from_str(s.substring_char(start, i));
            let ghost before = out@;
            assert(free_of_sep(piece@)) by {
                assert forall|j: int| !#[trigger] sep_at(piece@, j) by {
                    if sep_at(piece@, j) {
                        assert(piece@[j] == s@[start + j]);
                        assert(piece@[j + 1] == s@[start + j + 1]);
                        assert(sep_at(s@, start + j));
                    }
                }
            }
            out.push(piece);
            proof {
                if before.len() == 0 {
                    assert(views(out@) =~= seq![piece@]);
                    assert(joined_of(views(out@)) == piece@);
                    assert(piece@ =~= s@.subrange(0, i as int));
                } else {
                    assert(views(out@).drop_last() =~= views(before));
                    reveal_strlit(", ");
                    assert(", "@ =~= seq![',', ' ']);
                    assert(s@[start - 2] == ',' && s@[start - 1] == ' ');
                    assert(s@.subrange(0, i as int) =~= s@.subrange(0, start - 2) + ", "@ + piece@);
                }
            }
            start = i + 2;
            i = i + 2;
        } else {
            i = i + 1;
        }
    }
    let piece = String::from_str(s.substring_char(start, n));
    let ghost before = out@;
    assert(free_of_sep(piece@)) by {
        assert forall|j: int| !#[trigger] sep_at(piece@, j) by {
            if sep_at(piece@, j) {
                assert(piece@[j] == s@[start + j]);
                assert(piece@[j + 1] == s@[start + j + 1]);
                assert(sep_at(s@, start + j));
            }
        }
    }
    out.push(piece);
    proof {
        if before.len() == 0 {
            assert(views(out@) =~= seq![piece@]);
            assert(piece@ =~= s@);
        } else {
            assert(views(out@).drop_last() =~= views(before));
            reveal_strlit(", ");
            assert(", "@ =~= seq![',', ' ']);
            assert(s@[start - 2] == ',' && s@[start - 1] == ' ');
            assert(s@ =~= s@.subrange(0, start - 2) + ", "@ + piece@);
        }
    }
    out
}

/// The list line of a quote at 1-based position `pos`.
pub open spec fn quote_line_of(pos: nat, title: Seq<char>, aliases: Seq<Seq<char>>) -> Seq<char> {
    if aliases.len() == 0 {
        decimal_of(pos) + ". "@ + title + "\n"@
    } else {
        decimal_of(pos) + ". "@ + title + " ("@ + joined_of(aliases) + ")\n"@
    }
}

/// The lines of the first `k` quotes of a page that starts at `start`.
pub open spec fn quote_page_upto(quotes: Seq<crate::models::Quote>, start: nat, k: nat) -> Seq<char>
    decreases k,
{
    if k == 0 {
        Seq::empty()
    } else {
        let q = quotes[start + k - 1];
        quote_page_upto(quotes, start, (k - 1) as nat) + quote_line_of(start + k, q.title@, views(q.aliases@))
    }
}

/// Writes one page of the quote list, numbering the entries from the page's
/// start.
pub fn quote_page(quotes: &Vec<crate::models::Quote>, page: Batch) -> (r: String)
    requires
        page.start + page.len <= quotes@.len(),
    ensures
        r@ == quote_page_upto(quotes@, page.start as nat, page.len as nat),
{
    let mut s = String::new();
    let mut k: usize = 0;
    let n = quotes.len();
    while k < page.len
        invariant
            k <= page.len,
            n == quotes@.len(),
            page.start + page.len <= quotes@.len(),
            s@ == quote_page_upto(quotes@, page.start as nat, k as nat),
        decreases page.len - k,
    {
        let q = &quotes[page.start + k];
        s.append(decimal((page.start + k + 1) as u64).as_str());
        s.append(". ");
        s.append(q.title.as_str());
        if q.aliases.len() == 0 {
            s.append("\n");
        } else {
            s.append(" (");
            s.append(joined(&q.aliases).as_str());
            s.append(")\n");
        }
        k = k + 1;
    }
    s
}

/// The four buttons under a paged list.
#[derive(Clone, Copy, Debug, PartialEq, Eq, Structural)]
pub enum PagerButton {
    First,
    Prev,
    Next,
    Last,
}

/// The page shown after a press, from page `current` of `pages`.
pub open spec fn pressed_page(current: int, pages: int, b: PagerButton) -> int {
    match b {
        PagerButton::First => 0,
        PagerButton::Prev => if current == 0 {
            0
        } else {
            current - 1
        },
        PagerButton::Next => if current + 1 < pages {
            current + 1
        } else {
            current
        },
        PagerButton::Last => pages - 1,
    }
}

/// What a pager does with one button press.
#[derive(Clone, Copy, Debug, PartialEq, Eq, Structural)]
pub enum PagerAction {
    /// The press came from someone other than the list's requester.
    Reject,
    /// The press is not one of the pager's buttons.
    Ignore,
    /// Show this page.
    Show(usize),
}

/// The id of a pager button: the list's own id followed by the button's
/// name.
pub open spec fn button_id_of(list_id: Seq<char>, b: PagerButton) -> Seq<char> {
    list_id + match b {
        PagerButton::First => "first"@,
        PagerButton::Prev => "prev"@,
        PagerButton::Next => "next"@,
        PagerButton::Last => "last"@,
    }
}

/// Writes the id of a pager button.
pub fn button_id(list_id: &str, b: PagerButton) -> (r: String)
    ensures
        r@ == button_id_of(list_id@, b),
{
    let name = match b {
        PagerButton::First => "first",
        PagerButton::Prev => "prev",
        PagerButton::Next => "next",
        PagerButton::Last => "last",
    };
    String::from_str(list_id).concat(name)
}

/// The decision for one press on page `current` of `pages`.
pub open spec fn pager_action_of(current: int, pages: int, own: bool, list_id: Seq<char>, pressed: Seq<char>) -> PagerAction {
    if !own {
        PagerAction::Reject
    } else if pressed == button_id_of(list_id, PagerButton::Prev) {
        PagerAction::Show(pressed_page(current, pages, PagerButton::Prev) as usize)
    } else if pressed == button_id_of(list_id, PagerButton::Next) {
        PagerAction::Show(pressed_page(current, pages, PagerButton::Next) as usize)
    } else if pressed == button_id_of(list_id, PagerButton::First) {
        PagerAction::Show(pressed_page(current, pages, PagerButton::First) as usize)
    } else if pressed == button_id_of(list_id, PagerButton::Last) {
        PagerAction::Show(pressed_page(current, pages, PagerButton::Last) as usize)
    } else {
        PagerAction::Ignore
    }
}

/// Decides what a press does: presses by others are rejected, unknown
/// buttons ignored, and the others move within the pages.
pub fn pager_action(current: usize, pages: usize, own: bool, list_id: &str, pressed: &String) -> (r: PagerAction)
    requires
        current < pages,
    ensures
        r == pager_action_of(current as int, pages as int, own, list_id@, pressed@),
        r matches PagerAction::Show(p) ==> p < pages,
{
    if !own {
        return PagerAction::Reject;
    }
    if *pressed == button_id(list_id, PagerButton::Prev) {
        PagerAction::Show(if current == 0 { 0 } else { current - 1 })
    } else if *pressed == button_id(list_id, PagerButton::Next) {
        PagerAction::Show(if current + 1 < pages { current + 1 } else { current })
    } else if *pressed == button_id(list_id, PagerButton::First) {
        PagerAction::Show(0)
    } else if *pressed == button_id(list_id, PagerButton::Last) {
        PagerAction::Show(pages - 1)
    } else {
        PagerAction::Ignore
    }
}

/// Which pager buttons are disabled on a page.
#[derive(Clone, Copy, Debug, PartialEq, Eq, Structural)]
pub struct PagerButtons {
    pub first_disabled: bool,
    pub prev_disabled: bool,
    pub next_disabled: bool,
    pub last_disabled: bool,
}

/// Disables the backward buttons on the first page and the forward ones on
/// the last.
pub fn pager_buttons(current: usize, pages: usize) -> (r: PagerButtons)
    requires
        current < pages,
    ensures
        r.first_disabled == (current == 0),
        r.prev_disabled == (current == 0),
        r.next_disabled == (current + 1 == pages),
        r.last_disabled == (current + 1 == pages),
{
    PagerButtons {
        first_disabled: current == 0,
        prev_disabled: current == 0,
        next_disabled: current == pages - 1,
        last_disabled: current == pages - 1,
    }
}

/// Writes the footer of a page: its 1-based number and the page count.
pub fn page_footer(current: usize, pages: usize) -> (r: String)
    requires
        current < pages,
    ensures
        r@ == "page "@ + decimal_of((current + 1) as nat) + "/"@ + decimal_of(pages as nat),
{
    let mut s = String::from_str("page ");
    s.append(decimal((current + 1) as u64).as_str());
    s.append("/");
    s.append(decimal(pages as u64).as_str());
    s
}

} // verus!
