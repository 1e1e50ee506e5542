//! The fuel-price tracker: which published prices are new, which of them
//! change a known price, and the text reported for each.
use vstd::prelude::*;
use vstd::string::StringExecFns;

use crate::text::{dotted, dotted_of};
use crate::tracker::{notifies, Fetched, TrackPolicy, Watched};

verus! {

/// One fuel grade's published prices for the two zones, with the time of
/// publication in seconds since the Unix epoch.
#[derive(Clone, Debug, PartialEq, Eq)]
pub struct GasPrice {
    pub id: String,
    pub gas_name: String,
    pub zone1_price: i64,
    pub zone2_price: i64,
    pub last_modified: i64,
}

/// The fuel-price feed's answer: every published price.
#[derive(Clone, Debug)]
pub struct GasResponse {
    pub objects: Vec<GasPrice>,
}

/// One reported line: a heading and its text.
#[derive(Clone, Debug)]
pub struct GasField {
    pub name: String,
    pub value: String,
}

/// Fuel prices are silent on first sight: a grade seen for the first time is
/// recorded without a report.
pub open spec fn fuel_policy() -> TrackPolicy {
    TrackPolicy { notify_first_sight: false, touch_on_failure: true }
}

/// The first stored price whose id is `id`.
pub open spec fn stored_for(current: Seq<GasPrice>, id: Seq<char>) -> Option<GasPrice>
    decreases current.len(),
{
    if current.len() == 0 {
        None
    } else if current[0].id@ == id {
        Some(current[0])
    } else {
        stored_for(current.subrange(1, current.len() as int), id)
    }
}

/// The ids of the grades that are followed.
pub open spec fn id_views(relevant: Seq<String>) -> Seq<Seq<char>> {
    relevant.map_values(|s: String| s@)
}

/// The watched state that a stored price gives its grade.
pub open spec fn gas_watch(stored: Option<GasPrice>) -> Watched {
    Watched {
        fingerprint: match stored {
            Some(s) => Some(s.last_modified),
            None => None,
        },
        last_checked_at: 0,
    }
}

/// A published price is followed and is either unknown or newer than the
/// stored one: it is written back.
pub open spec fn is_written(current: Seq<GasPrice>, relevant: Seq<String>, g: GasPrice) -> bool {
    id_views(relevant).contains(g.id@) && match stored_for(current, g.id@) {
        Some(s) => g.last_modified > s.last_modified,
        None => true,
    }
}

/// A published price changes a known one: the change detector reports it,
/// and only such a price gets a line in the report.
pub open spec fn is_update(current: Seq<GasPrice>, relevant: Seq<String>, g: GasPrice) -> bool {
    id_views(relevant).contains(g.id@) && notifies(
        gas_watch(stored_for(current, g.id@)),
        Fetched::Observed(g.last_modified),
        fuel_policy(),
    )
}

/// A price difference, with a `+` when it rose.
pub open spec fn diff_text_of(d: int) -> Seq<char> {
    if d > 0 {
        seq!['+'] + dotted_of(d)
    } else {
        dotted_of(d)
    }
}

/// The prices of a grade for the two zones.
pub open spec fn plain_price_text_of(z1: int, z2: int) -> Seq<char> {
    "- Vùng 1: "@ + dotted_of(z1) + "đ/lít\n- Vùng 2: "@ + dotted_of(z2) + "đ/lít"@
}

/// The prices of a grade for the two zones, with the change of each.
pub open spec fn price_change_text_of(z1: int, d1: int, z2: int, d2: int) -> Seq<char> {
    "- Vùng 1: "@ + dotted_of(z1) + "đ/lít ("@ + diff_text_of(d1) + "đ/lít)\n- Vùng 2: "@ + dotted_of(z2)
        + "đ/lít ("@ + diff_text_of(d2) + "đ/lít)"@
}

/// The heading of a changed grade: an arrow down when the first zone's price
/// fell, else an arrow up, then the grade's name.
pub open spec fn change_heading_of(d1: int, name: Seq<char>) -> Seq<char> {
    if d1 < 0 {
        "<a:ARROW_IS_DOWN_ANIM:1360156568137502771> "@ + name
    } else {
        "<a:ARROW_IS_UP_ANIM:1360156587611783219> "@ + name
    }
}

/// The reported line of a price that changed the stored price `s`: an
/// arrow heading and the change of each zone.
pub open spec fn change_field_of(s: GasPrice, g: GasPrice) -> (Seq<char>, Seq<char>) {
    let d1 = g.zone1_price - s.zone1_price;
    let d2 = g.zone2_price - s.zone2_price;
    (
        change_heading_of(d1, g.gas_name@),
        price_change_text_of(g.zone1_price as int, d1, g.zone2_price as int, d2),
    )
}

/// The positions among the first `n` published prices that are written.
pub open spec fn written_upto(current: Seq<GasPrice>, fetched: Seq<GasPrice>, relevant: Seq<String>, n: nat) -> Seq<int>
    decreases n,
{
    if n == 0 {
        Seq::empty()
    } else {
        let prev = written_upto(current, fetched, relevant, (n - 1) as nat);
        if is_written(current, relevant, fetched[n - 1]) {
            prev.push(n - 1)
        } else {
            prev
        }
    }
}

/// The positions among the first `n` published prices that change a known
/// price.
pub open spec fn updated_upto(current: Seq<GasPrice>, fetched: Seq<GasPrice>, relevant: Seq<String>, n: nat) -> Seq<int>
    decreases n,
{
    if n == 0 {
        Seq::empty()
    } else {
        let prev = updated_upto(current, fetched, relevant, (n - 1) as nat);
        if is_update(current, relevant, fetched[n - 1]) {
            prev.push(n - 1)
        } else {
            prev
        }
    }
}

/// The outcome of one fuel-price tick.
pub struct GasTick {
    /// The positions of the published prices to write back, in order.
    pub writes: Vec<usize>,
    /// The positions of the published prices that change a known price, in
    /// order.
    pub updates: Vec<usize>,
    /// The reported line of each changed price, in the same order.
    pub fields: Vec<GasField>,
    /// Whether a report is sent.
    pub send: bool,
}

/// Finds the stored price of a grade.
fn find_stored<'a>(current: &'a Vec<GasPrice>, id: &String) -> (r: Option<&'a GasPrice>)
    ensures
        match r {
            Some(p) => stored_for(current@, id@) == Some(*p),
            None => stored_for(current@, id@) is None,
        },
{
    let mut i: usize = 0;
    assert(current@.subrange(0, current@.len() as int) =~= current@);
    while i < current.len()
        invariant
            i <= current.len(),
            stored_for(current@, id@) == stored_for(current@.subrange(i as int, current@.len() as int), id@),
        decreases current.len() - i,
    {
        let rest = Ghost(current@.subrange(i as int, current@.len() as int));
        assert(rest@[0] == current@[i as int]);
        assert(rest@.subrange(1, rest@.len() as int) =~= current@.subrange(i + 1, current@.len() as int));
        if current[i].id == *id {
            return Some(&current[i]);
        }
        i = i + 1;
    }
    None
}

/// Tells whether a grade is followed.
fn is_followed(relevant: &Vec<String>, id: &String) -> (r: bool)
    ensures
        r == id_views(relevant@).contains(id@),
{
    let mut i: usize = 0;
    while i < relevant.len()
        invariant
            i <= relevant.len(),
            forall|j: int| 0 <= j < i ==> relevant@[j]@ != id@,
        decreases relevant.len() - i,
    {
        if relevant[i] == *id {
            assert(id_views(relevant@)[i as int] == id@);
            return true;
        }
        i = i + 1;
    }
    assert forall|j: int| 0 <= j < id_views(relevant@).len() implies id_views(relevant@)[j] != id@ by {
        assert(id_views(relevant@)[j] == relevant@[j]@);
    }
    false
}

/// Writes a price difference, with a `+` when it rose.
fn diff_text(d: i128) -> (r: String)
    ensures
        r@ == diff_text_of(d as int),
{
    if d > 0 {
        proof {
            reveal_strlit("+");
        }
        String::from_str("+").concat(dotted(d).as_str())
    } else {
        dotted(d)
    }
}

/// Writes the prices of a grade for the two zones.
pub fn plain_price_text(z1: i64, z2: i64) -> (r: String)
    ensures
        r@ == plain_price_text_of(z1 as int, z2 as int),
{
    let mut s = String::from_str("- Vùng 1: ");
    s.append(dotted(z1 as i128).as_str());
    s.append("đ/lít\n- Vùng 2: ");
    s.append(dotted(z2 as i128).as_str());
    s.append("đ/lít");
    s
}

/// Writes the prices of a grade for the two zones with the change of each.
pub fn price_change_text(z1: i64, d1: i128, z2: i64, d2: i128) -> (r: String)
    ensures
        r@ == price_change_text_of(z1 as int, d1 as int, z2 as int, d2 as int),
{
    let mut s = String::from_str("- Vùng 1: ");
    s.append(dotted(z1 as i128).as_str());
    s.append("đ/lít (");
    s.append(diff_text(d1).as_str());
    s.append("đ/lít)\n- Vùng 2: ");
    s.append(dotted(z2 as i128).as_str());
    s.append("đ/lít (");
    s.append(diff_text(d2).as_str());
    s.append("đ/lít)");
    s
}

/// Composes the reported line of a price that changed the stored one.
fn change_field(s: &GasPrice, g: &GasPrice) -> (r: GasField)
    ensures
        (r.name@, r.value@) == change_field_of(*s, *g),
{
    let d1: i128 = g.zone1_price as i128 - s.zone1_price as i128;
    let d2: i128 = g.zone2_price as i128 - s.zone2_price as i128;
    let name = if d1 < 0 {
        String::from_str("<a:ARROW_IS_DOWN_ANIM:1360156568137502771> ").concat(g.gas_name.as_str())
    } else {
        String::from_str("<a:ARROW_IS_UP_ANIM:1360156587611783219> ").concat(g.gas_name.as_str())
    };
    GasField { name, value: price_change_text(g.zone1_price, d1, g.zone2_price, d2) }
}

/// Compares the published prices with the stored ones: every followed grade
/// that is unknown or newer is written back; only a known grade whose price
/// is newer gets a line in the report, and the report is sent when there is
/// such a line and a destination is configured. A grade seen for the first
/// time is recorded silently.
pub fn gas_tick(current: &Vec<GasPrice>, fetched: &Vec<GasPrice>, relevant: &Vec<String>, configured: bool) -> (r: GasTick)
    ensures
        r.writes@.map_values(|k: usize| k as int) == written_upto(current@, fetched@, relevant@, fetched@.len()),
        r.updates@.map_values(|k: usize| k as int) == updated_upto(current@, fetched@, relevant@, fetched@.len()),
        r.fields@.len() == r.updates@.len(),
        forall|k: int|
            0 <= k < r.fields@.len() ==> (stored_for(current@, fetched@[r.updates@[k] as int].id@) is Some) && (
            (#[trigger] r.fields@[k]).name@, r.fields@[k].value@) == change_field_of(
                stored_for(current@, fetched@[r.updates@[k] as int].id@)->Some_0,
                fetched@[r.updates@[k] as int],
            ),
        r.send == (configured && r.updates@.len() > 0),
{
    let mut writes: Vec<usize> = Vec::new();
    let mut updates: Vec<usize> = Vec::new();
    let mut fields: Vec<GasField> = Vec::new();
    let mut i: usize = 0;
    while i < fetched.len()
        invariant
            i <= fetched.len(),
            writes@.map_values(|k: usize| k as int) == written_upto(current@, fetched@, relevant@, i as nat),
            updates@.map_values(|k: usize| k as int) == updated_upto(current@, fetched@, relevant@, i as nat),
            forall|k: int| 0 <= k < updates@.len() ==> #[trigger] updates@[k] < i,
            fields@.len() == updates@.len(),
            forall|k: int|
                0 <= k < updates@.len() ==> #[trigger] stored_for(current@, fetched@[updates@[k] as int].id@) is Some,
            forall|k: int|
                0 <= k < fields@.len() ==> ((#[trigger] fields@[k]).name@, fields@[k].value@) == change_field_of(
                    stored_for(current@, fetched@[updates@[k] as int].id@)->Some_0,
                    fetched@[updates@[k] as int],
                ),
        decreases fetched.len() - i,
    {
        let g = &fetched[i];
        if is_followed(relevant, &g.id) {
            match find_stored(current, &g.id) {
                Some(s) => {
                    if g.last_modified > s.last_modified {
                        let f = change_field(s, g);
                        writes.push(i);
                        updates.push(i);
                        fields.push(f);
                        assert(updates@[updates@.len() - 1] == i);
                        assert(fetched@[i as int] == *g);
                    }
                },
                None => {
                    writes.push(i);
                },
            }
        }
        assert(writes@.map_values(|k: usize| k as int) =~= written_upto(current@, fetched@, relevant@, (i + 1) as nat));
        assert(updates@.map_values(|k: usize| k as int) =~= updated_upto(current@, fetched@, relevant@, (i + 1) as nat));
        i = i + 1;
    }
    let send = configured && updates.len() > 0;
    GasTick { writes, updates, fields, send }
}

/// A published price that is not newer than the stored one is neither
/// written back nor reported, and a grade seen for the first time is
/// written back without being reported as a change.
pub proof fn law_fuel_prices_quiet_unless_newer(current: Seq<GasPrice>, relevant: Seq<String>, g: GasPrice)
    ensures
        stored_for(current, g.id@) matches Some(s) && g.last_modified <= s.last_modified ==> !is_written(
            current,
            relevant,
            g,
        ) && !is_update(current, relevant, g),
        stored_for(current, g.id@) is None ==> !is_update(current, relevant, g) && (is_written(
            current,
            relevant,
            g,
        ) == id_views(relevant).contains(g.id@)),
{
}

} // verus!
