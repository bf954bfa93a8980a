use vstd::prelude::*;
use crate::models::ResyError;
use crate::time_of_day::TimeOfDay;

verus! {

/// What `str::to_lowercase` makes of a string.
pub uninterp spec fn lower_of(s: Seq<char>) -> Seq<char>;

/// Relies on `str::to_lowercase`: the result depends on the characters alone.
#[verifier::external_body]
fn lowercase(s: &str) -> (r: String)
    ensures
        r@ == lower_of(s@),
{
    s.to_lowercase()
}

/// `w` occurs in `t` as a contiguous run of characters.
pub open spec fn contains_seq(t: Seq<char>, w: Seq<char>) -> bool {
    exists|i: int| 0 <= i && i + w.len() <= t.len() && #[trigger] t.subrange(i, i + w.len()) == w
}

pub open spec fn outdoor_word() -> Seq<char> {
    seq!['o', 'u', 't', 'd', 'o', 'o', 'r']
}

pub open spec fn patio_word() -> Seq<char> {
    seq!['p', 'a', 't', 'i', 'o']
}

/// An already lower-cased table-type label that names seating outside.
pub open spec fn is_outdoor(lowered: Seq<char>) -> bool {
    contains_seq(lowered, outdoor_word()) || contains_seq(lowered, patio_word())
}

/// A table type may be offered under the caller's outdoor preference.
pub open spec fn label_eligible(label: Seq<char>, accept_outdoor: bool) -> bool {
    accept_outdoor || !is_outdoor(lower_of(label))
}

fn matches_at(t: &str, w: &str, i: usize) -> (r: bool)
    requires
        i + w@.len() <= t@.len(),
    ensures
        r == (t@.subrange(i as int, i + w@.len()) == w@),
{
    let n = t.unicode_len();
    let m = w.unicode_len();
    let mut j: usize = 0;
    while j < m
        invariant
            n == t@.len(),
            m == w@.len(),
            i + m <= t@.len(),
            j <= m,
            forall|k: int| 0 <= k < j ==> t@[i + k] == w@[k],
        decreases m - j,
    {
        if t.get_char(i + j) != w.get_char(j) {
            assert(t@.subrange(i as int, i + m)[j as int] != w@[j as int]);
            return false;
        }
        j = j + 1;
    }
    assert(t@.subrange(i as int, i + m) =~= w@);
    true
}

/// Whether `w` occurs in `t`.
pub fn contains_str(t: &str, w: &str) -> (r: bool)
    ensures
        r == contains_seq(t@, w@),
{
    let n = t.unicode_len();
    let m = w.unicode_len();
    if m > n {
        return false;
    }
    let mut i: usize = 0;
    while i <= n - m
        invariant
            n == t@.len(),
            m == w@.len(),
            m <= n,
            i <= n - m + 1,
            forall|k: int| 0 <= k < i ==> #[trigger] t@.subrange(k, k + m) != w@,
        decreases n - m + 1 - i,
    {
        if matches_at(t, w, i) {
            return true;
        }
        if i == n - m {
            return false;
        }
        i = i + 1;
    }
    false
}

/// Whether an already lower-cased label names outdoor seating.
pub fn is_outdoor_lowered(lowered: &str) -> (r: bool)
    ensures
        r == is_outdoor(lowered@),
{
    proof {
        reveal_strlit("outdoor");
        reveal_strlit("patio");
        assert("outdoor"@ =~= outdoor_word());
        assert("patio"@ =~= patio_word());
    }
    contains_str(lowered, "outdoor") || contains_str(lowered, "patio")
}

/// Whether a table-type label may be booked under the outdoor preference.
pub fn is_eligible_label(label: &str, accept_outdoor: bool) -> (r: bool)
    ensures
        r == label_eligible(label@, accept_outdoor),
{
    if accept_outdoor {
        return true;
    }
    let lowered = lowercase(label);
    !is_outdoor_lowered(lowered.as_str())
}


/// One bookable table type at one time, with its slot identifier.
#[derive(Debug)]
pub struct TableSlot {
    pub table_type: String,
    pub config_id: String,
}

/// The table types offered at one time of day.
#[derive(Debug)]
pub struct TimeSlots {
    pub time: TimeOfDay,
    pub tables: Vec<TableSlot>,
}

/// Slots found by one search: time of day, then table type, to slot identifier.
#[derive(Debug)]
pub struct SlotIndex {
    pub times: Vec<TimeSlots>,
}

pub open spec fn time_in_window(t: TimeOfDay, earliest: TimeOfDay, latest: TimeOfDay) -> bool {
    earliest.minutes() <= t.minutes() && t.minutes() <= latest.minutes()
}

pub open spec fn has_eligible(tables: Seq<TableSlot>, accept_outdoor: bool) -> bool {
    exists|k: int|
        0 <= k < tables.len() && #[trigger] label_eligible(tables[k].table_type@, accept_outdoor)
}

/// `k` is the first table type in enumeration order that may be booked.
pub open spec fn first_eligible_at(tables: Seq<TableSlot>, accept_outdoor: bool, k: int) -> bool {
    0 <= k < tables.len() && label_eligible(tables[k].table_type@, accept_outdoor) && forall|
        j: int,
    |
        0 <= j < k ==> !#[trigger] label_eligible(tables[j].table_type@, accept_outdoor)
}

/// A time that lies in the window and offers a table that may be booked.
pub open spec fn qualifies(
    ts: TimeSlots,
    earliest: TimeOfDay,
    latest: TimeOfDay,
    accept_outdoor: bool,
) -> bool {
    time_in_window(ts.time, earliest, latest) && has_eligible(ts.tables@, accept_outdoor)
}

pub open spec fn none_qualifies(
    times: Seq<TimeSlots>,
    earliest: TimeOfDay,
    latest: TimeOfDay,
    accept_outdoor: bool,
) -> bool {
    forall|i: int| 0 <= i < times.len() ==> !#[trigger] qualifies(times[i], earliest, latest, accept_outdoor)
}

/// `i` is a qualifying time that no other qualifying time precedes.
pub open spec fn earliest_qualifying_at(
    times: Seq<TimeSlots>,
    earliest: TimeOfDay,
    latest: TimeOfDay,
    accept_outdoor: bool,
    i: int,
) -> bool {
    0 <= i < times.len() && qualifies(times[i], earliest, latest, accept_outdoor) && forall|j: int|
        0 <= j < times.len() && #[trigger] qualifies(times[j], earliest, latest, accept_outdoor)
            ==> times[i].time.minutes() <= times[j].time.minutes()
}

/// `id` names the first bookable table type at the earliest qualifying time.
pub open spec fn is_selection(
    times: Seq<TimeSlots>,
    earliest: TimeOfDay,
    latest: TimeOfDay,
    accept_outdoor: bool,
    id: Seq<char>,
) -> bool {
    exists|i: int, k: int|
        earliest_qualifying_at(times, earliest, latest, accept_outdoor, i) && first_eligible_at(
            times[i].tables@,
            accept_outdoor,
            k,
        ) && #[trigger] times[i].tables@[k].config_id@ == id
}

/// What the selector owes on one index: the selection, or `CannotFindReservation`
/// exactly when no time qualifies.
pub open spec fn selection_result(
    times: Seq<TimeSlots>,
    earliest: TimeOfDay,
    latest: TimeOfDay,
    accept_outdoor: bool,
    r: Result<String, ResyError>,
) -> bool {
    match r {
        Ok(id) => is_selection(times, earliest, latest, accept_outdoor, id@),
        Err(e) => e == ResyError::CannotFindReservation && none_qualifies(
            times,
            earliest,
            latest,
            accept_outdoor,
        ),
    }
}

/// The position of table type `label` in `tables`.
fn find_table(tables: &Vec<TableSlot>, label: &String) -> (r: Option<usize>)
    ensures
        r matches Some(k) ==> k < tables@.len() && tables@[k as int].table_type@ == label@,
        r is None ==> forall|k: int| 0 <= k < tables@.len() ==> tables@[k].table_type@ != label@,
{
    let mut k: usize = 0;
    while k < tables.len()
        invariant
            k <= tables@.len(),
            forall|j: int| 0 <= j < k ==> tables@[j].table_type@ != label@,
        decreases tables@.len() - k,
    {
        if tables[k].table_type == *label {
            return Some(k);
        }
        k = k + 1;
    }
    None
}

/// The first table type in `tables` that may be booked.
fn first_eligible(tables: &Vec<TableSlot>, accept_outdoor: bool) -> (r: Option<usize>)
    ensures
        r matches Some(k) ==> first_eligible_at(tables@, accept_outdoor, k as int),
        r is None ==> !has_eligible(tables@, accept_outdoor),
{
    let mut k: usize = 0;
    while k < tables.len()
        invariant
            k <= tables@.len(),
            forall|j: int| 0 <= j < k ==> !#[trigger] label_eligible(tables@[j].table_type@, accept_outdoor),
        decreases tables@.len() - k,
    {
        if is_eligible_label(tables[k].table_type.as_str(), accept_outdoor) {
            return Some(k);
        }
        k = k + 1;
    }
    None
}

impl SlotIndex {
    /// Time keys are unique, valid times; table types are unique per time.
    pub open spec fn wf(&self) -> bool {
        &&& forall|i: int| 0 <= i < self.times@.len() ==> (#[trigger] self.times@[i]).time.wf()
        &&& forall|i: int, j: int|
            0 <= i < j < self.times@.len() ==> #[trigger] self.times@[i].time
                != #[trigger] self.times@[j].time
        &&& forall|i: int, k: int, l: int|
            0 <= i < self.times@.len() && 0 <= k < l < self.times@[i].tables@.len()
                ==> #[trigger] self.times@[i].tables@[k].table_type@
                != #[trigger] self.times@[i].tables@[l].table_type@
    }

    pub fn new() -> (r: SlotIndex)
        ensures
            r.wf(),
            r.times@.len() == 0,
    {
        SlotIndex { times: Vec::new() }
    }

    /// The index offers slot `id` for table type `label` at time `t`.
    pub open spec fn has_slot(&self, t: TimeOfDay, label: Seq<char>, id: Seq<char>) -> bool {
        exists|i: int, k: int|
            0 <= i < self.times@.len() && 0 <= k < self.times@[i].tables@.len() && self.times@[i].time
                == t && #[trigger] self.times@[i].tables@[k].table_type@ == label
                && self.times@[i].tables@[k].config_id@ == id
    }

    fn find_time(&self, time: TimeOfDay) -> (r: Option<usize>)
        ensures
            r matches Some(i) ==> i < self.times@.len() && self.times@[i as int].time == time,
            r is None ==> forall|i: int| 0 <= i < self.times@.len() ==> self.times@[i].time != time,
    {
        let mut i: usize = 0;
        while i < self.times.len()
            invariant
                i <= self.times@.len(),
                forall|j: int| 0 <= j < i ==> self.times@[j].time != time,
            decreases self.times@.len() - i,
        {
            if self.times[i].time == time {
                return Some(i);
            }
            i = i + 1;
        }
        None
    }

    /// Records slot `config_id` for `table_type` at `time`, replacing the slot
    /// that this table type had at this time, if any.
    pub fn insert(&mut self, time: TimeOfDay, table_type: String, config_id: String)
        requires
            old(self).wf(),
            time.wf(),
        ensures
            final(self).wf(),
            final(self).has_slot(time, table_type@, config_id@),
            forall|t: TimeOfDay, label: Seq<char>, id: Seq<char>|
                !(t == time && label == table_type@) ==> (#[trigger] final(self).has_slot(t, label, id)
                    == old(self).has_slot(t, label, id)),
            forall|id: Seq<char>|
                #[trigger] final(self).has_slot(time, table_type@, id) ==> id == config_id@,
    {
        let ghost label = table_type@;
        let ghost cid = config_id@;
        let ghost before = self.times@;
        match self.find_time(time) {
            None => {
                let mut tables: Vec<TableSlot> = Vec::new();
                tables.push(TableSlot { table_type, config_id });
                self.times.push(TimeSlots { time, tables });
                let ghost n = before.len() as int;
                assert(self.times@[n].tables@[0].table_type@ == label);
                assert forall|t: TimeOfDay, l: Seq<char>, id: Seq<char>|
                    !(t == time && l == label) implies (#[trigger] self.has_slot(t, l, id)
                    == old(self).has_slot(t, l, id)) by {
                    if self.has_slot(t, l, id) {
                        let (i, k) = choose|i: int, k: int|
                            0 <= i < self.times@.len() && 0 <= k < self.times@[i].tables@.len()
                                && self.times@[i].time == t
                                && #[trigger] self.times@[i].tables@[k].table_type@ == l
                                && self.times@[i].tables@[k].config_id@ == id;
                        assert(i != n);
                        assert(before[i].tables@[k].table_type@ == l);
                    }
                    if old(self).has_slot(t, l, id) {
                        let (i, k) = choose|i: int, k: int|
                            0 <= i < before.len() && 0 <= k < before[i].tables@.len()
                                && before[i].time == t
                                && #[trigger] before[i].tables@[k].table_type@ == l
                                && before[i].tables@[k].config_id@ == id;
                        assert(self.times@[i].tables@[k].table_type@ == l);
                    }
                }
                assert forall|id: Seq<char>|
                    #[trigger] self.has_slot(time, label, id) implies id == cid by {
                    let (i, k) = choose|i: int, k: int|
                        0 <= i < self.times@.len() && 0 <= k < self.times@[i].tables@.len()
                            && self.times@[i].time == time
                            && #[trigger] self.times@[i].tables@[k].table_type@ == label
                            && self.times@[i].tables@[k].config_id@ == id;
                    if i < n {
                        assert(before[i].time == time);
                    }
                }
            },
            Some(i) => {
                let mut ts = self.times.remove(i);
                let ghost old_tables = ts.tables@;
                let slot = TableSlot { table_type, config_id };
                let ghost kk: int;
                match find_table(&ts.tables, &slot.table_type) {
                    Some(k) => {
                        ts.tables.set(k, slot);
                        proof {
                            kk = k as int;
                        }
                    },
                    None => {
                        ts.tables.push(slot);
                        proof {
                            kk = old_tables.len() as int;
                        }
                    },
                }
                self.times.insert(i, ts);
                assert(self.times@ =~= before.update(i as int, self.times@[i as int]));
                let ghost nt = self.times@[i as int].tables@;
                assert(before[i as int].tables@ == old_tables);
                assert(0 <= kk < nt.len() && nt[kk].table_type@ == label && nt[kk].config_id@ == cid);
                assert(nt.len() == old_tables.len() || (nt.len() == old_tables.len() + 1 && kk
                    == old_tables.len()));
                assert(forall|j: int| 0 <= j < nt.len() && j != kk ==> #[trigger] nt[j] == old_tables[j]);
                assert(forall|j: int|
                    0 <= j < old_tables.len() && j != kk ==> #[trigger] old_tables[j].table_type@ != label);
                assert forall|t: TimeOfDay, l: Seq<char>, id: Seq<char>|
                    !(t == time && l == label) implies (#[trigger] self.has_slot(t, l, id)
                    == old(self).has_slot(t, l, id)) by {
                    if self.has_slot(t, l, id) {
                        let (i2, k2) = choose|i2: int, k2: int|
                            0 <= i2 < self.times@.len() && 0 <= k2 < self.times@[i2].tables@.len()
                                && self.times@[i2].time == t
                                && #[trigger] self.times@[i2].tables@[k2].table_type@ == l
                                && self.times@[i2].tables@[k2].config_id@ == id;
                        if i2 == i {
                            assert(k2 != kk);
                            assert(nt[k2] == old_tables[k2]);
                            assert(before[i2].tables@[k2].table_type@ == l);
                        } else {
                            assert(before[i2].tables@[k2].table_type@ == l);
                        }
                    }
                    if old(self).has_slot(t, l, id) {
                        let (i2, k2) = choose|i2: int, k2: int|
                            0 <= i2 < before.len() && 0 <= k2 < before[i2].tables@.len()
                                && before[i2].time == t
                                && #[trigger] before[i2].tables@[k2].table_type@ == l
                                && before[i2].tables@[k2].config_id@ == id;
                        if i2 == i {
                            assert(k2 != kk);
                            assert(nt[k2] == old_tables[k2]);
                            assert(self.times@[i2].tables@[k2].table_type@ == l);
                        } else {
                            assert(self.times@[i2].tables@[k2].table_type@ == l);
                        }
                    }
                }
                assert forall|id: Seq<char>|
                    #[trigger] self.has_slot(time, label, id) implies id == cid by {
                    let (i2, k2) = choose|i2: int, k2: int|
                        0 <= i2 < self.times@.len() && 0 <= k2 < self.times@[i2].tables@.len()
                            && self.times@[i2].time == time
                            && #[trigger] self.times@[i2].tables@[k2].table_type@ == label
                            && self.times@[i2].tables@[k2].config_id@ == id;
                    if i2 != i {
                        assert(before[i2].time == before[i as int].time);
                    }
                    if k2 != kk {
                        assert(nt[k2] == old_tables[k2]);
                    }
                }
                assert(self.times@[i as int].tables@[kk].table_type@ == label);
                assert forall|a: int, b: int, c: int|
                    0 <= a < self.times@.len() && 0 <= b < c < self.times@[a].tables@.len()
                    implies #[trigger] self.times@[a].tables@[b].table_type@
                    != #[trigger] self.times@[a].tables@[c].table_type@ by {
                    if a == i {
                        if b != kk && c != kk {
                            assert(nt[b] == old_tables[b] && nt[c] == old_tables[c]);
                            assert(before[a].tables@[b].table_type@ != before[a].tables@[c].table_type@);
                        } else if b == kk {
                            assert(nt[c] == old_tables[c]);
                        } else {
                            assert(nt[b] == old_tables[b]);
                        }
                    } else {
                        assert(before[a].tables@[b].table_type@ != before[a].tables@[c].table_type@);
                    }
                }
            },
        }
    }

    /// Picks the slot to book: among times in `[earliest, latest]` that offer a
    /// table type allowed by `accept_outdoor`, the earliest, and there the first
    /// allowed table type in enumeration order.
    pub fn find_best_reservation_time(
        &self,
        earliest: TimeOfDay,
        latest: TimeOfDay,
        accept_outdoor: bool,
    ) -> (r: Result<String, ResyError>)
        ensures
            selection_result(self.times@, earliest, latest, accept_outdoor, r),
    {
        let lo = earliest.minutes_of_day();
        let hi = latest.minutes_of_day();
        let mut best: Option<(usize, usize)> = None;
        let mut best_minutes: u32 = 0;
        let mut i: usize = 0;
        while i < self.times.len()
            invariant
                i <= self.times@.len(),
                lo == earliest.minutes(),
                hi == latest.minutes(),
                best is None ==> forall|j: int|
                    0 <= j < i ==> !#[trigger] qualifies(self.times@[j], earliest, latest, accept_outdoor),
                best matches Some((bi, bk)) ==> {
                    &&& bi < i
                    &&& qualifies(self.times@[bi as int], earliest, latest, accept_outdoor)
                    &&& first_eligible_at(self.times@[bi as int].tables@, accept_outdoor, bk as int)
                    &&& best_minutes == self.times@[bi as int].time.minutes()
                    &&& forall|j: int|
                        0 <= j < i && #[trigger] qualifies(self.times@[j], earliest, latest, accept_outdoor)
                            ==> best_minutes <= self.times@[j].time.minutes()
                },
            decreases self.times@.len() - i,
        {
            let ts = &self.times[i];
            let m = ts.time.minutes_of_day();
            if lo <= m && m <= hi && (best.is_none() || m < best_minutes) {
                match first_eligible(&ts.tables, accept_outdoor) {
                    Some(k) => {
                        best = Some((i, k));
                        best_minutes = m;
                    },
                    None => {},
                }
            }
            i = i + 1;
        }
        match best {
            Some((bi, bk)) => {
                let id = self.times[bi].tables[bk].config_id.clone();
                assert(earliest_qualifying_at(self.times@, earliest, latest, accept_outdoor, bi as int));
                assert(self.times@[bi as int].tables@[bk as int].config_id@ == id@);
                Ok(id)
            },
            None => Err(ResyError::CannotFindReservation),
        }
    }
}


/// A selected slot lies in the window `[earliest, latest]` (inclusive) and
/// its table type is allowed by the outdoor preference; no slot is selected
/// exactly when no slot of the index is both.
pub proof fn lemma_selection_sound(
    index: &SlotIndex,
    earliest: TimeOfDay,
    latest: TimeOfDay,
    accept_outdoor: bool,
    r: Result<String, ResyError>,
)
    requires
        selection_result(index.times@, earliest, latest, accept_outdoor, r),
    ensures
        r matches Ok(id) ==> exists|i: int, k: int|
            0 <= i < index.times@.len() && 0 <= k < index.times@[i].tables@.len()
                && time_in_window(index.times@[i].time, earliest, latest) && label_eligible(
                index.times@[i].tables@[k].table_type@,
                accept_outdoor,
            ) && #[trigger] index.times@[i].tables@[k].config_id@ == id@,
        r is Err <==> forall|i: int, k: int|
            0 <= i < index.times@.len() && 0 <= k < index.times@[i].tables@.len()
                && time_in_window(index.times@[i].time, earliest, latest) ==> !label_eligible(
                #[trigger] index.times@[i].tables@[k].table_type@,
                accept_outdoor,
            ),
{
    let times = index.times@;
    match r {
        Ok(id) => {
            let (i, k) = choose|i: int, k: int|
                earliest_qualifying_at(times, earliest, latest, accept_outdoor, i) && first_eligible_at(
                    times[i].tables@,
                    accept_outdoor,
                    k,
                ) && #[trigger] times[i].tables@[k].config_id@ == id@;
            assert(times[i].tables@[k].config_id@ == id@);
            let kw = choose|kw: int|
                0 <= kw < times[i].tables@.len() && #[trigger] label_eligible(
                    times[i].tables@[kw].table_type@,
                    accept_outdoor,
                );
            assert(!label_eligible(times[i].tables@[kw].table_type@, accept_outdoor) ==> false);
        },
        Err(_) => {
            assert forall|i: int, k: int|
                0 <= i < times.len() && 0 <= k < times[i].tables@.len() && time_in_window(
                    times[i].time,
                    earliest,
                    latest,
                ) implies !label_eligible(#[trigger] times[i].tables@[k].table_type@, accept_outdoor) by {
                assert(!qualifies(times[i], earliest, latest, accept_outdoor));
            }
        },
    }
}

/// Two valid times of day with the same minute count are the same time.
pub proof fn lemma_minutes_injective(a: TimeOfDay, b: TimeOfDay)
    requires
        a.wf(),
        b.wf(),
        a.minutes() == b.minutes(),
    ensures
        a == b,
{
    let (ha, ma, hb, mb) = (a.hour as int, a.minute as int, b.hour as int, b.minute as int);
    assert(ha == hb && ma == mb) by (nonlinear_arith)
        requires
            ha * 60 + ma == hb * 60 + mb,
            0 <= ma < 60,
            0 <= mb < 60,
    ;
}

/// Selection is deterministic: on a well-formed index, any two results that
/// meet the selector's contract for the same window and outdoor preference
/// agree, whether both name a slot (the same one) or both report none.
pub proof fn lemma_selection_deterministic(
    index: &SlotIndex,
    earliest: TimeOfDay,
    latest: TimeOfDay,
    accept_outdoor: bool,
    r1: Result<String, ResyError>,
    r2: Result<String, ResyError>,
)
    requires
        index.wf(),
        selection_result(index.times@, earliest, latest, accept_outdoor, r1),
        selection_result(index.times@, earliest, latest, accept_outdoor, r2),
    ensures
        r1 is Ok <==> r2 is Ok,
        r1 is Ok ==> r1->Ok_0@ == r2->Ok_0@,
        r1 is Err ==> r1 == r2,
{
    let times = index.times@;
    match (r1, r2) {
        (Ok(a), Ok(b)) => {
            let (i1, k1) = choose|i: int, k: int|
                earliest_qualifying_at(times, earliest, latest, accept_outdoor, i) && first_eligible_at(
                    times[i].tables@,
                    accept_outdoor,
                    k,
                ) && #[trigger] times[i].tables@[k].config_id@ == a@;
            let (i2, k2) = choose|i: int, k: int|
                earliest_qualifying_at(times, earliest, latest, accept_outdoor, i) && first_eligible_at(
                    times[i].tables@,
                    accept_outdoor,
                    k,
                ) && #[trigger] times[i].tables@[k].config_id@ == b@;
            assert(qualifies(times[i1], earliest, latest, accept_outdoor));
            assert(qualifies(times[i2], earliest, latest, accept_outdoor));
            assert(times[i1].time.wf() && times[i2].time.wf());
            lemma_minutes_injective(times[i1].time, times[i2].time);
            assert(i1 == i2);
            if k1 < k2 {
                assert(!label_eligible(times[i2].tables@[k1].table_type@, accept_outdoor));
            } else if k2 < k1 {
                assert(!label_eligible(times[i1].tables@[k2].table_type@, accept_outdoor));
            }
        },
        (Ok(a), Err(_)) => {
            let (i1, k1) = choose|i: int, k: int|
                earliest_qualifying_at(times, earliest, latest, accept_outdoor, i) && first_eligible_at(
                    times[i].tables@,
                    accept_outdoor,
                    k,
                ) && #[trigger] times[i].tables@[k].config_id@ == a@;
            assert(qualifies(times[i1], earliest, latest, accept_outdoor));
        },
        (Err(_), Ok(b)) => {
            let (i2, k2) = choose|i: int, k: int|
                earliest_qualifying_at(times, earliest, latest, accept_outdoor, i) && first_eligible_at(
                    times[i].tables@,
                    accept_outdoor,
                    k,
                ) && #[trigger] times[i].tables@[k].config_id@ == b@;
            assert(qualifies(times[i2], earliest, latest, accept_outdoor));
        },
        (Err(_), Err(_)) => {},
    }
}

} // verus!
