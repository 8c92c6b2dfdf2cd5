use vstd::prelude::*;

use crate::records::{
    clone_opt_string, more_event_id, opt_is_str, opt_string_is, LogRecord, LogRecordView,
};

verus! {

/// True when some record of `s` carries the event id `id`.
pub open spec fn contains_id(s: Seq<LogRecordView>, id: Option<Seq<char>>) -> bool {
    exists|j: int| 0 <= j < s.len() && s[j].event_id == id
}

/// Index of the first record of `page`, at or after `a`, whose id does not
/// occur in `cur`; `None` when every remaining record duplicates one of `cur`.
pub open spec fn first_new_from(
    cur: Seq<LogRecordView>,
    page: Seq<LogRecordView>,
    a: int,
) -> Option<int>
    decreases page.len() - a,
{
    if a < 0 || a >= page.len() {
        None
    } else if !contains_id(cur, page[a].event_id) {
        Some(a)
    } else {
        first_new_from(cur, page, a + 1)
    }
}

/// Where appending of a fetched page begins: index 0 when the collection is
/// empty, else the first position of the page holding an unseen id.
pub open spec fn merge_start(cur: Seq<LogRecordView>, page: Seq<LogRecordView>) -> Option<int> {
    if cur.len() == 0 {
        Some(0)
    } else {
        first_new_from(cur, page, 0)
    }
}

/// The collection after a page has been pushed: the suffix of the page from
/// the first unseen id onward is appended; a page of nothing but duplicates
/// appends nothing.
pub open spec fn merged(cur: Seq<LogRecordView>, page: Seq<LogRecordView>) -> Seq<LogRecordView> {
    match merge_start(cur, page) {
        Some(k) => cur + page.subrange(k, page.len() as int),
        None => cur,
    }
}

/// Position of the first occurrence of `x` in `s` at or after `a`.
pub open spec fn find_first(s: Seq<usize>, x: usize, a: int) -> Option<int>
    decreases s.len() - a,
{
    if a < 0 || a >= s.len() {
        None
    } else if s[a] == x {
        Some(a)
    } else {
        find_first(s, x, a + 1)
    }
}

/// One toggle of the opened-row list: the first occurrence of `x` is removed,
/// or `x` is appended when absent.
pub open spec fn toggled(s: Seq<usize>, x: usize) -> Seq<usize> {
    match find_first(s, x, 0) {
        Some(i) => s.remove(i),
        None => s.push(x),
    }
}

/// The opened-row list after toggling every index of `[from, to)` in
/// ascending order.
pub open spec fn toggled_range(s: Seq<usize>, from: int, to: int) -> Seq<usize>
    decreases to - from,
{
    if to <= from {
        s
    } else {
        toggled_range(toggled(s, from as usize), from + 1, to)
    }
}

/// No two records of `s` share an event id.
pub open spec fn distinct_ids(s: Seq<LogRecordView>) -> bool {
    forall|i: int, j: int| 0 <= i < j < s.len() ==> s[i].event_id != s[j].event_id
}

/// Mathematical image of a `LogEvents` collection.
pub struct LogEventsView {
    pub items: Seq<LogRecordView>,
    pub opened: Seq<usize>,
}

/// Ordered, deduplicating container of the log records fetched for one pane,
/// together with the list of expanded rows.
pub struct LogEvents {
    items: Vec<LogRecord>,
    opened_idx: Vec<usize>,
}

impl View for LogEvents {
    type V = LogEventsView;

    closed spec fn view(&self) -> LogEventsView {
        LogEventsView { items: self.items.deep_view(), opened: self.opened_idx@ }
    }
}

/// Compares two optional owned strings by their contents.
pub fn opt_string_eq(a: &Option<String>, b: &Option<String>) -> (r: bool)
    ensures
        r == (a.deep_view() == b.deep_view()),
{
    match (a, b) {
        (None, None) => true,
        (Some(x), Some(y)) => *x == *y,
        _ => false,
    }
}

/// Whether some record of `v` carries the event id `id`.
fn contains_record_id(v: &Vec<LogRecord>, id: &Option<String>) -> (r: bool)
    ensures
        r == contains_id(v.deep_view(), id.deep_view()),
{
    let mut i: usize = 0;
    while i < v.len()
        invariant
            i <= v@.len(),
            forall|j: int| 0 <= j < i ==> v.deep_view()[j].event_id != id.deep_view(),
        decreases v@.len() - i,
    {
        if opt_string_eq(&v[i].event_id, id) {
            assert(v.deep_view()[i as int].event_id == id.deep_view());
            return true;
        }
        i = i + 1;
    }
    false
}

proof fn lemma_first_new_skip(cur: Seq<LogRecordView>, page: Seq<LogRecordView>, a: int, b: int)
    requires
        0 <= a <= b <= page.len(),
        forall|j: int| a <= j < b ==> contains_id(cur, #[trigger] page[j].event_id),
    ensures
        first_new_from(cur, page, a) == first_new_from(cur, page, b),
    decreases b - a,
{
    if a < b {
        lemma_first_new_skip(cur, page, a + 1, b);
    }
}

/// Characterization of `first_new_from`: the index it returns is the least
/// position, at or after `a`, whose id is unseen.
proof fn lemma_first_new_props(cur: Seq<LogRecordView>, page: Seq<LogRecordView>, a: int)
    requires
        0 <= a <= page.len(),
    ensures
        match first_new_from(cur, page, a) {
            Some(k) => a <= k < page.len() && !contains_id(cur, page[k].event_id) && forall|
                j: int,
            |
                a <= j < k ==> contains_id(cur, #[trigger] page[j].event_id),
            None => forall|j: int|
                a <= j < page.len() ==> contains_id(cur, #[trigger] page[j].event_id),
        },
    decreases page.len() - a,
{
    if a < page.len() && contains_id(cur, page[a].event_id) {
        lemma_first_new_props(cur, page, a + 1);
    }
}

/// Toggling one more index extends a run of toggles on the right.
proof fn lemma_toggled_range_snoc(s: Seq<usize>, from: int, to: int)
    requires
        from <= to,
    ensures
        toggled_range(s, from, to + 1) == toggled(toggled_range(s, from, to), to as usize),
    decreases to - from,
{
    if from < to {
        lemma_toggled_range_snoc(toggled(s, from as usize), from + 1, to);
    } else {
        assert(toggled_range(toggled(s, from as usize), from + 1, to + 1) == toggled(
            s,
            from as usize,
        ));
    }
}

/// `find_first` from `a` ignores a stretch of entries that are not `x`.
pub proof fn lemma_find_first_skip(s: Seq<usize>, x: usize, a: int, b: int)
    requires
        0 <= a <= b <= s.len(),
        forall|j: int| a <= j < b ==> s[j] != x,
    ensures
        find_first(s, x, a) == find_first(s, x, b),
    decreases b - a,
{
    if a < b {
        lemma_find_first_skip(s, x, a + 1, b);
    }
}

impl LogEvents {
    pub fn new(items: Vec<LogRecord>) -> (s: Self)
        ensures
            s@.items == items.deep_view(),
            s@.opened == Seq::<usize>::empty(),
    {
        let s = Self { items, opened_idx: Vec::new() };
        proof {
            assert(s@.opened =~= Seq::<usize>::empty());
        }
        s
    }

    pub fn set_items(&mut self, items: Vec<LogRecord>)
        ensures
            final(self)@.items == items.deep_view(),
            final(self)@.opened == old(self)@.opened,
    {
        self.items = items;
    }

    pub fn items(&self) -> (r: &Vec<LogRecord>)
        ensures
            r.deep_view() == self@.items,
    {
        &self.items
    }

    pub fn opened_idx(&self) -> (r: &Vec<usize>)
        ensures
            r@ == self@.opened,
    {
        &self.opened_idx
    }

    /// Message of the record at `idx`, or `None` past the end.
    pub fn get_message(&self, idx: usize) -> (r: Option<String>)
        ensures
            r.deep_view() == if idx < self@.items.len() {
                self@.items[idx as int].message
            } else {
                None::<Seq<char>>
            },
    {
        if idx < self.items.len() {
            clone_opt_string(&self.items[idx].message)
        } else {
            None
        }
    }

    pub fn clear_items(&mut self)
        ensures
            final(self)@.items == Seq::<LogRecordView>::empty(),
            final(self)@.opened == Seq::<usize>::empty(),
    {
        self.items = Vec::new();
        self.opened_idx = Vec::new();
        proof {
            assert(self@.items =~= Seq::<LogRecordView>::empty());
            assert(self@.opened =~= Seq::<usize>::empty());
        }
    }

    /// Cheap likeness check used after a fetch: equal lengths and equal
    /// first and last event ids.
    pub fn is_same(&self, other: &Self) -> (r: bool)
        ensures
            r == (self@.items.len() == other@.items.len() && (self@.items.len() > 0
                ==> self@.items[0].event_id == other@.items[0].event_id
                    && self@.items.last().event_id == other@.items.last().event_id)),
    {
        let self_len = self.items.len();
        let other_len = other.items.len();
        if self_len != other_len {
            return false;
        }
        if self_len == 0 {
            return true;
        }
        if !opt_string_eq(&self.items[0].event_id, &other.items[0].event_id) {
            return false;
        }
        if !opt_string_eq(&self.items[self_len - 1].event_id, &other.items[other_len - 1].event_id)
        {
            return false;
        }
        true
    }

    /// Whether the collection ends with the synthetic "more pages" record.
    pub fn has_more_item(&self) -> (r: bool)
        ensures
            r == (self@.items.len() > 0 && opt_is_str(
                self@.items.last().event_id,
                more_event_id(),
            )),
    {
        if self.items.len() == 0 {
            return false;
        }
        let last = &self.items[self.items.len() - 1];
        opt_string_is(&last.event_id, "999")
    }

    pub fn has_items(&self) -> (r: bool)
        ensures
            r == (self@.items.len() > 0),
    {
        self.items.len() > 0
    }

    /// Expands the row at `idx`, or collapses it when already expanded.
    pub fn toggle_select(&mut self, idx: usize)
        ensures
            final(self)@.items == old(self)@.items,
            final(self)@.opened == toggled(old(self)@.opened, idx),
    {
        let ghost orig = self.opened_idx@;
        let mut i: usize = 0;
        while i < self.opened_idx.len()
            invariant
                i <= self.opened_idx@.len(),
                self.opened_idx@ == orig,
                orig == old(self)@.opened,
                self.items.deep_view() == old(self)@.items,
                forall|j: int| 0 <= j < i ==> orig[j] != idx,
            decreases self.opened_idx@.len() - i,
        {
            if self.opened_idx[i] == idx {
                proof {
                    lemma_find_first_skip(orig, idx, 0, i as int);
                    assert(find_first(orig, idx, i as int) == Some(i as int));
                }
                self.opened_idx.remove(i);
                assert(self.opened_idx@ == toggled(orig, idx));
                return;
            }
            i = i + 1;
        }
        proof {
            lemma_find_first_skip(orig, idx, 0, orig.len() as int);
        }
        self.opened_idx.push(idx);
    }

    /// Pushes one fetched page, skipping the leading records whose ids are
    /// already present. The page vector keeps the skipped prefix. With
    /// `open_all`, every appended row is toggled open in order.
    pub fn push_items(&mut self, items: &mut Vec<LogRecord>, open_all: bool)
        ensures
            final(self)@.items == merged(old(self)@.items, old(items).deep_view()),
            final(self)@.opened == if open_all {
                toggled_range(
                    old(self)@.opened,
                    old(self)@.items.len() as int,
                    merged(old(self)@.items, old(items).deep_view()).len() as int,
                )
            } else {
                old(self)@.opened
            },
            final(items).deep_view() == match merge_start(
                old(self)@.items,
                old(items).deep_view(),
            ) {
                Some(k) => old(items).deep_view().subrange(0, k),
                None => old(items).deep_view(),
            },
    {
        let ghost cur = self.items.deep_view();
        let ghost page = items.deep_view();
        let mut start: Option<usize> = None;
        let mut i: usize = 0;
        while start.is_none() && i < items.len()
            invariant
                i <= page.len(),
                items.deep_view() == page,
                self.items.deep_view() == cur,
                self.opened_idx@ == old(self)@.opened,
                forall|j: int| 0 <= j < i ==> contains_id(cur, #[trigger] page[j].event_id),
                start matches Some(k) ==> k == i && i < page.len() && !contains_id(
                    cur,
                    page[i as int].event_id,
                ),
            decreases page.len() - i + (if start.is_none() {
                1int
            } else {
                0int
            }),
        {
            if !contains_record_id(&self.items, &items[i].event_id) {
                start = Some(i);
            } else {
                i = i + 1;
            }
        }
        proof {
            lemma_first_new_skip(cur, page, 0, i as int);
        }
        if self.items.is_empty() {
            start = Some(0);
        }
        match start {
            Some(k) => {
                assert(merge_start(cur, page) == Some(k as int));
                let current_len = self.items.len();
                let mut to_push = items.split_off(k);
                self.items.append(&mut to_push);
                proof {
                    assert(self.items.deep_view() =~= merged(cur, page));
                    assert(items.deep_view() =~= page.subrange(0, k as int));
                }
                if open_all {
                    let ghost opened0 = self.opened_idx@;
                    let new_len = self.items.len();
                    assert(new_len == merged(cur, page).len());
                    let mut j: usize = current_len;
                    while j < new_len
                        invariant
                            current_len <= j <= new_len,
                            new_len == merged(cur, page).len(),
                            current_len == cur.len(),
                            self.items.deep_view() == merged(cur, page),
                            items.deep_view() == page.subrange(0, k as int),
                            self.opened_idx@ == toggled_range(
                                opened0,
                                current_len as int,
                                j as int,
                            ),
                        decreases new_len - j,
                    {
                        self.toggle_select(j);
                        proof {
                            lemma_toggled_range_snoc(opened0, current_len as int, j as int);
                        }
                        j = j + 1;
                    }
                }
            },
            None => {
                assert(merge_start(cur, page) == None::<int>);
            },
        }
    }
}

/// Merging a page twice changes nothing beyond the first merge: after one
/// push every id of the page is present, so the second push appends nothing.
pub proof fn lemma_merge_idempotent(cur: Seq<LogRecordView>, page: Seq<LogRecordView>)
    ensures
        merged(merged(cur, page), page) == merged(cur, page),
{
    let m = merged(cur, page);
    if m.len() == 0 {
        // both the collection and the page must have been empty
        assert(merge_start(m, page) == Some(0int));
        assert(merged(m, page) =~= m);
    } else {
        assert forall|j: int| 0 <= j < page.len() implies contains_id(
            m,
            #[trigger] page[j].event_id,
        ) by {
            match merge_start(cur, page) {
                Some(k) => {
                    if cur.len() > 0 {
                        lemma_first_new_props(cur, page, 0);
                    }
                    if j >= k {
                        // the record itself was appended
                        assert(m[cur.len() + j - k].event_id == page[j].event_id);
                    } else {
                        // a duplicate of the collection, which the merge kept
                        assert(contains_id(cur, page[j].event_id));
                        let w = choose|p: int|
                            0 <= p < cur.len() && cur[p].event_id == page[j].event_id;
                        assert(m[w].event_id == page[j].event_id);
                    }
                },
                None => {
                    lemma_first_new_props(cur, page, 0);
                    let w = choose|p: int| 0 <= p < cur.len() && cur[p].event_id == page[j].event_id;
                    assert(m[w].event_id == page[j].event_id);
                },
            }
        }
        lemma_first_new_props(m, page, 0);
        match first_new_from(m, page, 0) {
            Some(k) => {
                assert(contains_id(m, page[k].event_id));
                assert(false);
            },
            None => {},
        }
        assert(merge_start(m, page) == None::<int>);
    }
}

/// Merging pages that overlap only in their leading records keeps all event
/// ids pairwise distinct.
pub proof fn lemma_merge_distinct(cur: Seq<LogRecordView>, page: Seq<LogRecordView>)
    requires
        distinct_ids(cur),
        distinct_ids(page),
        // duplicates of the collection form a prefix of the page
        forall|i: int, j: int|
            0 <= i < j < page.len() && contains_id(cur, #[trigger] page[j].event_id)
                ==> contains_id(cur, #[trigger] page[i].event_id),
    ensures
        distinct_ids(merged(cur, page)),
{
    let m = merged(cur, page);
    match merge_start(cur, page) {
        Some(k) => {
            if cur.len() > 0 {
                lemma_first_new_props(cur, page, 0);
            }
            assert forall|a: int, b: int| 0 <= a < b < m.len() implies m[a].event_id
                != m[b].event_id by {
                if a < cur.len() && b < cur.len() {
                } else if a >= cur.len() && b >= cur.len() {
                    assert(m[a].event_id == page[k + a - cur.len()].event_id);
                    assert(m[b].event_id == page[k + b - cur.len()].event_id);
                } else {
                    // a names a record of the collection, b one appended from the page
                    let pb = k + b - cur.len();
                    assert(m[b].event_id == page[pb].event_id);
                    if contains_id(cur, page[pb].event_id) {
                        // a duplicate after the merge start would contradict
                        // the prefix shape of the overlap
                        if pb > k {
                            assert(contains_id(cur, page[k].event_id));
                        }
                        assert(false);
                    }
                }
            }
        },
        None => {},
    }
}

} // verus!
