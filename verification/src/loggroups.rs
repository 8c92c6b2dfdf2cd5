use vstd::prelude::*;

use crate::records::{
    clone_group_record, clone_opt_string, more_group_arn, more_group_name, opt_is_str,
    opt_string_is, LogGroupRecord, LogGroupRecordView,
};

verus! {

/// The synthetic record marking that more log-group pages exist.
pub open spec fn more_group_record() -> LogGroupRecordView {
    LogGroupRecordView {
        log_group_name: Some(more_group_name()),
        arn: Some(more_group_arn()),
    }
}

/// True of the synthetic "more pages" record and of nothing the service
/// itself returns.
pub open spec fn is_sentinel_group(r: LogGroupRecordView) -> bool {
    opt_is_str(r.arn, more_group_arn())
}

/// The listing after one fetched page is pushed: a trailing sentinel — and
/// only a sentinel — is stripped, the page is appended, and a fresh
/// sentinel is appended exactly when another page exists.
pub open spec fn pushed_groups(
    cur: Seq<LogGroupRecordView>,
    page: Seq<LogGroupRecordView>,
    has_next: bool,
) -> Seq<LogGroupRecordView> {
    let base = if cur.len() > 0 && is_sentinel_group(cur.last()) {
        cur.drop_last()
    } else {
        cur
    };
    if has_next {
        base + page + seq![more_group_record()]
    } else {
        base + page
    }
}

/// True when `q` occurs in `s` as a contiguous substring.
pub open spec fn str_contains(s: Seq<char>, q: Seq<char>) -> bool {
    exists|off: int|
        0 <= off && off + q.len() <= s.len() && #[trigger] s.subrange(off, off + q.len()) == q
}

/// True when the record has a name and the name contains `q`.
pub open spec fn group_matches(r: LogGroupRecordView, q: Seq<char>) -> bool {
    r.log_group_name matches Some(n) && str_contains(n, q)
}

/// The subsequence of records whose name contains `q`.
pub open spec fn filtered_groups(s: Seq<LogGroupRecordView>, q: Seq<char>) -> Seq<
    LogGroupRecordView,
>
    decreases s.len(),
{
    if s.len() == 0 {
        s
    } else {
        let rest = filtered_groups(s.drop_last(), q);
        if group_matches(s.last(), q) {
            rest.push(s.last())
        } else {
            rest
        }
    }
}

/// The names of the records that have one, in order.
pub open spec fn names_of(s: Seq<LogGroupRecordView>) -> Seq<Seq<char>>
    decreases s.len(),
{
    if s.len() == 0 {
        Seq::empty()
    } else {
        let rest = names_of(s.drop_last());
        match s.last().log_group_name {
            Some(n) => rest.push(n),
            None => rest,
        }
    }
}

/// Substring search over character sequences.
pub fn contains_sub(s: &str, q: &str) -> (r: bool)
    ensures
        r == str_contains(s@, q@),
{
    let s_len = s.unicode_len();
    let q_len = q.unicode_len();
    if q_len > s_len {
        return false;
    }
    if q_len == 0 {
        proof {
            assert(s@.subrange(0, 0 + q@.len() as int) =~= q@);
        }
        return true;
    }
    let mut off: usize = 0;
    while off <= s_len - q_len
        invariant
            1 <= q_len <= s_len == s@.len(),
            q_len == q@.len(),
            off <= s_len - q_len + 1,
            forall|o: int| 0 <= o < off ==> #[trigger] s@.subrange(o, o + q@.len()) != q@,
        decreases s_len - q_len - off + 1,
    {
        let mut j: usize = 0;
        let mut all_eq = true;
        while j < q_len
            invariant
                j <= q_len,
                off + q_len <= s_len == s@.len(),
                q_len == q@.len(),
                all_eq ==> forall|t: int| 0 <= t < j ==> #[trigger] s@[off + t] == q@[t],
                !all_eq ==> s@.subrange(off as int, off + q@.len()) != q@,
            decreases q_len - j,
        {
            if s.get_char(off + j) != q.get_char(j) {
                proof {
                    assert(s@.subrange(off as int, off + q@.len())[j as int] == s@[off + j]);
                }
                all_eq = false;
            }
            j = j + 1;
        }
        if all_eq {
            proof {
                assert forall|t: int|
                    0 <= t < q@.len() implies s@.subrange(off as int, off + q@.len())[t]
                    == q@[t] by {
                    assert(s@[off + t] == q@[t]);
                }
                assert(s@.subrange(off as int, off + q@.len()) =~= q@);
            }
            return true;
        }
        off = off + 1;
    }
    false
}

proof fn lemma_filtered_groups_snoc(s: Seq<LogGroupRecordView>, x: LogGroupRecordView, q: Seq<char>)
    ensures
        filtered_groups(s.push(x), q) == if group_matches(x, q) {
            filtered_groups(s, q).push(x)
        } else {
            filtered_groups(s, q)
        },
{
    assert(s.push(x).drop_last() =~= s);
    assert(s.push(x).last() == x);
}

proof fn lemma_names_of_snoc(s: Seq<LogGroupRecordView>, x: LogGroupRecordView)
    ensures
        names_of(s.push(x)) == match x.log_group_name {
            Some(n) => names_of(s).push(n),
            None => names_of(s),
        },
{
    assert(s.push(x).drop_last() =~= s);
    assert(s.push(x).last() == x);
}

/// Mathematical image of a `LogGroups` listing.
pub struct LogGroupsView {
    pub items: Seq<LogGroupRecordView>,
    pub selected: Option<usize>,
}

/// Ordered listing of log groups with a "more pages" sentinel and a cursor.
pub struct LogGroups {
    items: Vec<LogGroupRecord>,
    selected: Option<usize>,
}

impl View for LogGroups {
    type V = LogGroupsView;

    closed spec fn view(&self) -> LogGroupsView {
        LogGroupsView { items: self.items.deep_view(), selected: self.selected }
    }
}

impl LogGroups {
    pub fn new(items: Vec<LogGroupRecord>) -> (s: Self)
        ensures
            s@.items == items.deep_view(),
            s@.selected is None,
    {
        LogGroups { items, selected: None }
    }

    pub fn set_items(&mut self, items: Vec<LogGroupRecord>)
        ensures
            final(self)@.items == items.deep_view(),
            final(self)@.selected == old(self)@.selected,
    {
        self.items = items;
    }

    pub fn items(&self) -> (r: &Vec<LogGroupRecord>)
        ensures
            r.deep_view() == self@.items,
    {
        &self.items
    }

    pub fn get_item(&self, idx: usize) -> (r: Option<&LogGroupRecord>)
        ensures
            match r {
                Some(g) => idx < self@.items.len() && g@ == self@.items[idx as int],
                None => idx >= self@.items.len(),
            },
    {
        if idx < self.items.len() {
            Some(&self.items[idx])
        } else {
            None
        }
    }

    /// Name of the record at `idx`, or `None` past the end or for a record
    /// without a name.
    pub fn get_log_group_name(&self, idx: usize) -> (r: Option<String>)
        ensures
            r.deep_view() == if idx < self@.items.len() {
                self@.items[idx as int].log_group_name
            } else {
                None::<Seq<char>>
            },
    {
        if idx < self.items.len() {
            clone_opt_string(&self.items[idx].log_group_name)
        } else {
            None
        }
    }

    /// Pushes one fetched page: strips a trailing sentinel — a trailing
    /// real record stays — appends the page, and re-appends a fresh
    /// sentinel exactly when more pages exist.
    pub fn push_items(&mut self, items: &mut Vec<LogGroupRecord>, has_next_token: bool)
        ensures
            final(self)@.items == pushed_groups(
                old(self)@.items,
                old(items).deep_view(),
                has_next_token,
            ),
            final(self)@.selected == old(self)@.selected,
            final(items).deep_view() == Seq::<LogGroupRecordView>::empty(),
    {
        let ghost cur = self.items.deep_view();
        let ghost page = items.deep_view();
        if self.has_more_items() {
            let last_idx = self.items.len() - 1;
            self.items.remove(last_idx);
            proof {
                assert(self.items.deep_view() =~= cur.drop_last());
            }
        }
        self.items.append(items);
        if has_next_token {
            let more = LogGroupRecord {
                log_group_name: Some("More...".to_owned()),
                arn: Some("more".to_owned()),
            };
            self.items.push(more);
        }
        proof {
            assert(self.items.deep_view() =~= pushed_groups(cur, page, has_next_token));
            assert(items.deep_view() =~= Seq::<LogGroupRecordView>::empty());
        }
    }

    /// Whether the listing ends with the "more pages" sentinel.
    pub fn has_more_items(&self) -> (r: bool)
        ensures
            r == (self@.items.len() > 0 && is_sentinel_group(self@.items.last())),
    {
        if self.items.len() == 0 {
            return false;
        }
        let last = &self.items[self.items.len() - 1];
        opt_string_is(&last.arn, "more")
    }

    pub fn has_items(&self) -> (r: bool)
        ensures
            r == (self@.items.len() > 0),
    {
        self.items.len() > 0
    }

    /// Keeps only the records whose name contains `query`.
    pub fn filter_items(&mut self, query: &str)
        ensures
            final(self)@.items == filtered_groups(old(self)@.items, query@),
            final(self)@.selected == old(self)@.selected,
    {
        let ghost orig = self.items.deep_view();
        let mut kept: Vec<LogGroupRecord> = Vec::new();
        let mut i: usize = 0;
        proof {
            assert(orig.take(0) =~= Seq::<LogGroupRecordView>::empty());
        }
        while i < self.items.len()
            invariant
                i <= orig.len(),
                self.items.deep_view() == orig,
                self@.selected == old(self)@.selected,
                kept.deep_view() == filtered_groups(orig.take(i as int), query@),
            decreases orig.len() - i,
        {
            let item = &self.items[i];
            let keep = match &item.log_group_name {
                Some(name) => contains_sub(name.as_str(), query),
                None => false,
            };
            proof {
                lemma_filtered_groups_snoc(orig.take(i as int), orig[i as int], query@);
                assert(orig.take(i + 1) =~= orig.take(i as int).push(orig[i as int]));
            }
            if keep {
                kept.push(clone_group_record(item));
            }
            proof {
                assert(kept.deep_view() =~= filtered_groups(orig.take(i + 1), query@));
            }
            i = i + 1;
        }
        proof {
            assert(orig.take(orig.len() as int) =~= orig);
        }
        self.items = kept;
    }

    /// The names of all records that have one, in order.
    pub fn get_all_names(&self) -> (r: Vec<String>)
        ensures
            r.deep_view() == names_of(self@.items),
    {
        let ghost orig = self.items.deep_view();
        let mut names: Vec<String> = Vec::new();
        let mut i: usize = 0;
        proof {
            assert(orig.take(0) =~= Seq::<LogGroupRecordView>::empty());
            assert(names.deep_view() =~= names_of(orig.take(0)));
        }
        while i < self.items.len()
            invariant
                i <= orig.len(),
                self.items.deep_view() == orig,
                names.deep_view() == names_of(orig.take(i as int)),
            decreases orig.len() - i,
        {
            let item = &self.items[i];
            proof {
                lemma_names_of_snoc(orig.take(i as int), orig[i as int]);
                assert(orig.take(i + 1) =~= orig.take(i as int).push(orig[i as int]));
            }
            match &item.log_group_name {
                Some(name) => {
                    names.push(name.clone());
                    proof {
                        assert(names.deep_view() =~= names_of(orig.take(i + 1)));
                    }
                },
                None => {
                    proof {
                        assert(names.deep_view() =~= names_of(orig.take(i + 1)));
                    }
                },
            }
            i = i + 1;
        }
        proof {
            assert(orig.take(orig.len() as int) =~= orig);
        }
        names
    }

    pub fn get_state(&self) -> (r: Option<usize>)
        ensures
            r == self@.selected,
    {
        self.selected
    }

    pub fn get_current_idx(&self) -> (r: Option<usize>)
        ensures
            r == self@.selected,
    {
        self.selected
    }

    /// Moves the cursor one row down; entering the list at the top when no
    /// row was selected, and clearing the cursor when the listing is empty.
    pub fn next(&mut self)
        ensures
            final(self)@.items == old(self)@.items,
            final(self)@.selected == if old(self)@.items.len() == 0 {
                None::<usize>
            } else {
                match old(self)@.selected {
                    Some(s) => if s < usize::MAX {
                        Some((s + 1) as usize)
                    } else {
                        Some(s)
                    },
                    None => Some(0usize),
                }
            },
    {
        match self.selected {
            Some(s) => {
                if !self.items.is_empty() {
                    if s < usize::MAX {
                        self.selected = Some(s + 1);
                    }
                } else {
                    self.selected = None;
                }
            },
            None => {
                if !self.items.is_empty() {
                    self.selected = Some(0);
                } else {
                    self.selected = None;
                }
            },
        }
    }

    /// Moves the cursor one row up, stopping at the top.
    pub fn previous(&mut self)
        ensures
            final(self)@.items == old(self)@.items,
            final(self)@.selected == match old(self)@.selected {
                Some(s) => if s > 0 {
                    Some((s - 1) as usize)
                } else {
                    Some(s)
                },
                None => None::<usize>,
            },
    {
        match self.selected {
            Some(s) => {
                if s > 0 {
                    self.selected = Some(s - 1);
                }
            },
            None => {},
        }
    }
}

/// After a push that reports more pages the sentinel stands last and nowhere
/// else; after a push that reports none there is no sentinel at all — so
/// the listing shows "more" exactly when the service reported more —
/// provided the incoming page carries no sentinel and the old listing
/// carried none except, possibly, as its last element.
pub proof fn lemma_sentinel_placement(
    cur: Seq<LogGroupRecordView>,
    page: Seq<LogGroupRecordView>,
    has_next: bool,
)
    requires
        forall|i: int| 0 <= i < page.len() ==> !is_sentinel_group(#[trigger] page[i]),
        forall|i: int| 0 <= i < cur.len() - 1 ==> !is_sentinel_group(#[trigger] cur[i]),
    ensures
        has_next ==> {
            let out = pushed_groups(cur, page, has_next);
            out.len() > 0 && is_sentinel_group(out.last()) && forall|i: int|
                0 <= i < out.len() - 1 ==> !is_sentinel_group(#[trigger] out[i])
        },
        !has_next ==> forall|i: int|
            0 <= i < pushed_groups(cur, page, has_next).len() ==> !is_sentinel_group(
                #[trigger] pushed_groups(cur, page, has_next)[i],
            ),
        ({
            let out = pushed_groups(cur, page, has_next);
            (out.len() > 0 && is_sentinel_group(out.last())) <==> has_next
        }),
{
    let base = if cur.len() > 0 && is_sentinel_group(cur.last()) {
        cur.drop_last()
    } else {
        cur
    };
    assert(forall|i: int| 0 <= i < base.len() ==> !is_sentinel_group(#[trigger] base[i]));
    if has_next {
        let out = pushed_groups(cur, page, has_next);
        assert(out.last() == more_group_record());
        assert forall|i: int| 0 <= i < out.len() - 1 implies !is_sentinel_group(
            #[trigger] out[i],
        ) by {
            if i < base.len() {
                assert(out[i] == base[i]);
            } else {
                assert(out[i] == page[i - base.len()]);
            }
        }
    }
}

} // verus!
