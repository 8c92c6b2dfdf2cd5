use vstd::prelude::*;

use crate::loggroups::{contains_sub, names_of, str_contains, LogGroups};
use crate::logevents::find_first;
use crate::records::{clone_group_record, LogGroupRecordView};

verus! {

/// At most this many log groups, hence panes, can be selected at once.
pub const MAX_LOG_GROUP_SELECTION: usize = 4;

/// True when the record has a name and the sidebar query keeps it: an empty
/// query keeps everything, and a selected group is kept even when the query
/// no longer matches it.
pub open spec fn query_keeps(r: LogGroupRecordView, q: Seq<char>, exc: Seq<Seq<char>>) -> bool {
    r.log_group_name matches Some(n) && (q.len() == 0 || str_contains(n, q) || exc.contains(n))
}

/// The subsequence of records that the sidebar query keeps.
pub open spec fn queried_groups(
    s: Seq<LogGroupRecordView>,
    q: Seq<char>,
    exc: Seq<Seq<char>>,
) -> Seq<LogGroupRecordView>
    decreases s.len(),
{
    if s.len() == 0 {
        s
    } else {
        let rest = queried_groups(s.drop_last(), q, exc);
        if query_keeps(s.last(), q, exc) {
            rest.push(s.last())
        } else {
            rest
        }
    }
}

/// The names that the selection indices pick out of the filtered listing,
/// in selection order; indices past the end and nameless records yield
/// nothing.
pub open spec fn selected_names(
    items: Seq<LogGroupRecordView>,
    selection: Seq<usize>,
) -> Seq<Seq<char>>
    decreases selection.len(),
{
    if selection.len() == 0 {
        Seq::empty()
    } else {
        let rest = selected_names(items, selection.drop_last());
        let idx = selection.last();
        if idx < items.len() && items[idx as int].log_group_name is Some {
            rest.push(items[idx as int].log_group_name.unwrap())
        } else {
            rest
        }
    }
}

/// The indices of the records whose name stands in `gnames`, ascending.
pub open spec fn selection_from(
    items: Seq<LogGroupRecordView>,
    gnames: Seq<Seq<char>>,
) -> Seq<usize>
    decreases items.len(),
{
    if items.len() == 0 {
        Seq::empty()
    } else {
        let rest = selection_from(items.drop_last(), gnames);
        if items.last().log_group_name matches Some(n) && gnames.contains(n) {
            rest.push((items.len() - 1) as usize)
        } else {
            rest
        }
    }
}

/// The sidebar line for one group: its name behind a selected or an empty
/// checkbox.
pub open spec fn list_label(sel: bool, name: Seq<char>) -> Seq<char> {
    if sel {
        "[X]"@ + name
    } else {
        "[ ]"@ + name
    }
}

proof fn lemma_selection_from_snoc(
    items: Seq<LogGroupRecordView>,
    x: LogGroupRecordView,
    gnames: Seq<Seq<char>>,
)
    ensures
        selection_from(items.push(x), gnames) == if x.log_group_name matches Some(n)
            && gnames.contains(n) {
            selection_from(items, gnames).push(items.len() as usize)
        } else {
            selection_from(items, gnames)
        },
{
    assert(items.push(x).drop_last() =~= items);
    assert(items.push(x).last() == x);
}

proof fn lemma_queried_groups_snoc(
    s: Seq<LogGroupRecordView>,
    x: LogGroupRecordView,
    q: Seq<char>,
    exc: Seq<Seq<char>>,
)
    ensures
        queried_groups(s.push(x), q, exc) == if query_keeps(x, q, exc) {
            queried_groups(s, q, exc).push(x)
        } else {
            queried_groups(s, q, exc)
        },
{
    assert(s.push(x).drop_last() =~= s);
    assert(s.push(x).last() == x);
}

proof fn lemma_selected_names_snoc(items: Seq<LogGroupRecordView>, sel: Seq<usize>, idx: usize)
    ensures
        selected_names(items, sel.push(idx)) == if idx < items.len()
            && items[idx as int].log_group_name is Some {
            selected_names(items, sel).push(items[idx as int].log_group_name.unwrap())
        } else {
            selected_names(items, sel)
        },
{
    assert(sel.push(idx).drop_last() =~= sel);
    assert(sel.push(idx).last() == idx);
}

/// Whether `v` holds a string equal to `s`.
pub fn string_vec_contains(v: &Vec<String>, s: &str) -> (r: bool)
    ensures
        r == v.deep_view().contains(s@),
{
    let mut i: usize = 0;
    while i < v.len()
        invariant
            i <= v@.len(),
            forall|j: int| 0 <= j < i ==> v.deep_view()[j] != s@,
        decreases v@.len() - i,
    {
        let owned: String = s.to_owned();
        if v[i] == owned {
            assert(v.deep_view()[i as int] == s@);
            return true;
        }
        i = i + 1;
    }
    assert(forall|j: int| 0 <= j < v.deep_view().len() ==> v.deep_view()[j] != s@);
    false
}

/// Whether `v` holds the index `x`.
pub fn usize_vec_contains(v: &Vec<usize>, x: usize) -> (r: bool)
    ensures
        r == v@.contains(x),
{
    let mut i: usize = 0;
    while i < v.len()
        invariant
            i <= v@.len(),
            forall|j: int| 0 <= j < i ==> v@[j] != x,
        decreases v@.len() - i,
    {
        if v[i] == x {
            assert(v@[i as int] == x);
            return true;
        }
        i = i + 1;
    }
    false
}

/// Sidebar state: the full log-group listing, the listing as last filtered,
/// the fetch flag, the up-to-four selected indices into the filtered
/// listing, and the cursor row.
pub struct LogGroupsState {
    pub log_groups: LogGroups,
    pub filtered_log_groups: LogGroups,
    pub is_fetching: bool,
    pub selection: Vec<usize>,
    pub selected: Option<usize>,
}

impl LogGroupsState {
    pub fn new() -> (s: Self)
        ensures
            s.log_groups@.items == Seq::<LogGroupRecordView>::empty(),
            s.filtered_log_groups@.items == Seq::<LogGroupRecordView>::empty(),
            !s.is_fetching,
            s.selection@ == Seq::<usize>::empty(),
            s.selected is None,
    {
        LogGroupsState {
            log_groups: LogGroups::new(Vec::new()),
            filtered_log_groups: LogGroups::new(Vec::new()),
            is_fetching: false,
            selection: Vec::new(),
            selected: None,
        }
    }

    /// Recomputes the filtered listing from the full one: records the query
    /// matches, and records named in `exc` — groups whose panes are open
    /// must stay listed whatever the query.
    fn query_log_groups(&mut self, query: &str, exc: &Vec<String>)
        ensures
            final(self).filtered_log_groups@.items == queried_groups(
                old(self).log_groups@.items,
                query@,
                exc.deep_view(),
            ),
            final(self).filtered_log_groups@.selected
                == old(self).filtered_log_groups@.selected,
            final(self).log_groups == old(self).log_groups,
            final(self).is_fetching == old(self).is_fetching,
            final(self).selection == old(self).selection,
            final(self).selected == old(self).selected,
    {
        let ghost orig = self.log_groups@.items;
        let items = self.log_groups.items();
        let mut kept: Vec<crate::records::LogGroupRecord> = Vec::new();
        let mut i: usize = 0;
        proof {
            assert(orig.take(0) =~= Seq::<LogGroupRecordView>::empty());
        }
        while i < items.len()
            invariant
                i <= orig.len(),
                items.deep_view() == orig,
                kept.deep_view() == queried_groups(orig.take(i as int), query@, exc.deep_view()),
            decreases orig.len() - i,
        {
            let item = &items[i];
            let keep = match &item.log_group_name {
                Some(name) => {
                    if query.unicode_len() == 0 {
                        true
                    } else if contains_sub(name.as_str(), query) {
                        true
                    } else {
                        string_vec_contains(exc, name.as_str())
                    }
                },
                None => false,
            };
            proof {
                lemma_queried_groups_snoc(
                    orig.take(i as int),
                    orig[i as int],
                    query@,
                    exc.deep_view(),
                );
                assert(orig.take(i + 1) =~= orig.take(i as int).push(orig[i as int]));
            }
            if keep {
                kept.push(clone_group_record(item));
            }
            proof {
                assert(kept.deep_view() =~= queried_groups(orig.take(i + 1), query@, exc.deep_view()));
            }
            i = i + 1;
        }
        proof {
            assert(orig.take(orig.len() as int) =~= orig);
        }
        self.filtered_log_groups.set_items(kept);
    }

    /// Remaps the selection to the given group names: after a refiltering
    /// the indices shift, so selection is carried over by name, never by
    /// index.
    pub fn update_selections(&mut self, gnames: &Vec<String>)
        ensures
            final(self).selection@ == selection_from(
                old(self).filtered_log_groups@.items,
                gnames.deep_view(),
            ),
            final(self).log_groups == old(self).log_groups,
            final(self).filtered_log_groups == old(self).filtered_log_groups,
            final(self).is_fetching == old(self).is_fetching,
            final(self).selected == old(self).selected,
    {
        let ghost items_v = self.filtered_log_groups@.items;
        let mut sel: Vec<usize> = Vec::new();
        let items = self.filtered_log_groups.items();
        let mut i: usize = 0;
        proof {
            assert(items_v.take(0) =~= Seq::<LogGroupRecordView>::empty());
        }
        while i < items.len()
            invariant
                i <= items_v.len(),
                items.deep_view() == items_v,
                sel@ == selection_from(items_v.take(i as int), gnames.deep_view()),
            decreases items_v.len() - i,
        {
            let item = &items[i];
            let keep = match &item.log_group_name {
                Some(name) => string_vec_contains(gnames, name.as_str()),
                None => false,
            };
            proof {
                lemma_selection_from_snoc(items_v.take(i as int), items_v[i as int], gnames.deep_view());
                assert(items_v.take(i + 1) =~= items_v.take(i as int).push(items_v[i as int]));
            }
            if keep {
                sel.push(i);
            }
            i = i + 1;
        }
        proof {
            assert(items_v.take(items_v.len() as int) =~= items_v);
        }
        self.selection = sel;
    }

    /// Toggles the selection of the filtered row `idx`; a fifth selection is
    /// refused, so no more than four groups are ever selected.
    pub fn select(&mut self, idx: usize)
        ensures
            final(self).selection@ == match find_first(old(self).selection@, idx, 0) {
                Some(i) => old(self).selection@.remove(i),
                None => if old(self).selection@.len() < MAX_LOG_GROUP_SELECTION {
                    old(self).selection@.push(idx)
                } else {
                    old(self).selection@
                },
            },
            final(self).log_groups == old(self).log_groups,
            final(self).filtered_log_groups == old(self).filtered_log_groups,
            final(self).is_fetching == old(self).is_fetching,
            final(self).selected == old(self).selected,
    {
        let ghost orig = self.selection@;
        let mut i: usize = 0;
        while i < self.selection.len()
            invariant
                i <= orig.len(),
                self.selection@ == orig,
                orig == old(self).selection@,
                self.log_groups == old(self).log_groups,
                self.filtered_log_groups == old(self).filtered_log_groups,
                self.is_fetching == old(self).is_fetching,
                self.selected == old(self).selected,
                forall|j: int| 0 <= j < i ==> orig[j] != idx,
            decreases orig.len() - i,
        {
            if self.selection[i] == idx {
                proof {
                    crate::logevents::lemma_find_first_skip(orig, idx, 0, i as int);
                    assert(find_first(orig, idx, i as int) == Some(i as int));
                }
                self.selection.remove(i);
                return;
            }
            i = i + 1;
        }
        proof {
            crate::logevents::lemma_find_first_skip(orig, idx, 0, orig.len() as int);
        }
        if self.selection.len() < MAX_LOG_GROUP_SELECTION {
            self.selection.push(idx);
        }
    }

    /// The names of the currently selected groups, in selection order.
    pub fn get_selected_log_group_names(&self) -> (r: Vec<String>)
        ensures
            r.deep_view() == selected_names(self.filtered_log_groups@.items, self.selection@),
    {
        let ghost items_v = self.filtered_log_groups@.items;
        let ghost sel_v = self.selection@;
        let mut result: Vec<String> = Vec::new();
        let mut i: usize = 0;
        proof {
            assert(sel_v.take(0) =~= Seq::<usize>::empty());
            assert(result.deep_view() =~= selected_names(items_v, sel_v.take(0)));
        }
        while i < self.selection.len()
            invariant
                i <= sel_v.len(),
                self.selection@ == sel_v,
                self.filtered_log_groups@.items == items_v,
                result.deep_view() == selected_names(items_v, sel_v.take(i as int)),
            decreases sel_v.len() - i,
        {
            let idx = self.selection[i];
            proof {
                lemma_selected_names_snoc(items_v, sel_v.take(i as int), idx);
                assert(sel_v.take(i + 1) =~= sel_v.take(i as int).push(idx));
            }
            match self.filtered_log_groups.get_log_group_name(idx) {
                Some(name) => {
                    result.push(name);
                    proof {
                        assert(result.deep_view() =~= selected_names(items_v, sel_v.take(i + 1)));
                    }
                },
                None => {
                    proof {
                        assert(result.deep_view() =~= selected_names(items_v, sel_v.take(i + 1)));
                    }
                },
            }
            i = i + 1;
        }
        proof {
            assert(sel_v.take(sel_v.len() as int) =~= sel_v);
        }
        result
    }

    pub fn state_select(&mut self, idx: usize)
        ensures
            final(self).selected == Some(idx),
            final(self).log_groups == old(self).log_groups,
            final(self).filtered_log_groups == old(self).filtered_log_groups,
            final(self).is_fetching == old(self).is_fetching,
            final(self).selection == old(self).selection,
    {
        self.selected = Some(idx);
    }

    pub fn get_current_idx(&self) -> (r: Option<usize>)
        ensures
            r == self.selected,
    {
        self.selected
    }

    /// Moves the sidebar cursor one row down; entering the list at the top
    /// when no row was selected, and clearing it when the filtered listing
    /// is empty.
    pub fn next(&mut self)
        ensures
            final(self).selected == if final(self).filtered_log_groups@.items.len() == 0 {
                None::<usize>
            } else {
                match old(self).selected {
                    Some(s) => if s < usize::MAX {
                        Some((s + 1) as usize)
                    } else {
                        Some(s)
                    },
                    None => Some(0usize),
                }
            },
            final(self).log_groups == old(self).log_groups,
            final(self).filtered_log_groups == old(self).filtered_log_groups,
            final(self).is_fetching == old(self).is_fetching,
            final(self).selection == old(self).selection,
    {
        match self.selected {
            Some(s) => {
                if self.filtered_log_groups.has_items() {
                    if s < usize::MAX {
                        self.selected = Some(s + 1);
                    }
                } else {
                    self.selected = None;
                }
            },
            None => {
                if self.filtered_log_groups.has_items() {
                    self.selected = Some(0);
                } else {
                    self.selected = None;
                }
            },
        }
    }

    /// Moves the sidebar cursor one row up, stopping at the top.
    pub fn previous(&mut self)
        ensures
            final(self).selected == match old(self).selected {
                Some(s) => if s > 0 {
                    Some((s - 1) as usize)
                } else {
                    Some(s)
                },
                None => None::<usize>,
            },
            final(self).log_groups == old(self).log_groups,
            final(self).filtered_log_groups == old(self).filtered_log_groups,
            final(self).is_fetching == old(self).is_fetching,
            final(self).selection == old(self).selection,
    {
        match self.selected {
            Some(s) => {
                if s > 0 {
                    self.selected = Some(s - 1);
                }
            },
            None => {},
        }
    }

    /// The sidebar lines to draw — each kept group's name behind its
    /// checkbox — together with the cursor, clamped to the last line.
    /// Recomputes the filtered listing for `query` and remaps the selection
    /// by name.
    pub fn get_list_items(&mut self, query: &str, exc: &Vec<String>) -> (r: (
        Vec<String>,
        Option<usize>,
    ))
        ensures
            ({
                let filtered = queried_groups(old(self).log_groups@.items, query@, exc.deep_view());
                let gnames = selected_names(
                    old(self).filtered_log_groups@.items,
                    old(self).selection@,
                );
                let labels = r.0.deep_view();
                let names = names_of(filtered);
                &&& final(self).filtered_log_groups@.items == filtered
                &&& final(self).selection@ == selection_from(filtered, gnames)
                &&& labels.len() == names.len()
                &&& forall|i: int|
                    0 <= i < names.len() ==> labels[i] == list_label(
                        final(self).selection@.contains(i as usize),
                        names[i],
                    )
                &&& final(self).selected == match old(self).selected {
                    Some(s) => if s >= names.len() && names.len() > 0 {
                        Some((names.len() - 1) as usize)
                    } else if s >= names.len() {
                        Some(0usize)
                    } else {
                        Some(s)
                    },
                    None => None::<usize>,
                }
                &&& r.1 == final(self).selected
                &&& final(self).log_groups == old(self).log_groups
                &&& final(self).is_fetching == old(self).is_fetching
            }),
    {
        let selected_gnames = self.get_selected_log_group_names();
        self.query_log_groups(query, exc);
        self.update_selections(&selected_gnames);
        let names = self.filtered_log_groups.get_all_names();
        let ghost names_v = names.deep_view();
        let ghost sel_v = self.selection@;
        let ghost state_snap = *self;
        let mut items: Vec<String> = Vec::new();
        let mut i: usize = 0;
        while i < names.len()
            invariant
                i <= names_v.len(),
                names.deep_view() == names_v,
                *self == state_snap,
                sel_v == self.selection@,
                items@.len() == i,
                forall|j: int|
                    0 <= j < i ==> items.deep_view()[j] == list_label(
                        sel_v.contains(j as usize),
                        names_v[j],
                    ),
            decreases names_v.len() - i,
        {
            let name = &names[i];
            let label: String = if usize_vec_contains(&self.selection, i) {
                let l = "[X]".to_owned();
                l.concat(name.as_str())
            } else {
                let l = "[ ]".to_owned();
                l.concat(name.as_str())
            };
            proof {
                assert(label@ == list_label(sel_v.contains(i as usize), names_v[i as int]));
            }
            let ghost prev_items = items.deep_view();
            items.push(label);
            proof {
                assert(items.deep_view() =~= prev_items.push(label@));
            }
            i = i + 1;
        }
        if let Some(idx) = self.selected {
            if idx >= items.len() {
                if items.len() > 0 {
                    self.selected = Some(items.len() - 1);
                } else {
                    self.selected = Some(0);
                }
            }
        }
        (items, self.selected)
    }
}

} // verus!
