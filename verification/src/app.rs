use vstd::prelude::*;

use crate::keymap::KeyCode;

verus! {

/// Which region holds the focus: the sidebar, or one of the panes by its
/// quadrant position.
#[derive(Debug, PartialEq, Eq, Structural)]
pub enum SelectState {
    SideMenu,
    EventAreas(usize),
}

/// The focus after one arrow key, with `n` panes open. The panes stand in a
/// two-by-two grid: zero upper left, one upper right, two lower left, three
/// lower right; a move toward a pane that is not open leaves the focus
/// where it was.
pub open spec fn rotated(cur: SelectState, key: KeyCode, n: int) -> SelectState {
    match cur {
        SelectState::SideMenu => {
            if key is Right && n > 0 {
                SelectState::EventAreas(0)
            } else {
                cur
            }
        },
        SelectState::EventAreas(idx) => match key {
            KeyCode::Left => {
                if idx == 0 || idx == 2 {
                    SelectState::SideMenu
                } else if idx == 1 {
                    SelectState::EventAreas(0)
                } else if idx == 3 {
                    SelectState::EventAreas(2)
                } else {
                    cur
                }
            },
            KeyCode::Right => {
                if idx == 0 && n > 1 {
                    SelectState::EventAreas(1)
                } else if idx == 2 && n > 3 {
                    SelectState::EventAreas(3)
                } else if idx == 2 {
                    SelectState::EventAreas(1)
                } else {
                    cur
                }
            },
            KeyCode::Down => {
                if idx == 0 && n > 2 {
                    SelectState::EventAreas(2)
                } else if idx == 1 && n > 3 {
                    SelectState::EventAreas(3)
                } else {
                    cur
                }
            },
            KeyCode::Up => {
                if idx == 2 {
                    SelectState::EventAreas(0)
                } else if idx == 3 {
                    SelectState::EventAreas(1)
                } else {
                    cur
                }
            },
            _ => cur,
        },
    }
}

/// Position of the first free lane at or after `a`.
pub open spec fn find_free_from(free: Seq<bool>, a: int) -> Option<int>
    decreases free.len() - a,
{
    if a < 0 || a >= free.len() {
        None
    } else if free[a] {
        Some(a)
    } else {
        find_free_from(free, a + 1)
    }
}

/// How many lanes are free.
pub open spec fn count_free(free: Seq<bool>) -> int
    decreases free.len(),
{
    if free.len() == 0 {
        0int
    } else {
        count_free(free.drop_last()) + if free.last() {
            1int
        } else {
            0int
        }
    }
}

/// The pane positions, ascending, whose group is no longer selected.
pub open spec fn pane_removals(current: Seq<Seq<char>>, sel: Seq<Seq<char>>) -> Seq<usize>
    decreases current.len(),
{
    if current.len() == 0 {
        Seq::empty()
    } else {
        let rest = pane_removals(current.drop_last(), sel);
        if !sel.contains(current.last()) {
            rest.push((current.len() - 1) as usize)
        } else {
            rest
        }
    }
}

/// The selected groups that have no pane yet, in selection order.
pub open spec fn pane_creations(current: Seq<Seq<char>>, sel: Seq<Seq<char>>) -> Seq<Seq<char>>
    decreases sel.len(),
{
    if sel.len() == 0 {
        Seq::empty()
    } else {
        let rest = pane_creations(current, sel.drop_last());
        if !current.contains(sel.last()) {
            rest.push(sel.last())
        } else {
            rest
        }
    }
}

/// Intermediate state of the pane bookkeeping while panes are closed.
pub struct RemovalFold {
    pub groups: Seq<Seq<char>>,
    pub lanes: Seq<usize>,
    pub free: Seq<bool>,
    pub removed: Seq<(usize, usize)>,
}

/// Closing the pane at position `i`: the position leaves the pane list,
/// the lane that pane held is freed, and the position together with its
/// lane is recorded for the caller to reset. A position already beyond the
/// shrunken list does nothing.
pub open spec fn removal_step(st: RemovalFold, i: usize) -> RemovalFold {
    if i < st.groups.len() && i < st.lanes.len() {
        let lane = st.lanes[i as int];
        RemovalFold {
            groups: st.groups.remove(i as int),
            lanes: st.lanes.remove(i as int),
            free: st.free.update(lane as int, true),
            removed: st.removed.push((i, lane)),
        }
    } else {
        st
    }
}

pub open spec fn removals_applied(st: RemovalFold, idxs: Seq<usize>) -> RemovalFold
    decreases idxs.len(),
{
    if idxs.len() == 0 {
        st
    } else {
        removal_step(removals_applied(st, idxs.drop_last()), idxs.last())
    }
}

/// Intermediate state of the pane bookkeeping while panes are opened.
pub struct CreationFold {
    pub groups: Seq<Seq<char>>,
    pub lanes: Seq<usize>,
    pub free: Seq<bool>,
    pub created: Seq<(usize, Seq<char>)>,
}

/// Opening a pane for `g`: the lowest free lane is taken, and the pane is
/// appended holding it. With no lane free nothing happens — the caller
/// rules that out.
pub open spec fn creation_step(st: CreationFold, g: Seq<char>) -> CreationFold {
    match find_free_from(st.free, 0) {
        Some(i) => CreationFold {
            groups: st.groups.push(g),
            lanes: st.lanes.push(i as usize),
            free: st.free.update(i, false),
            created: st.created.push((i as usize, g)),
        },
        None => st,
    }
}

pub open spec fn creations_applied(st: CreationFold, gs: Seq<Seq<char>>) -> CreationFold
    decreases gs.len(),
{
    if gs.len() == 0 {
        st
    } else {
        creation_step(creations_applied(st, gs.drop_last()), gs.last())
    }
}

/// The pane bookkeeping after one selection change, start to finish.
pub open spec fn synced(
    current: Seq<Seq<char>>,
    lanes: Seq<usize>,
    free: Seq<bool>,
    sel: Seq<Seq<char>>,
) -> (RemovalFold, CreationFold) {
    let mid = removals_applied(
        RemovalFold { groups: current, lanes, free, removed: Seq::empty() },
        pane_removals(current, sel),
    );
    let fin = creations_applied(
        CreationFold { groups: mid.groups, lanes: mid.lanes, free: mid.free, created: Seq::empty() },
        pane_creations(current, sel),
    );
    (mid, fin)
}

proof fn lemma_find_free_skip(free: Seq<bool>, a: int, b: int)
    requires
        0 <= a <= b <= free.len(),
        forall|j: int| a <= j < b ==> !free[j],
    ensures
        find_free_from(free, a) == find_free_from(free, b),
    decreases b - a,
{
    if a < b {
        lemma_find_free_skip(free, a + 1, b);
    }
}

proof fn lemma_find_free_props(free: Seq<bool>, a: int)
    requires
        0 <= a <= free.len(),
    ensures
        match find_free_from(free, a) {
            Some(k) => a <= k < free.len() && free[k],
            None => forall|j: int| a <= j < free.len() ==> !free[j],
        },
    decreases free.len() - a,
{
    if a < free.len() && !free[a] {
        lemma_find_free_props(free, a + 1);
    }
}

proof fn lemma_count_free_all_stale(free: Seq<bool>)
    requires
        forall|j: int| 0 <= j < free.len() ==> !free[j],
    ensures
        count_free(free) == 0,
    decreases free.len(),
{
    if free.len() > 0 {
        lemma_count_free_all_stale(free.drop_last());
    }
}

proof fn lemma_count_free_update_false(free: Seq<bool>, i: int)
    requires
        0 <= i < free.len(),
        free[i],
    ensures
        count_free(free.update(i, false)) == count_free(free) - 1,
    decreases free.len(),
{
    let upd = free.update(i, false);
    if i == free.len() - 1 {
        assert(upd.drop_last() =~= free.drop_last());
    } else {
        assert(upd.drop_last() =~= free.drop_last().update(i, false));
        lemma_count_free_update_false(free.drop_last(), i);
    }
}

proof fn lemma_removals_applied_snoc(st: RemovalFold, idxs: Seq<usize>, x: usize)
    ensures
        removals_applied(st, idxs.push(x)) == removal_step(removals_applied(st, idxs), x),
{
    assert(idxs.push(x).drop_last() =~= idxs);
    assert(idxs.push(x).last() == x);
}

proof fn lemma_creations_applied_snoc(st: CreationFold, gs: Seq<Seq<char>>, g: Seq<char>)
    ensures
        creations_applied(st, gs.push(g)) == creation_step(creations_applied(st, gs), g),
{
    assert(gs.push(g).drop_last() =~= gs);
    assert(gs.push(g).last() == g);
}

proof fn lemma_pane_removals_snoc(current: Seq<Seq<char>>, x: Seq<char>, sel: Seq<Seq<char>>)
    ensures
        pane_removals(current.push(x), sel) == if !sel.contains(x) {
            pane_removals(current, sel).push(current.len() as usize)
        } else {
            pane_removals(current, sel)
        },
{
    assert(current.push(x).drop_last() =~= current);
    assert(current.push(x).last() == x);
}

proof fn lemma_pane_creations_snoc(current: Seq<Seq<char>>, sel: Seq<Seq<char>>, x: Seq<char>)
    ensures
        pane_creations(current, sel.push(x)) == if !current.contains(x) {
            pane_creations(current, sel).push(x)
        } else {
            pane_creations(current, sel)
        },
{
    assert(sel.push(x).drop_last() =~= sel);
    assert(sel.push(x).last() == x);
}

/// What the orchestrator must do after a selection change: for each closed
/// pane, its position at the time of removal paired with the lane to
/// reset; for each opened pane, the lane bound to it and its group, to
/// start a fetch on.
pub struct PaneUpdate {
    pub removed: Vec<(usize, usize)>,
    pub created: Vec<(usize, String)>,
}

/// The orchestrator's own bookkeeping: the focus, the two view toggles, the
/// free-lane bitmap, and — in pane order — the groups shown by the open
/// panes and the lane each pane holds.
pub struct App {
    pub select_state: SelectState,
    pub show_help: bool,
    pub fold: bool,
    pub free_idx: [bool; 4],
    pub pane_groups: Vec<String>,
    pub pane_lanes: Vec<usize>,
}

impl App {
    pub fn new(show_help: bool, fold: bool) -> (s: Self)
        ensures
            s.select_state == SelectState::SideMenu,
            s.show_help == show_help,
            s.fold == fold,
            s.free_idx@ =~= seq![true, true, true, true],
            s.pane_groups@.len() == 0,
            s.pane_lanes@.len() == 0,
    {
        App {
            select_state: SelectState::SideMenu,
            show_help,
            fold,
            free_idx: [true, true, true, true],
            pane_groups: Vec::new(),
            pane_lanes: Vec::new(),
        }
    }

    pub fn toggle_side_fold(&mut self)
        ensures
            final(self).fold == !old(self).fold,
            final(self).select_state == old(self).select_state,
            final(self).show_help == old(self).show_help,
            final(self).free_idx == old(self).free_idx,
            final(self).pane_groups == old(self).pane_groups,
            final(self).pane_lanes == old(self).pane_lanes,
    {
        self.fold = !self.fold;
    }

    pub fn toggle_show_help(&mut self)
        ensures
            final(self).show_help == !old(self).show_help,
            final(self).select_state == old(self).select_state,
            final(self).fold == old(self).fold,
            final(self).free_idx == old(self).free_idx,
            final(self).pane_groups == old(self).pane_groups,
            final(self).pane_lanes == old(self).pane_lanes,
    {
        self.show_help = !self.show_help;
    }

    /// Moves the focus by one arrow key over the sidebar and the open
    /// panes.
    pub fn rotate_select_state(&mut self, key: KeyCode)
        ensures
            final(self).select_state == rotated(
                old(self).select_state,
                key,
                old(self).pane_groups@.len() as int,
            ),
            final(self).show_help == old(self).show_help,
            final(self).fold == old(self).fold,
            final(self).free_idx == old(self).free_idx,
            final(self).pane_groups == old(self).pane_groups,
            final(self).pane_lanes == old(self).pane_lanes,
    {
        let event_areas_len = self.pane_groups.len();
        match self.select_state {
            SelectState::SideMenu => {
                if let KeyCode::Right = key {
                    if event_areas_len > 0 {
                        self.select_state = SelectState::EventAreas(0);
                    }
                }
            },
            SelectState::EventAreas(idx) => match key {
                KeyCode::Left => {
                    if idx == 0 {
                        self.select_state = SelectState::SideMenu;
                    } else if idx == 1 {
                        self.select_state = SelectState::EventAreas(0);
                    } else if idx == 2 {
                        self.select_state = SelectState::SideMenu;
                    } else if idx == 3 {
                        self.select_state = SelectState::EventAreas(2);
                    }
                },
                KeyCode::Right => {
                    if idx == 0 {
                        if event_areas_len > 1 {
                            self.select_state = SelectState::EventAreas(1);
                        }
                    } else if idx == 2 {
                        if event_areas_len > 3 {
                            self.select_state = SelectState::EventAreas(3);
                        } else {
                            self.select_state = SelectState::EventAreas(1);
                        }
                    }
                },
                KeyCode::Down => {
                    if idx == 0 {
                        if event_areas_len > 2 {
                            self.select_state = SelectState::EventAreas(2);
                        }
                    } else if idx == 1 {
                        if event_areas_len > 3 {
                            self.select_state = SelectState::EventAreas(3);
                        }
                    }
                },
                KeyCode::Up => {
                    if idx == 2 {
                        self.select_state = SelectState::EventAreas(0);
                    } else if idx == 3 {
                        self.select_state = SelectState::EventAreas(1);
                    }
                },
                _ => {},
            },
        }
    }

    /// The lowest free lane, or an error when every lane is taken.
    pub fn get_next_idx(&self) -> (r: Result<usize, String>)
        ensures
            match r {
                Ok(i) => find_free_from(self.free_idx@, 0) == Some(i as int),
                Err(_) => find_free_from(self.free_idx@, 0) is None,
            },
    {
        let mut i: usize = 0;
        while i < 4
            invariant
                i <= 4,
                self.free_idx@.len() == 4,
                forall|j: int| 0 <= j < i ==> !self.free_idx@[j],
            decreases 4 - i,
        {
            if self.free_idx[i] {
                proof {
                    lemma_find_free_skip(self.free_idx@, 0, i as int);
                }
                return Ok(i);
            }
            i = i + 1;
        }
        proof {
            lemma_find_free_skip(self.free_idx@, 0, 4);
        }
        Err("Free idx does not exist. Something wrong.".to_owned())
    }

    /// Brings the panes in line with a changed group selection: panes whose
    /// group was deselected are closed, their positions freed, and each
    /// newly selected group is bound to the lowest free lane. The caller
    /// must leave enough lanes free — the sidebar's four-group cap
    /// guarantees that.
    pub fn update_event_areas(&mut self, selected: &Vec<String>) -> (r: PaneUpdate)
        requires
            old(self).pane_groups@.len() <= 4,
            old(self).pane_lanes@.len() == old(self).pane_groups@.len(),
            forall|j: int|
                0 <= j < old(self).pane_lanes@.len() ==> #[trigger] old(self).pane_lanes@[j] < 4,
            old(self).free_idx@.len() == 4,
            ({
                let (mid, _) = synced(
                    old(self).pane_groups.deep_view(),
                    old(self).pane_lanes@,
                    old(self).free_idx@,
                    selected.deep_view(),
                );
                count_free(mid.free) >= pane_creations(
                    old(self).pane_groups.deep_view(),
                    selected.deep_view(),
                ).len()
            }),
        ensures
            ({
                let (mid, fin) = synced(
                    old(self).pane_groups.deep_view(),
                    old(self).pane_lanes@,
                    old(self).free_idx@,
                    selected.deep_view(),
                );
                &&& final(self).pane_groups.deep_view() == fin.groups
                &&& final(self).pane_lanes@ == fin.lanes
                &&& final(self).free_idx@ == fin.free
                &&& r.removed@ == mid.removed
                &&& r.created.deep_view() == fin.created
                &&& final(self).select_state == old(self).select_state
                &&& final(self).show_help == old(self).show_help
                &&& final(self).fold == old(self).fold
            }),
    {
        let ghost current0 = self.pane_groups.deep_view();
        let ghost lanes0 = self.pane_lanes@;
        let ghost free0 = self.free_idx@;
        let ghost sel_v = selected.deep_view();

        // which pane positions lost their group
        let mut idx_to_remove: Vec<usize> = Vec::new();
        let mut i: usize = 0;
        proof {
            assert(current0.take(0) =~= Seq::<Seq<char>>::empty());
        }
        while i < self.pane_groups.len()
            invariant
                i <= current0.len(),
                self.pane_groups.deep_view() == current0,
                idx_to_remove@ == pane_removals(current0.take(i as int), sel_v),
                selected.deep_view() == sel_v,
            decreases current0.len() - i,
        {
            proof {
                lemma_pane_removals_snoc(current0.take(i as int), current0[i as int], sel_v);
                assert(current0.take(i + 1) =~= current0.take(i as int).push(current0[i as int]));
            }
            let name = &self.pane_groups[i];
            if !crate::loggroups_state::string_vec_contains(selected, name.as_str()) {
                idx_to_remove.push(i);
            }
            i = i + 1;
        }
        proof {
            assert(current0.take(current0.len() as int) =~= current0);
        }

        // which groups need a new pane
        let mut to_create: Vec<String> = Vec::new();
        let mut i: usize = 0;
        proof {
            assert(sel_v.take(0) =~= Seq::<Seq<char>>::empty());
        }
        while i < selected.len()
            invariant
                i <= sel_v.len(),
                selected.deep_view() == sel_v,
                self.pane_groups.deep_view() == current0,
                to_create.deep_view() == pane_creations(current0, sel_v.take(i as int)),
            decreases sel_v.len() - i,
        {
            proof {
                lemma_pane_creations_snoc(current0, sel_v.take(i as int), sel_v[i as int]);
                assert(sel_v.take(i + 1) =~= sel_v.take(i as int).push(sel_v[i as int]));
            }
            let name = &selected[i];
            let mut found = false;
            let mut j: usize = 0;
            while j < self.pane_groups.len()
                invariant
                    j <= current0.len(),
                    self.pane_groups.deep_view() == current0,
                    found ==> current0.contains(name@),
                    !found ==> forall|t: int| 0 <= t < j ==> current0[t] != name@,
                decreases current0.len() - j + (if found {
                    0int
                } else {
                    1int
                }),
            {
                if !found {
                    let owned: String = name.as_str().to_owned();
                    if self.pane_groups[j] == owned {
                        proof {
                            assert(current0[j as int] == name@);
                        }
                        found = true;
                    } else {
                        j = j + 1;
                    }
                } else {
                    j = j + 1;
                }
            }
            if !found {
                to_create.push(name.clone());
                proof {
                    assert(to_create.deep_view() =~= pane_creations(current0, sel_v.take(i + 1)));
                }
            } else {
                proof {
                    assert(to_create.deep_view() =~= pane_creations(current0, sel_v.take(i + 1)));
                }
            }
            i = i + 1;
        }
        proof {
            assert(sel_v.take(sel_v.len() as int) =~= sel_v);
        }

        // close the panes of deselected groups, freeing each pane's lane
        let ghost st0 = RemovalFold {
            groups: current0,
            lanes: lanes0,
            free: free0,
            removed: Seq::empty(),
        };
        let ghost rm_v = idx_to_remove@;
        let mut removed: Vec<(usize, usize)> = Vec::new();
        let mut i: usize = 0;
        proof {
            assert(rm_v.take(0) =~= Seq::<usize>::empty());
            assert(removals_applied(st0, rm_v.take(0)) == st0);
            assert(removed.deep_view() =~= st0.removed);
        }
        while i < idx_to_remove.len()
            invariant
                i <= rm_v.len(),
                idx_to_remove@ == rm_v,
                ({
                    let st = removals_applied(st0, rm_v.take(i as int));
                    &&& self.pane_groups.deep_view() == st.groups
                    &&& self.pane_lanes@ == st.lanes
                    &&& self.free_idx@ == st.free
                    &&& removed.deep_view() == st.removed
                    &&& st.groups.len() <= 4
                    &&& st.lanes.len() == st.groups.len()
                    &&& forall|j: int| 0 <= j < st.lanes.len() ==> #[trigger] st.lanes[j] < 4
                    &&& st.free.len() == 4
                }),
                self.select_state == old(self).select_state,
                self.show_help == old(self).show_help,
                self.fold == old(self).fold,
            decreases rm_v.len() - i,
        {
            proof {
                lemma_removals_applied_snoc(st0, rm_v.take(i as int), rm_v[i as int]);
                assert(rm_v.take(i + 1) =~= rm_v.take(i as int).push(rm_v[i as int]));
            }
            let r = idx_to_remove[i];
            if self.pane_groups.len() > r {
                let lane = self.pane_lanes[r];
                self.pane_groups.remove(r);
                self.pane_lanes.remove(r);
                self.free_idx[lane] = true;
                removed.push((r, lane));
                proof {
                    let st = removals_applied(st0, rm_v.take(i + 1));
                    assert(self.pane_groups.deep_view() =~= st.groups);
                    assert(self.pane_lanes@ =~= st.lanes);
                    assert(self.free_idx@ =~= st.free);
                    assert(removed.deep_view() =~= st.removed);
                }
            }
            i = i + 1;
        }
        proof {
            assert(rm_v.take(rm_v.len() as int) =~= rm_v);
        }

        // open a pane on the lowest free lane for each new group
        let ghost mid = removals_applied(st0, rm_v);
        let ghost cst0 = CreationFold {
            groups: mid.groups,
            lanes: mid.lanes,
            free: mid.free,
            created: Seq::empty(),
        };
        let ghost cr_v = to_create.deep_view();
        let mut created: Vec<(usize, String)> = Vec::new();
        let mut i: usize = 0;
        proof {
            assert(cr_v.take(0) =~= Seq::<Seq<char>>::empty());
            assert(creations_applied(cst0, cr_v.take(0)) == cst0);
            assert(created.deep_view() =~= cst0.created);
        }
        while i < to_create.len()
            invariant
                i <= cr_v.len(),
                to_create.deep_view() == cr_v,
                ({
                    let st = creations_applied(cst0, cr_v.take(i as int));
                    &&& self.pane_groups.deep_view() == st.groups
                    &&& self.pane_lanes@ == st.lanes
                    &&& self.free_idx@ == st.free
                    &&& created.deep_view() == st.created
                    &&& st.free.len() == 4
                    &&& count_free(st.free) >= cr_v.len() - i
                }),
                self.select_state == old(self).select_state,
                self.show_help == old(self).show_help,
                self.fold == old(self).fold,
            decreases cr_v.len() - i,
        {
            proof {
                lemma_creations_applied_snoc(cst0, cr_v.take(i as int), cr_v[i as int]);
                assert(cr_v.take(i + 1) =~= cr_v.take(i as int).push(cr_v[i as int]));
                lemma_find_free_props(self.free_idx@, 0);
                if find_free_from(self.free_idx@, 0) is None {
                    lemma_count_free_all_stale(self.free_idx@);
                    assert(false);
                }
            }
            let idx = match self.get_next_idx() {
                Ok(idx) => idx,
                Err(_) => {
                    proof {
                        assert(false);
                    }
                    0
                },
            };
            proof {
                lemma_count_free_update_false(self.free_idx@, idx as int);
            }
            self.free_idx[idx] = false;
            let name = &to_create[i];
            self.pane_groups.push(name.clone());
            self.pane_lanes.push(idx);
            created.push((idx, name.clone()));
            proof {
                let st = creations_applied(cst0, cr_v.take(i + 1));
                assert(self.pane_groups.deep_view() =~= st.groups);
                assert(self.pane_lanes@ =~= st.lanes);
                assert(self.free_idx@ =~= st.free);
                assert(created.deep_view() =~= st.created);
            }
            i = i + 1;
        }
        proof {
            assert(cr_v.take(cr_v.len() as int) =~= cr_v);
        }

        PaneUpdate { removed, created }
    }

    /// Routes a key no component consumed: question mark toggles the help
    /// screen, tab folds the sidebar, the arrows move the focus, and enter
    /// on the sidebar brings the panes in line with the group selection,
    /// handing back what the orchestrator must reset and start.
    pub fn handle_unsolved_key(&mut self, code: KeyCode, selected: &Vec<String>) -> (r: Option<
        PaneUpdate,
    >)
        requires
            old(self).select_state == SelectState::SideMenu && code is Enter ==> ({
                &&& old(self).pane_groups@.len() <= 4
                &&& old(self).pane_lanes@.len() == old(self).pane_groups@.len()
                &&& forall|j: int|
                    0 <= j < old(self).pane_lanes@.len() ==> #[trigger] old(self).pane_lanes@[j]
                        < 4
                &&& old(self).free_idx@.len() == 4
                &&& ({
                    let (mid, _) = synced(
                        old(self).pane_groups.deep_view(),
                        old(self).pane_lanes@,
                        old(self).free_idx@,
                        selected.deep_view(),
                    );
                    count_free(mid.free) >= pane_creations(
                        old(self).pane_groups.deep_view(),
                        selected.deep_view(),
                    ).len()
                })
            }),
        ensures
            code == KeyCode::Char('?') ==> ({
                &&& final(self).show_help == !old(self).show_help
                &&& final(self).select_state == old(self).select_state
                &&& final(self).fold == old(self).fold
                &&& final(self).free_idx == old(self).free_idx
                &&& final(self).pane_groups == old(self).pane_groups
                &&& final(self).pane_lanes == old(self).pane_lanes
                &&& r is None
            }),
            code is Tab ==> ({
                &&& final(self).fold == !old(self).fold
                &&& final(self).select_state == old(self).select_state
                &&& final(self).show_help == old(self).show_help
                &&& final(self).free_idx == old(self).free_idx
                &&& final(self).pane_groups == old(self).pane_groups
                &&& final(self).pane_lanes == old(self).pane_lanes
                &&& r is None
            }),
            (code is Right || code is Up || code is Left || code is Down) ==> ({
                &&& final(self).select_state == rotated(
                    old(self).select_state,
                    code,
                    old(self).pane_groups@.len() as int,
                )
                &&& final(self).show_help == old(self).show_help
                &&& final(self).fold == old(self).fold
                &&& final(self).free_idx == old(self).free_idx
                &&& final(self).pane_groups == old(self).pane_groups
                &&& final(self).pane_lanes == old(self).pane_lanes
                &&& r is None
            }),
            code is Enter && old(self).select_state == SelectState::SideMenu ==> ({
                let (mid, fin) = synced(
                    old(self).pane_groups.deep_view(),
                    old(self).pane_lanes@,
                    old(self).free_idx@,
                    selected.deep_view(),
                );
                &&& final(self).pane_groups.deep_view() == fin.groups
                &&& final(self).pane_lanes@ == fin.lanes
                &&& final(self).free_idx@ == fin.free
                &&& r matches Some(u) && u.removed@ == mid.removed && u.created.deep_view()
                    == fin.created
                &&& final(self).select_state == old(self).select_state
                &&& final(self).show_help == old(self).show_help
                &&& final(self).fold == old(self).fold
            }),
            code is Enter && old(self).select_state != SelectState::SideMenu ==> *final(self)
                == *old(self) && r is None,
            (code matches KeyCode::Char(c) && c != '?') ==> *final(self) == *old(self) && r
                is None,
            (code is Backspace || code is Esc || code is Other) ==> *final(self) == *old(self)
                && r is None,
    {
        match code {
            KeyCode::Char(c) => {
                if c == '?' {
                    self.toggle_show_help();
                }
                None
            },
            KeyCode::Tab => {
                self.toggle_side_fold();
                None
            },
            KeyCode::Right => {
                self.rotate_select_state(code);
                None
            },
            KeyCode::Up => {
                self.rotate_select_state(code);
                None
            },
            KeyCode::Left => {
                self.rotate_select_state(code);
                None
            },
            KeyCode::Down => {
                self.rotate_select_state(code);
                None
            },
            KeyCode::Enter => {
                if let SelectState::SideMenu = self.select_state {
                    Some(self.update_event_areas(selected))
                } else {
                    None
                }
            },
            _ => None,
        }
    }
}

/// Taking a lane and then freeing it restores the bitmap: lane bookkeeping
/// conserves the pool.
pub proof fn lemma_lane_conservation(free: Seq<bool>, i: int)
    requires
        0 <= i < free.len(),
        free[i],
    ensures
        free.update(i, false).update(i, true) == free,
        count_free(free.update(i, false)) == count_free(free) - 1,
        count_free(free.update(i, false).update(i, true)) == count_free(free),
{
    assert(free.update(i, false).update(i, true) =~= free);
    lemma_count_free_update_false(free, i);
}

} // verus!
