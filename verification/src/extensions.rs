//! The extensions manager: its two tabs, which installed rows show in which group, where the
//! highlight may rest, the two-press removal, and the list of disabled extensions that toggling
//! one rewrites.

use vstd::prelude::*;

use crate::text::{trim_text, trimmed};

verus! {

/// What loading an installed extension came to.
#[derive(Clone, Copy, Debug, PartialEq, Eq, Structural)]
pub enum EntryStatus {
    Loaded,
    Disabled,
    /// Anything else: the extension has a problem.
    Problem,
}

/// The groups installed rows are listed under, in display order.
#[derive(Clone, Copy, Debug, PartialEq, Eq, Structural)]
pub enum Group {
    Active,
    Disabled,
    Problems,
}

/// The manager's tabs.
#[derive(Clone, Copy, Debug, PartialEq, Eq, Structural)]
pub enum ExtensionsTab {
    Installed,
    Discover,
}

pub open spec fn in_group(status: EntryStatus, g: Group) -> bool {
    match g {
        Group::Active => status == EntryStatus::Loaded,
        Group::Disabled => status == EntryStatus::Disabled,
        Group::Problems => status == EntryStatus::Problem,
    }
}

/// The rows of group `g` visible under the filter, in order, among the first `n`.
pub open spec fn group_rows(statuses: Seq<EntryStatus>, visible: Seq<bool>, g: Group, n: int) -> Seq<usize>
    decreases n,
{
    if n <= 0 {
        Seq::empty()
    } else if visible[n - 1] && in_group(statuses[n - 1], g) {
        group_rows(statuses, visible, g, n - 1).push((n - 1) as usize)
    } else {
        group_rows(statuses, visible, g, n - 1)
    }
}

fn rows_of_group(statuses: &Vec<EntryStatus>, visible: &Vec<bool>, g: Group) -> (r: Vec<usize>)
    requires
        visible@.len() == statuses@.len(),
    ensures
        r@ == group_rows(statuses@, visible@, g, statuses@.len() as int),
{
    let mut out: Vec<usize> = Vec::new();
    let mut i: usize = 0;
    while i < statuses.len()
        invariant
            i <= statuses.len(),
            visible@.len() == statuses@.len(),
            out@ == group_rows(statuses@, visible@, g, i as int),
        decreases statuses.len() - i,
    {
        let member = match g {
            Group::Active => statuses[i] == EntryStatus::Loaded,
            Group::Disabled => statuses[i] == EntryStatus::Disabled,
            Group::Problems => statuses[i] == EntryStatus::Problem,
        };
        if visible[i] && member {
            out.push(i);
        }
        i = i + 1;
    }
    out
}

/// Group `g` as listed: with its rows, or left out when it has none.
pub open spec fn listed(g: Group, rows: Seq<usize>) -> Seq<(Group, Seq<usize>)> {
    if rows.len() > 0 {
        seq![(g, rows)]
    } else {
        Seq::empty()
    }
}

/// The installed rows visible under the filter, by group in display order, empty groups left
/// out. `visible[i]` says whether row `i` matches the filter.
pub open spec fn groups_of(statuses: Seq<EntryStatus>, visible: Seq<bool>) -> Seq<(Group, Seq<usize>)> {
    let n = statuses.len() as int;
    listed(Group::Active, group_rows(statuses, visible, Group::Active, n)) + listed(
        Group::Disabled,
        group_rows(statuses, visible, Group::Disabled, n),
    ) + listed(Group::Problems, group_rows(statuses, visible, Group::Problems, n))
}

pub open spec fn group_views(v: Seq<(Group, Vec<usize>)>) -> Seq<(Group, Seq<usize>)> {
    v.map_values(|g: (Group, Vec<usize>)| (g.0, g.1@))
}

/// The installed rows visible under the filter, by group.
pub fn installed_groups(statuses: &Vec<EntryStatus>, visible: &Vec<bool>) -> (r: Vec<(Group, Vec<usize>)>)
    requires
        visible@.len() == statuses@.len(),
    ensures
        group_views(r@) == groups_of(statuses@, visible@),
{
    let mut out: Vec<(Group, Vec<usize>)> = Vec::new();
    let active = rows_of_group(statuses, visible, Group::Active);
    let disabled = rows_of_group(statuses, visible, Group::Disabled);
    let problems = rows_of_group(statuses, visible, Group::Problems);
    let ghost a = listed(Group::Active, active@);
    let ghost d = listed(Group::Disabled, disabled@);
    let ghost p = listed(Group::Problems, problems@);
    if active.len() > 0 {
        out.push((Group::Active, active));
    }
    assert(group_views(out@) =~= a);
    if disabled.len() > 0 {
        out.push((Group::Disabled, disabled));
    }
    assert(group_views(out@) =~= a + d);
    if problems.len() > 0 {
        out.push((Group::Problems, problems));
    }
    assert(group_views(out@) =~= a + d + p);
    out
}

/// The manager's highlight: the tab showing, the installed row and catalog row highlighted, and
/// the installation armed for removal.
#[derive(Debug)]
pub struct ManagerSelection {
    pub tab: ExtensionsTab,
    pub selected: usize,
    pub catalog_selected: Option<usize>,
    pub pending_remove: Option<String>,
}

/// Show tab `tab`: switching disarms a removal. Returns whether it switched.
pub fn tab_selected(m: &mut ManagerSelection, tab: ExtensionsTab) -> (r: bool)
    ensures
        r == (old(m).tab != tab),
        final(m).tab == tab,
        r ==> final(m).pending_remove is None,
        !r ==> *final(m) == *old(m),
        final(m).selected == old(m).selected,
        final(m).catalog_selected == old(m).catalog_selected,
{
    if m.tab == tab {
        return false;
    }
    m.tab = tab;
    m.pending_remove = None;
    true
}

/// A row the user chose, on the tab showing it.
#[derive(Clone, Copy, Debug, PartialEq, Eq, Structural)]
pub enum ManagerRow {
    Installed(usize),
    Catalog(usize),
}

/// `index`, or the last of `len` rows when it runs past them.
pub open spec fn clamped(index: usize, len: usize) -> usize {
    if len == 0 {
        0
    } else if index < len {
        index
    } else {
        (len - 1) as usize
    }
}

fn clamp_index(index: usize, len: usize) -> (r: usize)
    ensures
        r == clamped(index, len),
{
    if len == 0 {
        0
    } else if index < len {
        index
    } else {
        len - 1
    }
}

/// Choose a row: its tab shows, it is highlighted (within the rows there are), and a change of
/// row disarms a removal.
pub fn select_row(m: &mut ManagerSelection, row: ManagerRow, entries: usize, catalog: usize)
    ensures
        match row {
            ManagerRow::Installed(i) => {
                &&& final(m).tab == ExtensionsTab::Installed
                &&& final(m).selected == clamped(i, entries)
                &&& final(m).catalog_selected == old(m).catalog_selected
                &&& final(m).pending_remove == if old(m).tab != ExtensionsTab::Installed || old(m).selected != i {
                    None
                } else {
                    old(m).pending_remove
                }
            },
            ManagerRow::Catalog(i) => {
                let c = clamped(i, catalog);
                &&& final(m).tab == ExtensionsTab::Discover
                &&& final(m).catalog_selected == Some(c)
                &&& final(m).selected == old(m).selected
                &&& final(m).pending_remove == if old(m).tab != ExtensionsTab::Discover || old(m).catalog_selected
                    != Some(c) {
                    None
                } else {
                    old(m).pending_remove
                }
            },
        },
{
    let changed = match row {
        ManagerRow::Installed(index) => {
            let changed = m.tab != ExtensionsTab::Installed || m.selected != index;
            m.tab = ExtensionsTab::Installed;
            m.selected = clamp_index(index, entries);
            changed
        },
        ManagerRow::Catalog(index) => {
            let index = clamp_index(index, catalog);
            let changed = m.tab != ExtensionsTab::Discover || m.catalog_selected != Some(index);
            m.tab = ExtensionsTab::Discover;
            m.catalog_selected = Some(index);
            changed
        },
    };
    if changed {
        m.pending_remove = None;
    }
}

fn contains_index(v: &Vec<usize>, x: usize) -> (r: bool)
    ensures
        r == v@.contains(x),
{
    let mut i: usize = 0;
    while i < v.len()
        invariant
            i <= v.len(),
            forall|k: int| 0 <= k < i ==> v@[k] != x,
        decreases v.len() - i,
    {
        if v[i] == x {
            return true;
        }
        i = i + 1;
    }
    false
}

/// Keep each tab's highlight on a visible row, falling back to its first one. `installed` is the
/// visible installed rows in display order, `catalog` the visible catalog rows.
pub fn normalize_selection(m: &mut ManagerSelection, installed: &Vec<usize>, catalog: &Vec<usize>)
    ensures
        final(m).selected == if !installed@.contains(old(m).selected) && installed@.len() > 0 {
            installed@[0]
        } else {
            old(m).selected
        },
        final(m).catalog_selected == match old(m).catalog_selected {
            Some(c) => if catalog@.contains(c) {
                Some(c)
            } else if catalog@.len() > 0 {
                Some(catalog@[0])
            } else {
                None
            },
            None => if catalog@.len() > 0 {
                Some(catalog@[0])
            } else {
                None
            },
        },
        final(m).tab == old(m).tab,
        final(m).pending_remove == old(m).pending_remove,
{
    if !contains_index(installed, m.selected) && installed.len() > 0 {
        m.selected = installed[0];
    }
    let keep = match m.catalog_selected {
        Some(c) => contains_index(catalog, c),
        None => false,
    };
    if !keep {
        m.catalog_selected = if catalog.len() > 0 {
            Some(catalog[0])
        } else {
            None
        };
    }
}

/// The installed row the manager acts on: the highlighted one, when the Installed tab shows and
/// the row is visible. `installed` is the visible installed rows.
pub fn selected_installed(m: &ManagerSelection, installed: &Vec<usize>) -> (r: Option<usize>)
    ensures
        r == if m.tab == ExtensionsTab::Installed && installed@.contains(m.selected) {
            Some(m.selected)
        } else {
            None
        },
{
    if m.tab == ExtensionsTab::Installed && contains_index(installed, m.selected) {
        Some(m.selected)
    } else {
        None
    }
}

/// The index entry the manager acts on: the highlighted one, when the Discover tab shows and the
/// row is visible. `catalog` is the visible catalog rows.
pub fn selected_catalog(m: &ManagerSelection, catalog: &Vec<usize>) -> (r: Option<usize>)
    ensures
        r == match m.catalog_selected {
            Some(c) => if m.tab == ExtensionsTab::Discover && catalog@.contains(c) {
                Some(c)
            } else {
                None
            },
            None => None,
        },
{
    match m.catalog_selected {
        Some(c) => if m.tab == ExtensionsTab::Discover && contains_index(catalog, c) {
            Some(c)
        } else {
            None
        },
        None => None,
    }
}

/// Whether an installed row's declared id is `id`.
pub open spec fn declares(declared: Option<String>, id: Seq<char>) -> bool {
    declared matches Some(x) && x@ == id
}

/// The first installed row declaring extension id `id`.
pub open spec fn first_with_id(ids: Seq<Option<String>>, id: Seq<char>) -> Option<usize> {
    if exists|i: int| 0 <= i < ids.len() && declares(#[trigger] ids[i], id) {
        Some(
            (choose|i: int|
                0 <= i < ids.len() && declares(#[trigger] ids[i], id) && forall|j: int|
                    0 <= j < i ==> !declares(#[trigger] ids[j], id)) as usize,
        )
    } else {
        None
    }
}

/// Highlight the first installed row declaring extension id `id`, if there is one. `ids` holds
/// each installed row's declared id.
pub fn select_by_id(m: &mut ManagerSelection, ids: &Vec<Option<String>>, id: &String)
    ensures
        final(m).selected == match first_with_id(ids@, id@) {
            Some(i) => i,
            None => old(m).selected,
        },
        final(m).tab == old(m).tab,
        final(m).catalog_selected == old(m).catalog_selected,
        final(m).pending_remove == old(m).pending_remove,
{
    let mut i: usize = 0;
    while i < ids.len()
        invariant
            i <= ids.len(),
            *m == *old(m),
            forall|j: int| 0 <= j < i ==> !declares(#[trigger] ids@[j], id@),
        decreases ids.len() - i,
    {
        let hit = match &ids[i] {
            Some(x) => *x == *id,
            None => false,
        };
        if hit {
            proof {
                let k = choose|k: int|
                    0 <= k < ids@.len() && declares(#[trigger] ids@[k], id@) && forall|j: int|
                        0 <= j < k ==> !declares(#[trigger] ids@[j], id@);
                assert(k == i) by {
                    if k < i {
                        assert(!declares(ids@[k], id@));
                    }
                    if k > i {
                        assert(!declares(ids@[i as int], id@));
                    }
                }
            }
            m.selected = i;
            return;
        }
        i = i + 1;
    }
}

/// Land on a newly installed extension `id`: the Installed tab shows, its row is highlighted, and
/// the highlights are then kept on visible rows. The caller clears the filter first, so
/// `installed` and `catalog` are the rows visible without one.
pub fn show_installed(
    m: &mut ManagerSelection,
    ids: &Vec<Option<String>>,
    id: &String,
    installed: &Vec<usize>,
    catalog: &Vec<usize>,
)
    ensures
        final(m).tab == ExtensionsTab::Installed,
        ({
            let chosen = match first_with_id(ids@, id@) {
                Some(i) => i,
                None => old(m).selected,
            };
            final(m).selected == if !installed@.contains(chosen) && installed@.len() > 0 {
                installed@[0]
            } else {
                chosen
            }
        }),
        final(m).pending_remove == old(m).pending_remove,
{
    m.tab = ExtensionsTab::Installed;
    select_by_id(m, ids, id);
    normalize_selection(m, installed, catalog);
}

/// Removing an installation takes a second press aimed at the same one: returns whether to
/// remove it now, else arms it. `row` names the highlighted installation.
pub fn remove_or_arm(m: &mut ManagerSelection, row: String) -> (r: bool)
    ensures
        r == (old(m).pending_remove matches Some(p) && p@ == row@),
        r ==> final(m).pending_remove is None,
        !r ==> final(m).pending_remove == Some(row),
        final(m).tab == old(m).tab,
        final(m).selected == old(m).selected,
        final(m).catalog_selected == old(m).catalog_selected,
{
    let armed = match &m.pending_remove {
        Some(p) => *p == row,
        None => false,
    };
    if armed {
        m.pending_remove = None;
    } else {
        m.pending_remove = Some(row);
    }
    armed
}

// ---------------------------------------------------------------------------------------------
// The disabled list

/// `a` sorts before `b`: string order, which is the order of their characters' code points.
pub open spec fn text_less(a: Seq<char>, b: Seq<char>) -> bool
    decreases a.len(),
{
    if a.len() == 0 {
        b.len() > 0
    } else if b.len() == 0 {
        false
    } else if a[0] != b[0] {
        a[0] < b[0]
    } else {
        text_less(a.drop_first(), b.drop_first())
    }
}

/// Strictly increasing: sorted, with no entry twice.
pub open spec fn strictly_sorted(s: Seq<Seq<char>>) -> bool {
    forall|i: int, j: int| 0 <= i < j < s.len() ==> text_less(#[trigger] s[i], #[trigger] s[j])
}

pub open spec fn texts(v: Seq<String>) -> Seq<Seq<char>> {
    v.map_values(|s: String| s@)
}

/// The disabled list after toggling extension `id`: disabling adds `id` unless an entry already
/// names it (ignoring white space around entries); enabling drops every entry that names it. The
/// list is kept sorted and free of repeats.
pub open spec fn toggled(list: Seq<Seq<char>>, id: Seq<char>, disable: bool) -> Set<Seq<char>> {
    if disable {
        if exists|i: int| 0 <= i < list.len() && trimmed(#[trigger] list[i]) == id {
            list.to_set()
        } else {
            list.to_set().insert(id)
        }
    } else {
        list.to_set().filter(|e: Seq<char>| trimmed(e) != id)
    }
}

/// Disabling an extension and enabling it again is the same as only enabling it: afterwards no
/// entry names it, and every other entry is as it was. Disabling leaves an entry that names it.
/// (Ids carry no white space around them, which is what `trimmed(id) == id` says.)
pub proof fn lemma_enable_undoes_disable(list: Seq<Seq<char>>, disabled: Seq<Seq<char>>, id: Seq<char>)
    requires
        trimmed(id) == id,
        disabled.to_set() == toggled(list, id, true),
    ensures
        exists|e: Seq<char>| disabled.to_set().contains(e) && trimmed(e) == id,
        toggled(disabled, id, false) == toggled(list, id, false),
{
    if exists|i: int| 0 <= i < list.len() && trimmed(#[trigger] list[i]) == id {
        let i = choose|i: int| 0 <= i < list.len() && trimmed(#[trigger] list[i]) == id;
        assert(list.to_set().contains(list[i]));
    } else {
        assert(disabled.to_set().contains(id));
    }
    assert(toggled(disabled, id, false) =~= toggled(list, id, false));
}

proof fn lemma_push_to_set(s: Seq<Seq<char>>, x: Seq<char>)
    ensures
        s.push(x).to_set() == s.to_set().insert(x),
{
    assert forall|y: Seq<char>| s.push(x).to_set().contains(y) <==> s.to_set().insert(x).contains(y) by {
        if s.push(x).contains(y) {
            let k = choose|k: int| 0 <= k < s.push(x).len() && s.push(x)[k] == y;
            if k < s.len() {
                assert(s[k] == y);
            }
        }
        if s.contains(y) {
            let k = choose|k: int| 0 <= k < s.len() && s[k] == y;
            assert(s.push(x)[k] == y);
        }
        if y == x {
            assert(s.push(x)[s.len() as int] == y);
        }
    }
    assert(s.push(x).to_set() =~= s.to_set().insert(x));
}

proof fn lemma_text_less_irreflexive(a: Seq<char>)
    ensures
        !text_less(a, a),
    decreases a.len(),
{
    if a.len() > 0 {
        lemma_text_less_irreflexive(a.drop_first());
    }
}

proof fn lemma_text_less_transitive(a: Seq<char>, b: Seq<char>, c: Seq<char>)
    requires
        text_less(a, b),
        text_less(b, c),
    ensures
        text_less(a, c),
    decreases a.len(),
{
    if a.len() > 0 && b.len() > 0 && c.len() > 0 && a[0] == b[0] && b[0] == c[0] {
        lemma_text_less_transitive(a.drop_first(), b.drop_first(), c.drop_first());
    }
}

proof fn lemma_text_less_total(a: Seq<char>, b: Seq<char>)
    ensures
        a == b || text_less(a, b) || text_less(b, a),
    decreases a.len(),
{
    if a.len() > 0 && b.len() > 0 && a[0] == b[0] {
        lemma_text_less_total(a.drop_first(), b.drop_first());
        if a.drop_first() == b.drop_first() {
            assert(a =~= seq![a[0]] + a.drop_first());
            assert(b =~= seq![b[0]] + b.drop_first());
        }
    } else if a.len() == 0 && b.len() == 0 {
        assert(a =~= b);
    }
}

/// Whether `a` sorts before `b`.
pub fn text_before(a: &str, b: &str) -> (r: bool)
    ensures
        r == text_less(a@, b@),
{
    let n = a.unicode_len();
    let m = b.unicode_len();
    let mut i: usize = 0;
    assert(a@.skip(0) =~= a@);
    assert(b@.skip(0) =~= b@);
    while i < n && i < m
        invariant
            n == a@.len(),
            m == b@.len(),
            i <= n,
            i <= m,
            text_less(a@, b@) == text_less(a@.skip(i as int), b@.skip(i as int)),
        decreases n - i,
    {
        let x = a.get_char(i);
        let y = b.get_char(i);
        proof {
            assert(a@.skip(i as int)[0] == x);
            assert(b@.skip(i as int)[0] == y);
            assert(a@.skip(i as int).drop_first() =~= a@.skip(i as int + 1));
            assert(b@.skip(i as int).drop_first() =~= b@.skip(i as int + 1));
        }
        if x != y {
            return x < y;
        }
        i = i + 1;
    }
    i < m
}

/// Insert `t` into a strictly sorted list, unless it is there already.
fn insert_sorted(list: &mut Vec<String>, t: String)
    requires
        strictly_sorted(texts(old(list)@)),
    ensures
        strictly_sorted(texts(final(list)@)),
        texts(final(list)@).to_set() == texts(old(list)@).to_set().insert(t@),
{
    let ghost before = texts(list@);
    let mut i: usize = 0;
    while i < list.len() && text_before(list[i].as_str(), t.as_str())
        invariant
            i <= list.len(),
            texts(list@) == before,
            strictly_sorted(before),
            forall|k: int| 0 <= k < i ==> text_less(#[trigger] before[k], t@),
        decreases list.len() - i,
    {
        i = i + 1;
    }
    if i < list.len() && list[i] == t {
        proof {
            assert(before.to_set().insert(t@) =~= before.to_set()) by {
                assert(before[i as int] == t@);
            }
        }
        return;
    }
    proof {
        if i < list.len() {
            lemma_text_less_total(before[i as int], t@);
            assert(text_less(t@, before[i as int]));
        }
    }
    list.insert(i, t);
    proof {
        let after = texts(list@);
        assert(after =~= before.insert(i as int, t@));
        assert forall|a: int, b: int| 0 <= a < b < after.len() implies text_less(#[trigger] after[a], #[trigger] after[b]) by {
            if b < i {
            } else if a < i && b == i {
            } else if a < i && b > i {
                if b - 1 > i {
                    lemma_text_less_transitive(t@, before[i as int], before[b - 1]);
                }
                lemma_text_less_transitive(before[a], t@, before[b - 1]);
            } else if a == i {
                if b - 1 > i {
                    lemma_text_less_transitive(t@, before[i as int], before[b - 1]);
                }
            } else {
            }
        }
        assert(after.to_set() =~= before.to_set().insert(t@)) by {
            assert forall|x: Seq<char>| after.to_set().contains(x) <==> before.to_set().insert(t@).contains(x) by {
                if after.to_set().contains(x) {
                    let k = choose|k: int| 0 <= k < after.len() && after[k] == x;
                    if k != i {
                        let kk = if k < i { k } else { k - 1 };
                        assert(before[kk] == x);
                    }
                }
                if before.to_set().contains(x) {
                    let k = choose|k: int| 0 <= k < before.len() && before[k] == x;
                    let kk = if k < i { k } else { k + 1 };
                    assert(after[kk] == x);
                }
                if x == t@ {
                    assert(after[i as int] == x);
                }
            }
        }
    }
}

fn names_id(list: &Vec<String>, id: &String) -> (r: bool)
    ensures
        r == exists|i: int| 0 <= i < list@.len() && trimmed(#[trigger] texts(list@)[i]) == id@,
{
    let mut i: usize = 0;
    while i < list.len()
        invariant
            i <= list.len(),
            forall|k: int| 0 <= k < i ==> trimmed(#[trigger] texts(list@)[k]) != id@,
        decreases list.len() - i,
    {
        let t = trim_text(list[i].as_str());
        if t == *id {
            assert(trimmed(texts(list@)[i as int]) == id@);
            return true;
        }
        i = i + 1;
    }
    false
}

/// The disabled list after disabling (`disable`) or enabling extension `id`: sorted, without
/// repeats, holding what the toggle leaves.
pub fn toggle_disabled(list: &Vec<String>, id: &String, disable: bool) -> (r: Vec<String>)
    ensures
        strictly_sorted(texts(r@)),
        texts(r@).to_set() == toggled(texts(list@), id@, disable),
{
    let present = names_id(list, id);
    let mut out: Vec<String> = Vec::new();
    let mut i: usize = 0;
    proof {
        assert(texts(out@).to_set() =~= Set::<Seq<char>>::empty());
    }
    while i < list.len()
        invariant
            i <= list.len(),
            strictly_sorted(texts(out@)),
            disable ==> texts(out@).to_set() == texts(list@).take(i as int).to_set(),
            !disable ==> texts(out@).to_set() == texts(list@).take(i as int).to_set().filter(|e: Seq<char>| trimmed(e) != id@),
        decreases list.len() - i,
    {
        let keep = disable || trim_text(list[i].as_str()) != *id;
        let ghost before = texts(out@);
        let ghost item = texts(list@)[i as int];
        proof {
            assert(texts(list@).take(i as int + 1) =~= texts(list@).take(i as int).push(item));
            lemma_push_to_set(texts(list@).take(i as int), item);
        }
        if keep {
            insert_sorted(&mut out, list[i].clone());
        }
        proof {
            if !disable {
                assert(texts(list@).take(i as int + 1).to_set().filter(|e: Seq<char>| trimmed(e) != id@) =~= if keep {
                    texts(list@).take(i as int).to_set().filter(|e: Seq<char>| trimmed(e) != id@).insert(item)
                } else {
                    texts(list@).take(i as int).to_set().filter(|e: Seq<char>| trimmed(e) != id@)
                });
            }
        }
        i = i + 1;
    }
    proof {
        assert(texts(list@).take(list@.len() as int) =~= texts(list@));
    }
    if disable && !present {
        insert_sorted(&mut out, id.clone());
    }
    out
}

// ---------------------------------------------------------------------------------------------
// Descriptions and reports

/// The decimal digits of `n`.
pub open spec fn decimal(n: nat) -> Seq<char>
    decreases n,
{
    if n < 10 {
        seq![digit_char(n)]
    } else {
        decimal(n / 10).push(digit_char(n % 10))
    }
}

pub open spec fn digit_char(d: nat) -> char {
    if d == 0 {
        '0'
    } else if d == 1 {
        '1'
    } else if d == 2 {
        '2'
    } else if d == 3 {
        '3'
    } else if d == 4 {
        '4'
    } else if d == 5 {
        '5'
    } else if d == 6 {
        '6'
    } else if d == 7 {
        '7'
    } else if d == 8 {
        '8'
    } else {
        '9'
    }
}

fn digit_text(d: usize) -> (r: &'static str)
    requires
        d < 10,
    ensures
        r@ == seq![digit_char(d as nat)],
{
    proof {
        reveal_strlit("0");
        reveal_strlit("1");
        reveal_strlit("2");
        reveal_strlit("3");
        reveal_strlit("4");
        reveal_strlit("5");
        reveal_strlit("6");
        reveal_strlit("7");
        reveal_strlit("8");
        reveal_strlit("9");
    }
    match d {
        0 => "0",
        1 => "1",
        2 => "2",
        3 => "3",
        4 => "4",
        5 => "5",
        6 => "6",
        7 => "7",
        8 => "8",
        _ => "9",
    }
}

/// `n` written in decimal.
pub fn decimal_text(n: usize) -> (r: String)
    ensures
        r@ == decimal(n as nat),
    decreases n,
{
    if n < 10 {
        String::from_str(digit_text(n))
    } else {
        let mut head = decimal_text(n / 10);
        head.append(digit_text(n % 10));
        head
    }
}

/// `n` written in decimal.
pub fn decimal_u64(n: u64) -> (r: String)
    ensures
        r@ == decimal(n as nat),
    decreases n,
{
    if n < 10 {
        String::from_str(digit_text(n as usize))
    } else {
        let mut head = decimal_u64(n / 10);
        head.append(digit_text((n % 10) as usize));
        head
    }
}

/// `parts` joined with `sep` between them.
pub open spec fn joined(parts: Seq<Seq<char>>, sep: Seq<char>) -> Seq<char>
    decreases parts.len(),
{
    if parts.len() == 0 {
        Seq::empty()
    } else if parts.len() == 1 {
        parts[0]
    } else {
        joined(parts.drop_last(), sep) + sep + parts.last()
    }
}

/// `parts` joined with `sep` between them.
pub fn join_texts(parts: &Vec<String>, sep: &str) -> (r: String)
    ensures
        r@ == joined(texts(parts@), sep@),
{
    let mut out = String::new();
    let mut i: usize = 0;
    while i < parts.len()
        invariant
            i <= parts.len(),
            out@ == joined(texts(parts@).take(i as int), sep@),
        decreases parts.len() - i,
    {
        proof {
            assert(texts(parts@).take(i as int + 1).drop_last() =~= texts(parts@).take(i as int));
        }
        if i > 0 {
            out.append(sep);
        } else {
            assert(texts(parts@).take(1)[0] == parts@[0]@);
        }
        out.append(parts[i].as_str());
        proof {
            if i == 0 {
                assert(out@ =~= joined(texts(parts@).take(1), sep@));
            }
        }
        i = i + 1;
    }
    proof {
        assert(texts(parts@).take(parts@.len() as int) =~= texts(parts@));
    }
    out
}

/// How a report row's value is drawn.
#[derive(Clone, Copy, Debug, PartialEq, Eq, Structural)]
pub enum ReportTone {
    Plain,
    Success,
    Warning,
    Error,
    Muted,
    Accent,
}

/// What a report row is: the catalog report's rows are all information.
#[derive(Clone, Copy, Debug, PartialEq, Eq, Structural)]
pub enum ReportKind {
    Info,
}

/// One labelled value of a report.
#[derive(Clone, Debug)]
pub struct ReportRow {
    pub label: String,
    pub value: String,
    pub tone: ReportTone,
    pub kind: ReportKind,
}

/// A titled group of report rows.
#[derive(Clone, Debug)]
pub struct ReportSection {
    pub title: String,
    pub rows: Vec<ReportRow>,
}

/// An extension the index lists.
#[derive(Clone, Debug)]
pub struct CatalogEntry {
    pub id: String,
    pub title: String,
    pub version: String,
    pub repository: String,
    pub commit: String,
    pub description: String,
    pub platforms: Vec<String>,
    pub commands: usize,
    pub services: usize,
    pub agents: usize,
    pub sidebar_tabs: usize,
    pub navigation_targets: usize,
    pub suggested_keybindings: usize,
}

pub struct RowView {
    pub label: Seq<char>,
    pub value: Seq<char>,
    pub tone: ReportTone,
    pub kind: ReportKind,
}

pub struct SectionView {
    pub title: Seq<char>,
    pub rows: Seq<RowView>,
}

pub open spec fn row_view(r: ReportRow) -> RowView {
    RowView { label: r.label@, value: r.value@, tone: r.tone, kind: r.kind }
}

pub open spec fn rows_view(v: Seq<ReportRow>) -> Seq<RowView> {
    v.map_values(|r: ReportRow| row_view(r))
}

pub open spec fn section_view(s: ReportSection) -> SectionView {
    SectionView { title: s.title@, rows: rows_view(s.rows@) }
}

pub open spec fn sections_view(v: Seq<ReportSection>) -> Seq<SectionView> {
    v.map_values(|s: ReportSection| section_view(s))
}

pub open spec fn rv(label: Seq<char>, value: Seq<char>, tone: ReportTone) -> RowView {
    RowView { label, value, tone, kind: ReportKind::Info }
}

/// The platforms an index entry runs on: all of them when it names none.
pub open spec fn platforms_text(platforms: Seq<String>) -> Seq<char> {
    if platforms.len() == 0 {
        "all"@
    } else {
        joined(texts(platforms), ", "@)
    }
}

/// The overview rows of an index entry's report. `incompatibility` is why it cannot run here,
/// if it cannot.
pub open spec fn catalog_overview(
    e: CatalogEntry,
    installed: bool,
    incompatibility: Option<Seq<char>>,
) -> Seq<RowView> {
    (if installed {
        seq![rv("Installed"@, "yes"@, ReportTone::Success)]
    } else {
        Seq::empty()
    }) + seq![
        rv("Version"@, e.version@, ReportTone::Plain),
        match incompatibility {
            Some(reason) => rv("Compatibility"@, reason, ReportTone::Warning),
            None => rv("Compatibility"@, "compatible"@, ReportTone::Success),
        },
        rv("Platforms"@, platforms_text(e.platforms@), ReportTone::Plain),
        rv("Description"@, e.description@, ReportTone::Muted),
    ]
}

/// Where an index entry's source is.
pub open spec fn catalog_source(e: CatalogEntry) -> Seq<RowView> {
    seq![
        rv("Repository"@, e.repository@, ReportTone::Accent),
        rv("Commit"@, e.commit@, ReportTone::Plain),
    ]
}

/// What an index entry contributes, counted.
pub open spec fn catalog_contributions(e: CatalogEntry) -> Seq<RowView> {
    seq![
        rv("Commands"@, decimal(e.commands as nat), ReportTone::Plain),
        rv("Services"@, decimal(e.services as nat), ReportTone::Plain),
        rv("Agents"@, decimal(e.agents as nat), ReportTone::Plain),
        rv("Sidebar tabs"@, decimal(e.sidebar_tabs as nat), ReportTone::Plain),
        rv("Navigation targets"@, decimal(e.navigation_targets as nat), ReportTone::Plain),
        rv("Suggested keys"@, decimal(e.suggested_keybindings as nat), ReportTone::Plain),
    ]
}

/// What trusting an index entry means.
pub open spec fn catalog_trust() -> Seq<RowView> {
    seq![
        rv("Review"@, "Not audited; inspect source before installing"@, ReportTone::Warning),
        rv("Setup"@, "External tools may require separate setup"@, ReportTone::Muted),
    ]
}

/// The detail report of an index entry: an overview, where its source is, what it contributes,
/// what trusting it means, and the error of a failed installation. `incompatibility` is why it
/// cannot run here, if it cannot.
pub open spec fn catalog_report(
    e: CatalogEntry,
    installed: bool,
    incompatibility: Option<Seq<char>>,
    error: Option<Seq<char>>,
) -> Seq<SectionView> {
    let sections = seq![
        SectionView { title: "Overview"@, rows: catalog_overview(e, installed, incompatibility) },
        SectionView { title: "Source"@, rows: catalog_source(e) },
        SectionView { title: "Contributions"@, rows: catalog_contributions(e) },
        SectionView { title: "Trust"@, rows: catalog_trust() },
    ];
    match error {
        Some(message) => sections.push(
            SectionView { title: "Installation failed"@, rows: seq![rv("Error"@, message, ReportTone::Error)] },
        ),
        None => sections,
    }
}

/// The text an optional `String` holds, if any.
pub open spec fn optional_text(o: Option<String>) -> Option<Seq<char>> {
    match o {
        Some(t) => Some(t@),
        None => None,
    }
}

/// The text an optional `&str` holds, if any.
pub open spec fn optional_str(o: Option<&str>) -> Option<Seq<char>> {
    match o {
        Some(t) => Some(t@),
        None => None,
    }
}

fn report_row(label: &str, value: String, tone: ReportTone) -> (r: ReportRow)
    ensures
        row_view(r) == rv(label@, value@, tone),
{
    ReportRow { label: String::from_str(label), value, tone, kind: ReportKind::Info }
}

fn section(title: &str, rows: Vec<ReportRow>) -> (r: ReportSection)
    ensures
        section_view(r) == (SectionView { title: title@, rows: rows_view(rows@) }),
{
    ReportSection { title: String::from_str(title), rows }
}

/// The detail report of an index entry.
pub fn catalog_report_sections(
    entry: &CatalogEntry,
    installed: bool,
    incompatibility: Option<String>,
    error: Option<&str>,
) -> (r: Vec<ReportSection>)
    ensures
        sections_view(r@) == catalog_report(
            *entry,
            installed,
            optional_text(incompatibility),
            optional_str(error),
        ),
{
    let ghost inc = optional_text(incompatibility);
    let platforms = if entry.platforms.len() == 0 {
        String::from_str("all")
    } else {
        join_texts(&entry.platforms, ", ")
    };
    let mut overview: Vec<ReportRow> = Vec::new();
    if installed {
        overview.push(report_row("Installed", String::from_str("yes"), ReportTone::Success));
    }
    overview.push(report_row("Version", entry.version.clone(), ReportTone::Plain));
    let compatibility = match incompatibility {
        Some(reason) => report_row("Compatibility", reason, ReportTone::Warning),
        None => report_row("Compatibility", String::from_str("compatible"), ReportTone::Success),
    };
    overview.push(compatibility);
    overview.push(report_row("Platforms", platforms, ReportTone::Plain));
    overview.push(report_row("Description", entry.description.clone(), ReportTone::Muted));
    assert(rows_view(overview@) =~= catalog_overview(*entry, installed, inc));

    let mut source: Vec<ReportRow> = Vec::new();
    source.push(report_row("Repository", entry.repository.clone(), ReportTone::Accent));
    source.push(report_row("Commit", entry.commit.clone(), ReportTone::Plain));
    assert(rows_view(source@) =~= catalog_source(*entry));

    let mut contributions: Vec<ReportRow> = Vec::new();
    contributions.push(report_row("Commands", decimal_text(entry.commands), ReportTone::Plain));
    contributions.push(report_row("Services", decimal_text(entry.services), ReportTone::Plain));
    contributions.push(report_row("Agents", decimal_text(entry.agents), ReportTone::Plain));
    contributions.push(report_row("Sidebar tabs", decimal_text(entry.sidebar_tabs), ReportTone::Plain));
    contributions.push(report_row("Navigation targets", decimal_text(entry.navigation_targets), ReportTone::Plain));
    contributions.push(report_row("Suggested keys", decimal_text(entry.suggested_keybindings), ReportTone::Plain));
    assert(rows_view(contributions@) =~= catalog_contributions(*entry));

    let mut trust: Vec<ReportRow> = Vec::new();
    trust.push(
        report_row("Review", String::from_str("Not audited; inspect source before installing"), ReportTone::Warning),
    );
    trust.push(report_row("Setup", String::from_str("External tools may require separate setup"), ReportTone::Muted));
    assert(rows_view(trust@) =~= catalog_trust());

    let mut sections: Vec<ReportSection> = Vec::new();
    sections.push(section("Overview", overview));
    sections.push(section("Source", source));
    sections.push(section("Contributions", contributions));
    sections.push(section("Trust", trust));
    let ghost before_error = sections@;
    match error {
        Some(message) => {
            let mut rows: Vec<ReportRow> = Vec::new();
            rows.push(report_row("Error", String::from_str(message), ReportTone::Error));
            assert(rows_view(rows@) =~= seq![rv("Error"@, message@, ReportTone::Error)]);
            sections.push(section("Installation failed", rows));
            assert(sections_view(sections@) =~= sections_view(before_error).push(
                SectionView { title: "Installation failed"@, rows: seq![rv("Error"@, message@, ReportTone::Error)] },
            ));
        },
        None => {},
    }
    proof {
        let want = catalog_report(*entry, installed, inc, optional_str(error));
        let head = seq![
            SectionView { title: "Overview"@, rows: catalog_overview(*entry, installed, inc) },
            SectionView { title: "Source"@, rows: catalog_source(*entry) },
            SectionView { title: "Contributions"@, rows: catalog_contributions(*entry) },
            SectionView { title: "Trust"@, rows: catalog_trust() },
        ];
        assert(sections_view(before_error) =~= head);
        assert(sections_view(sections@) =~= want);
    }
    sections
}

/// Where the index says an entry's source is: its repository at the indexed commit, not its
/// moving default branch, so the source a user inspects is the source they get.
pub open spec fn source_url(repository: Seq<char>, commit: Seq<char>) -> Seq<char> {
    "https://github.com/"@ + repository + "/tree/"@ + commit
}

/// The web address of an index entry's source at the indexed commit.
pub fn catalog_source_url(entry: &CatalogEntry) -> (r: String)
    ensures
        r@ == source_url(entry.repository@, entry.commit@),
{
    let mut url = String::from_str("https://github.com/");
    url.append(entry.repository.as_str());
    url.append("/tree/");
    url.append(entry.commit.as_str());
    url
}

/// How an installed extension came to be installed.
#[derive(Clone, Copy, Debug, PartialEq, Eq, Structural)]
pub enum InstallKind {
    Git,
    Local,
    Link,
}

/// The compact picker label of an installation kind; `None` is an extension put in place by hand.
pub open spec fn kind_label(kind: Option<InstallKind>) -> Seq<char> {
    match kind {
        Some(InstallKind::Git) => "git"@,
        Some(InstallKind::Local) => "copied"@,
        Some(InstallKind::Link) => "linked"@,
        None => "manual"@,
    }
}

/// The compact picker label of an installation kind.
pub fn installation_kind_label(kind: Option<&InstallKind>) -> (r: &'static str)
    ensures
        r@ == kind_label(
            match kind {
                Some(k) => Some(*k),
                None => None,
            },
        ),
{
    match kind {
        Some(InstallKind::Git) => "git",
        Some(InstallKind::Local) => "copied",
        Some(InstallKind::Link) => "linked",
        None => "manual",
    }
}

/// The text an optional value adds to a list of parts: itself, or nothing.
pub open spec fn maybe(o: Option<Seq<char>>) -> Seq<Seq<char>> {
    match o {
        Some(t) => seq![t],
        None => Seq::empty(),
    }
}

/// A part that is there only when `cond` holds.
pub open spec fn only_if(cond: bool, t: Seq<char>) -> Seq<Seq<char>> {
    if cond {
        seq![t]
    } else {
        Seq::empty()
    }
}

/// "s" unless there is exactly one.
pub open spec fn plural(n: nat) -> Seq<char> {
    if n == 1 {
        ""@
    } else {
        "s"@
    }
}

/// The right-aligned picker description of an index entry: whether it is installed, its version,
/// its repository, and why it cannot run here if it cannot, joined by " · ".
pub open spec fn catalog_summary(
    e: CatalogEntry,
    installed: bool,
    incompatibility: Option<Seq<char>>,
) -> Seq<char> {
    joined(
        only_if(installed, "installed"@) + seq![e.version@, e.repository@] + maybe(incompatibility),
        " · "@,
    )
}

fn push_optional(parts: &mut Vec<String>, o: Option<String>)
    ensures
        texts(final(parts)@) == texts(old(parts)@) + maybe(optional_text(o)),
{
    match o {
        Some(t) => {
            parts.push(t);
            assert(texts(parts@) =~= texts(old(parts)@) + maybe(optional_text(Some(t))));
        },
        None => {
            assert(texts(parts@) =~= texts(old(parts)@) + maybe(optional_text(None)));
        },
    }
}

fn push_text(parts: &mut Vec<String>, t: String)
    ensures
        texts(final(parts)@) == texts(old(parts)@).push(t@),
{
    parts.push(t);
    assert(texts(parts@) =~= texts(old(parts)@).push(t@));
}

/// The right-aligned picker description of an index entry. `incompatibility` is why it cannot run
/// here, if it cannot.
pub fn catalog_description(entry: &CatalogEntry, installed: bool, incompatibility: Option<String>) -> (r: String)
    ensures
        r@ == catalog_summary(*entry, installed, optional_text(incompatibility)),
{
    let mut parts: Vec<String> = Vec::new();
    if installed {
        push_text(&mut parts, String::from_str("installed"));
    }
    assert(texts(parts@) =~= only_if(installed, "installed"@));
    push_text(&mut parts, entry.version.clone());
    push_text(&mut parts, entry.repository.clone());
    push_optional(&mut parts, incompatibility);
    assert(texts(parts@) =~= only_if(installed, "installed"@) + seq![entry.version@, entry.repository@]
        + maybe(optional_text(incompatibility)));
    join_texts(&parts, " · ")
}

/// What the picker shows of an installed extension.
#[derive(Clone, Debug)]
pub struct ExtensionSummary {
    pub version: Option<String>,
    pub kind: Option<InstallKind>,
    /// What went wrong, for an extension that neither loaded nor is disabled.
    pub problem: Option<String>,
    /// An update of it is running.
    pub updating: bool,
    pub update_available: bool,
    /// How many of its suggested key bindings are in force.
    pub active_keys: usize,
    /// How many of its suggested key bindings clash with others.
    pub key_conflicts: usize,
}

/// The parts of an installed extension's picker description, in order.
pub open spec fn summary_parts(s: ExtensionSummary) -> Seq<Seq<char>> {
    maybe(optional_text(s.version)) + seq![kind_label(s.kind)] + maybe(optional_text(s.problem))
        + only_if(s.update_available, "update available"@)
        + only_if(s.active_keys > 0, decimal(s.active_keys as nat) + " key"@ + plural(s.active_keys as nat) + " active"@)
        + only_if(
        s.key_conflicts > 0,
        decimal(s.key_conflicts as nat) + " key conflict"@ + plural(s.key_conflicts as nat),
    )
}

/// The right-aligned picker description of an installed extension: just "updating…" while an
/// update runs, else its parts joined by " · ". The groups already name a status, so a disabled
/// extension's bare status is left out while a problem's detail stays.
pub open spec fn summary_text(s: ExtensionSummary) -> Seq<char> {
    if s.updating {
        "updating…"@
    } else {
        joined(summary_parts(s), " · "@)
    }
}

fn plural_text(n: usize) -> (r: &'static str)
    ensures
        r@ == plural(n as nat),
{
    proof {
        reveal_strlit("");
        reveal_strlit("s");
    }
    if n == 1 {
        ""
    } else {
        "s"
    }
}

fn push_if(parts: &mut Vec<String>, cond: bool, t: String)
    ensures
        texts(final(parts)@) == texts(old(parts)@) + only_if(cond, t@),
{
    if cond {
        parts.push(t);
    }
    assert(texts(parts@) =~= texts(old(parts)@) + only_if(cond, t@));
}

fn active_keys_phrase(n: usize) -> (r: String)
    ensures
        r@ == decimal(n as nat) + " key"@ + plural(n as nat) + " active"@,
{
    let mut t = decimal_text(n);
    t.append(" key");
    t.append(plural_text(n));
    t.append(" active");
    t
}

fn key_conflicts_phrase(n: usize) -> (r: String)
    ensures
        r@ == decimal(n as nat) + " key conflict"@ + plural(n as nat),
{
    let mut t = decimal_text(n);
    t.append(" key conflict");
    t.append(plural_text(n));
    t
}

/// The right-aligned picker description of an installed extension.
pub fn extension_description(summary: &ExtensionSummary) -> (r: String)
    ensures
        r@ == summary_text(*summary),
{
    if summary.updating {
        return String::from_str("updating…");
    }
    let mut parts: Vec<String> = Vec::new();
    push_optional(&mut parts, summary.version.clone());
    push_text(&mut parts, String::from_str(installation_kind_label(summary.kind.as_ref())));
    push_optional(&mut parts, summary.problem.clone());
    push_if(&mut parts, summary.update_available, String::from_str("update available"));
    push_if(&mut parts, summary.active_keys > 0, active_keys_phrase(summary.active_keys));
    push_if(&mut parts, summary.key_conflicts > 0, key_conflicts_phrase(summary.key_conflicts));
    assert(texts(parts@) =~= summary_parts(*summary));
    join_texts(&parts, " · ")
}

/// The entries of a disabled list that do not name extension `id`, in order.
pub open spec fn not_naming(list: Seq<Seq<char>>, id: Seq<char>) -> Seq<Seq<char>>
    decreases list.len(),
{
    if list.len() == 0 {
        Seq::empty()
    } else {
        not_naming(list.drop_last(), id) + if trimmed(list.last()) != id {
            seq![list.last()]
        } else {
            Seq::empty()
        }
    }
}

/// Removing an extension leaves on the disabled list what enabling it would leave; only the order
/// differs, since removal keeps the list as it was written.
pub proof fn lemma_removal_drops_what_enabling_drops(list: Seq<Seq<char>>, id: Seq<char>)
    ensures
        not_naming(list, id).to_set() == toggled(list, id, false),
    decreases list.len(),
{
    if list.len() == 0 {
        assert(not_naming(list, id).to_set() =~= Set::<Seq<char>>::empty());
        assert(toggled(list, id, false) =~= Set::<Seq<char>>::empty());
    } else {
        let rest = list.drop_last();
        let x = list.last();
        lemma_removal_drops_what_enabling_drops(rest, id);
        assert(list =~= rest.push(x));
        lemma_push_to_set(rest, x);
        if trimmed(x) != id {
            assert(not_naming(list, id) =~= not_naming(rest, id).push(x));
            lemma_push_to_set(not_naming(rest, id), x);
        } else {
            assert(not_naming(list, id) =~= not_naming(rest, id));
        }
        assert(not_naming(list, id).to_set() =~= toggled(list, id, false));
    }
}

/// The disabled list once a removed extension `id` is gone for good: every entry that names it
/// (ignoring white space around entries) is dropped, the rest keep their order. Returns the list
/// and whether it changed, which is when it has to be written back.
pub fn drop_removed_from_disabled(list: &Vec<String>, id: &String) -> (r: (Vec<String>, bool))
    ensures
        texts(r.0@) == not_naming(texts(list@), id@),
        r.1 == (r.0@.len() != list@.len()),
{
    let ghost all = texts(list@);
    let mut out: Vec<String> = Vec::new();
    let mut i: usize = 0;
    while i < list.len()
        invariant
            i <= list.len(),
            all == texts(list@),
            texts(out@) == not_naming(all.take(i as int), id@),
            out@.len() <= i,
        decreases list.len() - i,
    {
        proof {
            assert(all.take(i as int + 1).drop_last() =~= all.take(i as int));
            assert(all.take(i as int + 1).last() == list@[i as int]@);
        }
        let t = trim_text(list[i].as_str());
        if t != *id {
            let ghost before = texts(out@);
            out.push(list[i].clone());
            assert(texts(out@) =~= before.push(list@[i as int]@));
        }
        i = i + 1;
    }
    proof {
        assert(all.take(i as int) =~= all);
    }
    let changed = out.len() != list.len();
    (out, changed)
}

/// One installed extension as removal sees it: where it is installed and the id it declares.
#[derive(Clone, Debug)]
pub struct Installation {
    pub path: String,
    pub id: Option<String>,
}

/// Whether another installation of the same extension id remains once the one at `path` is
/// removed; then its entry on the disabled list still applies.
pub open spec fn duplicate_remains(entries: Seq<Installation>, path: Seq<char>, id: Option<Seq<char>>) -> bool {
    match id {
        None => false,
        Some(i) => exists|k: int|
            0 <= k < entries.len() && #[trigger] entries[k].path@ != path && (entries[k].id matches Some(x) && x@ == i),
    }
}

/// Whether another installation of extension `id` than the one at `path` remains.
pub fn duplicate_installation_remains(entries: &Vec<Installation>, path: &String, id: &Option<String>) -> (r: bool)
    ensures
        r == duplicate_remains(entries@, path@, optional_text(*id)),
{
    match id {
        None => false,
        Some(want) => {
            let mut i: usize = 0;
            while i < entries.len()
                invariant
                    i <= entries.len(),
                    optional_text(*id) == Some(want@),
                    forall|k: int|
                        0 <= k < i ==> !(#[trigger] entries@[k].path@ != path@ && (entries@[k].id matches Some(x) && x@
                            == want@)),
                decreases entries.len() - i,
            {
                let same_id = match &entries[i].id {
                    Some(x) => *x == *want,
                    None => false,
                };
                if entries[i].path != *path && same_id {
                    assert(entries@[i as int].path@ != path@ && (entries@[i as int].id matches Some(x) && x@ == want@));
                    return true;
                }
                i = i + 1;
            }
            false
        },
    }
}

/// The warning that suggested key bindings of extension `id` were not bound, since existing
/// bindings own their keys: its title and its detail, or nothing when there is no conflict.
pub open spec fn key_conflict_warning_text(id: Seq<char>, conflicts: nat) -> Option<(Seq<char>, Seq<char>)> {
    if conflicts == 0 {
        None
    } else {
        Some((id + " keybindings not bound"@, decimal(conflicts) + " suggested key"@ + plural(conflicts) + " already bound"@))
    }
}

/// The warning about extension `id`'s suggested key bindings that clash with existing ones.
pub fn key_conflict_warning(id: &String, conflicts: usize) -> (r: Option<(String, String)>)
    ensures
        match r {
            Some((title, detail)) => key_conflict_warning_text(id@, conflicts as nat) == Some((title@, detail@)),
            None => key_conflict_warning_text(id@, conflicts as nat) is None,
        },
{
    if conflicts == 0 {
        return None;
    }
    let mut title = id.clone();
    title.append(" keybindings not bound");
    let mut detail = decimal_text(conflicts);
    detail.append(" suggested key");
    detail.append(plural_text(conflicts));
    detail.append(" already bound");
    Some((title, detail))
}

} // verus!
