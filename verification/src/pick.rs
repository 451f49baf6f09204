//! The `pick` picker: a modal list that a program behind a pane fills with rows and tabs, and
//! that answers on the program's stream with one JSON line per decision.
//!
//! Every line is a compact JSON object with its keys in sorted order: `{"selected":..}` when a
//! row is chosen, `{"cancelled":true}` when the picker goes away, `{"tab":..}` when the user
//! switches tabs, and `{"action":..,"selected":..}` when an action chord fires. A tabbed picker
//! adds the tab the reply came from, so row ids only need to be unique within their tab.
//!
//! What needs the terminal toolkit (whether a key chord parses, whether a row matches the fuzzy
//! filter, editing the prompt's text) is asked of the caller and handed in as plain values.

use vstd::prelude::*;

use crate::json::{json_quote, json_string};
use crate::streams::{is_named_in, named_in};
use crate::text::{is_blank, text_is_blank};

verus! {

/// Narrowest width a caller may give the modal.
pub const PICK_MIN_WIDTH: u16 = 30;

/// Widest width a caller may give the modal.
pub const PICK_MAX_WIDTH: u16 = 120;

/// Width of a modal whose caller named none.
pub const PICK_DEFAULT_WIDTH: u16 = 60;

/// Most tabs one picker may declare.
pub const MAX_PICK_TABS: usize = 32;

/// One row a producer reported.
#[derive(Clone, Debug)]
pub struct PickRow {
    pub id: Option<String>,
    pub label: String,
    pub description: Option<String>,
    pub group: Option<String>,
    /// Why the row cannot be chosen, when it cannot.
    pub disabled: Option<String>,
    pub active: bool,
}

/// What a row reports as `selected`: its id, or its label when it has none.
pub open spec fn row_key(r: PickRow) -> Seq<char> {
    match r.id {
        Some(id) => id@,
        None => r.label@,
    }
}

fn row_id(row: &PickRow) -> (r: &String)
    ensures
        r@ == row_key(*row),
{
    match &row.id {
        Some(id) => id,
        None => &row.label,
    }
}

/// A tab a producer declared.
#[derive(Clone, Debug)]
pub struct PickTab {
    pub id: String,
    pub label: Option<String>,
}

/// The text modal an action raises before it reports.
#[derive(Clone, Debug)]
pub enum PickPromptSpec {
    /// Only a title.
    Title(String),
    /// A title with an optional placeholder, a starting value, and whether to mask the text.
    Fields { title: String, placeholder: Option<String>, value: Option<String>, masked: bool },
}

/// A key chord the producer asked for, shown in the footer.
#[derive(Clone, Debug)]
pub struct PickAction {
    pub id: String,
    pub key: String,
    pub label: String,
    pub prompt: Option<PickPromptSpec>,
    /// Firing ends the picker, the same as a selection.
    pub close: bool,
    /// The first press arms, a second press on the same row fires.
    pub confirm: bool,
}

/// The prompt an action raised: its text is edited by the caller.
#[derive(Clone, Debug)]
pub struct PickPrompt {
    pub action: usize,
    pub title: String,
    pub placeholder: String,
    pub masked: bool,
    pub input: String,
}

/// One page of rows: the single implicit page, or one declared tab.
#[derive(Debug)]
pub struct PickPage {
    pub label: String,
    pub tab: Option<String>,
    pub rows: Vec<PickRow>,
    pub selected: usize,
    pub query: String,
    /// What to seed the filter with when the page is shown again.
    pub restore_query: String,
}

/// An open picker.
#[derive(Debug)]
pub struct PickState {
    pub id: u64,
    /// The extension that opened it, if any.
    pub extension: Option<String>,
    pub title: String,
    pub placeholder: String,
    /// What to show over an empty list with an empty filter.
    pub empty: Option<String>,
    pub width: u16,
    pub actions: Vec<PickAction>,
    pub prompt: Option<PickPrompt>,
    /// The armed confirming action and the row it is aimed at.
    pub pending_action: Option<(usize, String)>,
    pub pages: Vec<PickPage>,
    pub active: usize,
}

/// The overlays that opening a picker dismisses.
#[derive(Clone, Copy, Debug, PartialEq, Eq, Structural)]
pub struct Overlays {
    pub show_palette: bool,
    /// The palette session a picker may take over.
    pub palette_handoff: Option<u64>,
    pub keybindings_open: bool,
    pub palette_sidebar_query: bool,
    pub show_theme_picker: bool,
    pub show_layout_picker: bool,
    pub search_open: bool,
    /// Key handling is in its normal mode.
    pub normal_mode: bool,
}

/// The picker and what the interface around it keeps about it.
#[derive(Debug)]
pub struct PickHost {
    pub pick: Option<PickState>,
    pub show_pick: bool,
    /// The command list must be rebuilt.
    pub commands_dirty: bool,
    pub overlays: Overlays,
}

/// Where keyboard focus goes after an operation.
#[derive(Clone, Copy, Debug, PartialEq, Eq, Structural)]
pub enum PickFocus {
    Unchanged,
    Picker,
    Prompt,
    /// Back to the focused pane.
    Pane,
}

/// A JSON line for the producer: `terminal` lines end the stream and must reach it however
/// far behind on reading it is.
#[derive(Clone, Debug)]
pub struct PickLine {
    pub text: String,
    pub terminal: bool,
}

/// What an operation asks of the interface: a line to write, where focus goes, and whether to
/// redraw.
#[derive(Clone, Debug)]
pub struct PickStep {
    pub line: Option<PickLine>,
    pub focus: PickFocus,
    pub redraw: bool,
}

/// Why a picker was not opened; its `message` is the error answered to the caller.
#[derive(Clone, Copy, Debug, PartialEq, Eq, Structural)]
pub enum PickOpenError {
    ExtensionInactive,
    AlreadyOpen,
    OverlayOpen,
}

impl PickOpenError {
    pub fn message(&self) -> (r: String)
        ensures
            r@ == match *self {
                PickOpenError::ExtensionInactive => "extension is not active"@,
                PickOpenError::AlreadyOpen => "a picker is already open"@,
                PickOpenError::OverlayOpen => "an overlay is open"@,
            },
    {
        match self {
            PickOpenError::ExtensionInactive => String::from_str("extension is not active"),
            PickOpenError::AlreadyOpen => String::from_str("a picker is already open"),
            PickOpenError::OverlayOpen => String::from_str("an overlay is open"),
        }
    }
}

// ---------------------------------------------------------------------------------------------
// Views

pub struct PageView {
    pub label: Seq<char>,
    pub tab: Option<Seq<char>>,
    pub rows: Seq<PickRow>,
    pub selected: int,
    pub query: Seq<char>,
    pub restore_query: Seq<char>,
}

pub struct PromptView {
    pub action: int,
    pub title: Seq<char>,
    pub placeholder: Seq<char>,
    pub masked: bool,
    pub input: Seq<char>,
}

pub struct PickView {
    pub id: u64,
    pub extension: Option<Seq<char>>,
    pub title: Seq<char>,
    pub placeholder: Seq<char>,
    pub empty: Option<Seq<char>>,
    pub width: u16,
    pub actions: Seq<PickAction>,
    pub prompt: Option<PromptView>,
    pub pending: Option<(int, Seq<char>)>,
    pub pages: Seq<PageView>,
    pub active: int,
}

pub struct HostView {
    pub pick: Option<PickView>,
    pub show_pick: bool,
    pub commands_dirty: bool,
    pub overlays: Overlays,
}

pub open spec fn opt_view(s: Option<String>) -> Option<Seq<char>> {
    match s {
        Some(t) => Some(t@),
        None => None,
    }
}

impl View for PickPage {
    type V = PageView;

    open spec fn view(&self) -> PageView {
        PageView {
            label: self.label@,
            tab: opt_view(self.tab),
            rows: self.rows@,
            selected: self.selected as int,
            query: self.query@,
            restore_query: self.restore_query@,
        }
    }
}

impl View for PickPrompt {
    type V = PromptView;

    open spec fn view(&self) -> PromptView {
        PromptView {
            action: self.action as int,
            title: self.title@,
            placeholder: self.placeholder@,
            masked: self.masked,
            input: self.input@,
        }
    }
}

impl View for PickState {
    type V = PickView;

    open spec fn view(&self) -> PickView {
        PickView {
            id: self.id,
            extension: opt_view(self.extension),
            title: self.title@,
            placeholder: self.placeholder@,
            empty: opt_view(self.empty),
            width: self.width,
            actions: self.actions@,
            prompt: match self.prompt {
                Some(p) => Some(p@),
                None => None,
            },
            pending: match self.pending_action {
                Some((i, r)) => Some((i as int, r@)),
                None => None,
            },
            pages: self.pages@.map_values(|p: PickPage| p@),
            active: self.active as int,
        }
    }
}

impl View for PickHost {
    type V = HostView;

    open spec fn view(&self) -> HostView {
        HostView {
            pick: match self.pick {
                Some(p) => Some(p@),
                None => None,
            },
            show_pick: self.show_pick,
            commands_dirty: self.commands_dirty,
            overlays: self.overlays,
        }
    }
}

impl PickView {
    /// The active page exists.
    pub open spec fn wf(self) -> bool {
        &&& 0 <= self.active < self.pages.len()
        &&& match self.prompt {
            Some(pr) => 0 <= pr.action < self.actions.len(),
            None => true,
        }
    }

    pub open spec fn page(self) -> PageView {
        self.pages[self.active]
    }

    pub open spec fn with_page(self, page: PageView) -> PickView {
        PickView { pages: self.pages.update(self.active, page), ..self }
    }
}

impl PickHost {
    /// An open picker is well formed.
    pub open spec fn wf(&self) -> bool {
        match self@.pick {
            Some(p) => p.wf(),
            None => true,
        }
    }
}

/// The line an operation writes: its text and whether it ends the stream.
pub open spec fn line_view(l: Option<PickLine>) -> Option<(Seq<char>, bool)> {
    match l {
        Some(line) => Some((line.text@, line.terminal)),
        None => None,
    }
}

/// A step that asks nothing.
pub open spec fn quiet(s: PickStep) -> bool {
    s.line is None && s.focus == PickFocus::Unchanged && !s.redraw
}

fn quiet_step() -> (r: PickStep)
    ensures
        quiet(r),
{
    PickStep { line: None, focus: PickFocus::Unchanged, redraw: false }
}

// ---------------------------------------------------------------------------------------------
// The JSON lines

/// `,"tab":<tab>` for a tabbed page, nothing otherwise.
pub open spec fn tab_field(tab: Option<Seq<char>>) -> Seq<char> {
    match tab {
        Some(t) => ",\"tab\":"@ + json_string(t),
        None => Seq::empty(),
    }
}

/// `{"selected":<id>}`, with the tab.
pub open spec fn selected_json(id: Seq<char>, tab: Option<Seq<char>>) -> Seq<char> {
    "{\"selected\":"@ + json_string(id) + tab_field(tab) + "}"@
}

/// `{"cancelled":true}`, with the reason when there is one.
pub open spec fn cancelled_json(reason: Option<Seq<char>>) -> Seq<char> {
    "{\"cancelled\":true"@ + match reason {
        Some(r) => ",\"reason\":"@ + json_string(r),
        None => Seq::empty(),
    } + "}"@
}

/// `{"tab":<tab>}`.
pub open spec fn tab_json(tab: Seq<char>) -> Seq<char> {
    "{\"tab\":"@ + json_string(tab) + "}"@
}

/// `{"action":<id>,"input":<text>,"selected":<row or null>}`, the input only after a prompt,
/// with the tab.
pub open spec fn action_json(
    action: Seq<char>,
    input: Option<Seq<char>>,
    selected: Option<Seq<char>>,
    tab: Option<Seq<char>>,
) -> Seq<char> {
    "{\"action\":"@ + json_string(action) + match input {
        Some(i) => ",\"input\":"@ + json_string(i),
        None => Seq::empty(),
    } + ",\"selected\":"@ + match selected {
        Some(s) => json_string(s),
        None => "null"@,
    } + tab_field(tab) + "}"@
}

fn push_tab_field(text: &mut String, tab: &Option<String>)
    ensures
        final(text)@ == old(text)@ + tab_field(opt_view(*tab)),
{
    match tab {
        Some(t) => {
            text.append(",\"tab\":");
            let quoted = json_quote(t.as_str());
            text.append(quoted.as_str());
        },
        None => {
            assert(old(text)@ + Seq::<char>::empty() =~= old(text)@);
        },
    }
}

/// The line reporting row `id` chosen on a page with tab `tab`.
pub fn selected_line(id: &str, tab: &Option<String>) -> (r: String)
    ensures
        r@ == selected_json(id@, opt_view(*tab)),
{
    let mut text = String::from_str("{\"selected\":");
    let quoted = json_quote(id);
    text.append(quoted.as_str());
    push_tab_field(&mut text, tab);
    text.append("}");
    text
}

/// The line reporting the picker cancelled, with `reason` when the user did not cancel it.
pub fn cancelled_line(reason: Option<&str>) -> (r: String)
    ensures
        r@ == cancelled_json(match reason {
            Some(s) => Some(s@),
            None => None,
        }),
{
    let mut text = String::from_str("{\"cancelled\":true");
    match reason {
        Some(r) => {
            text.append(",\"reason\":");
            let quoted = json_quote(r);
            text.append(quoted.as_str());
        },
        None => {},
    }
    text.append("}");
    proof {
        if reason is None {
            assert("{\"cancelled\":true"@ + Seq::<char>::empty() =~= "{\"cancelled\":true"@);
        }
    }
    text
}

/// The line reporting a switch to tab `tab`.
pub fn tab_line(tab: &str) -> (r: String)
    ensures
        r@ == tab_json(tab@),
{
    let mut text = String::from_str("{\"tab\":");
    let quoted = json_quote(tab);
    text.append(quoted.as_str());
    text.append("}");
    text
}

/// The line reporting action `action` fired.
pub fn action_line(action: &str, input: &Option<String>, selected: &Option<String>, tab: &Option<String>) -> (r: String)
    ensures
        r@ == action_json(action@, opt_view(*input), opt_view(*selected), opt_view(*tab)),
{
    let mut text = String::from_str("{\"action\":");
    let quoted = json_quote(action);
    text.append(quoted.as_str());
    let ghost head = text@;
    match input {
        Some(i) => {
            text.append(",\"input\":");
            let q = json_quote(i.as_str());
            text.append(q.as_str());
        },
        None => {
            assert(head + Seq::<char>::empty() =~= head);
        },
    }
    text.append(",\"selected\":");
    match selected {
        Some(s) => {
            let q = json_quote(s.as_str());
            text.append(q.as_str());
        },
        None => {
            text.append("null");
        },
    }
    push_tab_field(&mut text, tab);
    text.append("}");
    proof {
        let a = "{\"action\":"@ + json_string(action@);
        let i = match opt_view(*input) {
            Some(x) => ",\"input\":"@ + json_string(x),
            None => Seq::<char>::empty(),
        };
        let s = match opt_view(*selected) {
            Some(x) => json_string(x),
            None => "null"@,
        };
        assert(text@ =~= a + i + ",\"selected\":"@ + s + tab_field(opt_view(*tab)) + "}"@);
    }
    text
}

// ---------------------------------------------------------------------------------------------
// Filters and tabs

/// Some tab among `kept` has id `id`.
pub open spec fn has_tab_id(kept: Seq<PickTab>, id: Seq<char>) -> bool {
    exists|k: int| 0 <= k < kept.len() && (#[trigger] kept[k]).id@ == id
}

/// The declared tabs a picker opens with, in order: a tab with an empty id, or with the id of an
/// earlier tab, could never be told apart and is dropped, and at most `MAX_PICK_TABS` are kept.
pub open spec fn usable_tabs(tabs: Seq<PickTab>) -> Seq<PickTab>
    decreases tabs.len(),
{
    if tabs.len() == 0 {
        Seq::empty()
    } else {
        let kept = usable_tabs(tabs.drop_last());
        let t = tabs.last();
        if t.id@.len() == 0 || kept.len() >= MAX_PICK_TABS || has_tab_id(kept, t.id@) {
            kept
        } else {
            kept.push(t)
        }
    }
}

/// A fresh page for tab `tab` under `label`: no rows, no filter.
pub open spec fn fresh_page(label: Seq<char>, tab: Option<Seq<char>>) -> PageView {
    PageView {
        label,
        tab,
        rows: Seq::empty(),
        selected: 0,
        query: Seq::empty(),
        restore_query: Seq::empty(),
    }
}

/// A tab's label: its own when it has a non-empty one, else its id.
pub open spec fn tab_label(t: PickTab) -> Seq<char> {
    match t.label {
        Some(l) => if l@.len() > 0 {
            l@
        } else {
            t.id@
        },
        None => t.id@,
    }
}

/// The pages a picker opens with: one per usable tab, or the single implicit page.
pub open spec fn opening_pages_of(tabs: Seq<PickTab>) -> Seq<PageView> {
    let usable = usable_tabs(tabs);
    if usable.len() == 0 {
        seq![fresh_page(Seq::empty(), None)]
    } else {
        Seq::new(usable.len(), |i: int| fresh_page(tab_label(usable[i]), Some(usable[i].id@)))
    }
}

fn new_page(label: String, tab: Option<String>) -> (r: PickPage)
    ensures
        r@ == fresh_page(label@, opt_view(tab)),
{
    PickPage {
        label,
        tab,
        rows: Vec::new(),
        selected: 0,
        query: String::new(),
        restore_query: String::new(),
    }
}

fn has_tab_id_exec(kept: &Vec<PickTab>, id: &String) -> (r: bool)
    ensures
        r == has_tab_id(kept@, id@),
{
    let mut k: usize = 0;
    while k < kept.len()
        invariant
            k <= kept.len(),
            forall|j: int| 0 <= j < k ==> (#[trigger] kept@[j]).id@ != id@,
        decreases kept.len() - k,
    {
        if kept[k].id == *id {
            return true;
        }
        k = k + 1;
    }
    false
}

fn copy_text(s: &Option<String>) -> (r: Option<String>)
    ensures
        r == *s,
{
    match s {
        Some(t) => Some(t.clone()),
        None => None,
    }
}

fn copy_tab(t: &PickTab) -> (r: PickTab)
    ensures
        r == *t,
{
    PickTab { id: t.id.clone(), label: copy_text(&t.label) }
}

fn usable_pick_tabs(tabs: &Vec<PickTab>) -> (r: Vec<PickTab>)
    ensures
        r@ == usable_tabs(tabs@),
{
    let mut kept: Vec<PickTab> = Vec::new();
    let mut i: usize = 0;
    while i < tabs.len()
        invariant
            i <= tabs.len(),
            kept@ == usable_tabs(tabs@.subrange(0, i as int)),
        decreases tabs.len() - i,
    {
        proof {
            assert(tabs@.subrange(0, i as int + 1).drop_last() =~= tabs@.subrange(0, i as int));
        }
        let t = &tabs[i];
        if !(t.id.unicode_len() == 0 || kept.len() >= MAX_PICK_TABS || has_tab_id_exec(&kept, &t.id)) {
            kept.push(copy_tab(t));
        }
        i = i + 1;
    }
    proof {
        assert(tabs@.subrange(0, tabs@.len() as int) =~= tabs@);
    }
    kept
}

/// The pages a picker opens with.
pub fn opening_pages(tabs: &Vec<PickTab>) -> (r: Vec<PickPage>)
    ensures
        r@.map_values(|p: PickPage| p@) == opening_pages_of(tabs@),
{
    let usable = usable_pick_tabs(tabs);
    let mut pages: Vec<PickPage> = Vec::new();
    let mut i: usize = 0;
    while i < usable.len()
        invariant
            usable@ == usable_tabs(tabs@),
            i <= usable.len(),
            pages@.len() == i,
            forall|j: int| 0 <= j < i ==> (#[trigger] pages@[j])@ == fresh_page(tab_label(usable@[j]), Some(usable@[j].id@)),
        decreases usable.len() - i,
    {
        let t = &usable[i];
        let label = match &t.label {
            Some(l) => if l.unicode_len() > 0 {
                l.clone()
            } else {
                t.id.clone()
            },
            None => t.id.clone(),
        };
        pages.push(new_page(label, Some(t.id.clone())));
        i = i + 1;
    }
    if pages.len() == 0 {
        pages.push(new_page(String::new(), None));
    }
    proof {
        assert(pages@.map_values(|p: PickPage| p@) =~= opening_pages_of(tabs@));
    }
    pages
}

/// The page of tab `tab`, as a request names it: the first with that tab.
pub open spec fn page_index(pages: Seq<PageView>, tab: Option<Seq<char>>) -> Option<int>
    decreases pages.len(),
{
    if pages.len() == 0 {
        None
    } else if pages[0].tab == tab {
        Some(0)
    } else {
        match page_index(pages.drop_first(), tab) {
            Some(i) => Some(i + 1),
            None => None,
        }
    }
}

/// `page_index` finds the first page with the tab, and only a page with the tab.
pub proof fn lemma_page_index(pages: Seq<PageView>, tab: Option<Seq<char>>)
    ensures
        match page_index(pages, tab) {
            Some(i) => 0 <= i < pages.len() && pages[i].tab == tab && forall|k: int|
                0 <= k < i ==> (#[trigger] pages[k]).tab != tab,
            None => forall|k: int| 0 <= k < pages.len() ==> (#[trigger] pages[k]).tab != tab,
        },
    decreases pages.len(),
{
    if pages.len() > 0 && pages[0].tab != tab {
        lemma_page_index(pages.drop_first(), tab);
        assert forall|k: int| 1 <= k < pages.len() implies pages[k] == #[trigger] pages.drop_first()[k - 1] by {}
        match page_index(pages.drop_first(), tab) {
            Some(i) => {
                assert forall|k: int| 0 <= k < i + 1 implies (#[trigger] pages[k]).tab != tab by {
                    if k > 0 {
                        assert(pages[k] == pages.drop_first()[k - 1]);
                    }
                }
            },
            None => {
                assert forall|k: int| 0 <= k < pages.len() implies (#[trigger] pages[k]).tab != tab by {
                    if k > 0 {
                        assert(pages[k] == pages.drop_first()[k - 1]);
                    }
                }
            },
        }
    }
}

fn same_opt_text(a: &Option<String>, b: &Option<String>) -> (r: bool)
    ensures
        r == (opt_view(*a) == opt_view(*b)),
{
    match (a, b) {
        (Some(x), Some(y)) => *x == *y,
        (None, None) => true,
        _ => false,
    }
}

fn find_page(pages: &Vec<PickPage>, tab: &Option<String>) -> (r: Option<usize>)
    ensures
        match r {
            Some(i) => i < pages@.len() && page_index(pages@.map_values(|p: PickPage| p@), opt_view(*tab)) == Some(
                i as int,
            ),
            None => page_index(pages@.map_values(|p: PickPage| p@), opt_view(*tab)) is None,
        },
{
    let ghost pv = pages@.map_values(|p: PickPage| p@);
    let mut i: usize = 0;
    while i < pages.len()
        invariant
            i <= pages.len(),
            pv == pages@.map_values(|p: PickPage| p@),
            forall|k: int| 0 <= k < i ==> (#[trigger] pv[k]).tab != opt_view(*tab),
        decreases pages.len() - i,
    {
        if same_opt_text(&pages[i].tab, tab) {
            proof {
                lemma_page_index(pv, opt_view(*tab));
                assert(pv[i as int].tab == opt_view(*tab));
                match page_index(pv, opt_view(*tab)) {
                    Some(c) => {
                        if c < i {
                            assert(pv[c].tab != opt_view(*tab));
                        }
                        if c > i {
                            assert(pv[i as int].tab != opt_view(*tab));
                        }
                    },
                    None => {
                        assert(pv[i as int].tab != opt_view(*tab));
                    },
                }
            }
            return Some(i);
        }
        i = i + 1;
    }
    proof {
        lemma_page_index(pv, opt_view(*tab));
        match page_index(pv, opt_view(*tab)) {
            Some(c) => {
                assert(pv[c].tab != opt_view(*tab));
            },
            None => {},
        }
    }
    None
}

// ---------------------------------------------------------------------------------------------
// Opening

/// Everything a `pick` request carries.
#[derive(Debug)]
pub struct PickOpen {
    pub id: u64,
    pub title: Option<String>,
    pub placeholder: Option<String>,
    /// What to show over an empty list with an empty filter.
    pub empty: Option<String>,
    pub width: Option<u16>,
    pub actions: Vec<PickAction>,
    pub tabs: Vec<PickTab>,
    /// The tab to open on.
    pub tab: Option<String>,
    /// The extension asking, if any.
    pub extension: Option<String>,
}

/// Why a request to open a picker is refused, if it is.
pub open spec fn open_error(h: HostView, from_extension: bool, extension_active: bool, modal_overlay: bool) -> Option<
    PickOpenError,
> {
    if from_extension && !extension_active {
        Some(PickOpenError::ExtensionInactive)
    } else if h.show_pick {
        Some(PickOpenError::AlreadyOpen)
    } else if modal_overlay && !(h.overlays.show_palette && h.overlays.palette_handoff is Some) {
        Some(PickOpenError::OverlayOpen)
    } else {
        None
    }
}

/// The actions a picker keeps: an action with an empty id, or whose chord does not parse, would
/// be a footer hint that never fires.
pub open spec fn kept_actions(actions: Seq<PickAction>, parses: Seq<bool>) -> Seq<PickAction>
    decreases actions.len(),
{
    if actions.len() == 0 {
        Seq::empty()
    } else {
        let kept = kept_actions(actions.drop_last(), parses.take(actions.len() - 1));
        if actions.last().id@.len() > 0 && parses[actions.len() - 1] {
            kept.push(actions.last())
        } else {
            kept
        }
    }
}

/// `w`, or the default width, clamped to what a picker may be.
pub open spec fn clamped_width(w: Option<u16>) -> u16 {
    let w = match w {
        Some(x) => x,
        None => PICK_DEFAULT_WIDTH,
    };
    if w < PICK_MIN_WIDTH {
        PICK_MIN_WIDTH
    } else if w > PICK_MAX_WIDTH {
        PICK_MAX_WIDTH
    } else {
        w
    }
}

/// The page a picker opens on: that of the requested tab when it has one, else the first.
pub open spec fn opening_active(pages: Seq<PageView>, tab: Option<Seq<char>>) -> int {
    match tab {
        Some(t) => match page_index(pages, Some(t)) {
            Some(i) => i,
            None => 0,
        },
        None => 0,
    }
}

/// The picker a request opens.
pub open spec fn opened(o: PickOpen, parses: Seq<bool>) -> PickView {
    let pages = opening_pages_of(o.tabs@);
    PickView {
        id: o.id,
        extension: opt_view(o.extension),
        title: match o.title {
            Some(t) => t@,
            None => "Pick"@,
        },
        placeholder: match o.placeholder {
            Some(t) => t@,
            None => "Search…"@,
        },
        empty: match o.empty {
            Some(t) => if t@.len() > 0 {
                Some(t@)
            } else {
                None
            },
            None => None,
        },
        width: clamped_width(o.width),
        actions: kept_actions(o.actions@, parses),
        prompt: None,
        pending: None,
        pages,
        active: opening_active(pages, opt_view(o.tab)),
    }
}

/// The overlays once a picker took over: all dismissed, key handling back to normal.
pub open spec fn dismissed(o: Overlays) -> Overlays {
    Overlays {
        show_palette: false,
        palette_handoff: None,
        keybindings_open: false,
        palette_sidebar_query: false,
        show_theme_picker: false,
        show_layout_picker: false,
        search_open: false,
        normal_mode: true,
    }
}

fn keep_actions(actions: Vec<PickAction>, parses: &Vec<bool>) -> (r: Vec<PickAction>)
    requires
        parses@.len() == actions@.len(),
    ensures
        r@ == kept_actions(actions@, parses@),
{
    let mut kept: Vec<PickAction> = Vec::new();
    let mut i: usize = 0;
    let mut rest = actions;
    let ghost all = rest@;
    while i < parses.len()
        invariant
            i <= parses.len(),
            parses@.len() == all.len(),
            rest@ == all.subrange(i as int, all.len() as int),
            kept@ == kept_actions(all.take(i as int), parses@.take(i as int)),
        decreases parses.len() - i,
    {
        let a = rest.remove(0);
        proof {
            assert(a == all[i as int]);
            assert(all.take(i as int + 1).drop_last() =~= all.take(i as int));
            assert(parses@.take(i as int + 1).take(i as int) =~= parses@.take(i as int));
            assert(all.take(i as int + 1).last() == a);
        }
        if a.id.unicode_len() > 0 && parses[i] {
            kept.push(a);
        }
        i = i + 1;
    }
    proof {
        assert(all.take(all.len() as int) =~= all);
        assert(parses@.take(parses@.len() as int) =~= parses@);
    }
    kept
}

fn clamp_width(w: Option<u16>) -> (r: u16)
    ensures
        r == clamped_width(w),
{
    let w = match w {
        Some(x) => x,
        None => PICK_DEFAULT_WIDTH,
    };
    if w < PICK_MIN_WIDTH {
        PICK_MIN_WIDTH
    } else if w > PICK_MAX_WIDTH {
        PICK_MAX_WIDTH
    } else {
        w
    }
}

/// Open a picker for a `pick` request, or say why not. `key_parses[i]` says whether action
/// `i`'s key chord parses, `extension_active` whether the asking extension (if any) is still
/// active, and `modal_overlay` whether a modal overlay is up.
pub fn open_pick_stream(
    host: &mut PickHost,
    open: PickOpen,
    key_parses: &Vec<bool>,
    extension_active: bool,
    modal_overlay: bool,
) -> (r: Result<PickStep, PickOpenError>)
    requires
        old(host).wf(),
        key_parses@.len() == open.actions@.len(),
    ensures
        final(host).wf(),
        match open_error(old(host)@, open.extension is Some, extension_active, modal_overlay) {
            Some(e) => r == Err::<PickStep, PickOpenError>(e) && final(host)@ == old(host)@,
            None => r matches Ok(step) && step.line is None && step.focus == PickFocus::Picker && step.redraw
                && final(host)@ == (HostView {
                pick: Some(opened(open, key_parses@)),
                show_pick: true,
                commands_dirty: old(host)@.commands_dirty,
                overlays: dismissed(old(host)@.overlays),
            }),
        },
{
    if open.extension.is_some() && !extension_active {
        return Err(PickOpenError::ExtensionInactive);
    }
    if host.show_pick {
        return Err(PickOpenError::AlreadyOpen);
    }
    let replacing_palette = host.overlays.show_palette && host.overlays.palette_handoff.is_some();
    if modal_overlay && !replacing_palette {
        return Err(PickOpenError::OverlayOpen);
    }
    let ghost o = open;
    let PickOpen { id, title, placeholder, empty, width, actions, tabs, tab, extension } = open;
    let pages = opening_pages(&tabs);
    let ghost pv = pages@.map_values(|p: PickPage| p@);
    let active = match &tab {
        Some(t) => match find_page(&pages, &Some(t.clone())) {
            Some(i) => i,
            None => 0,
        },
        None => 0,
    };
    let empty = match empty {
        Some(text) => if text.unicode_len() > 0 {
            Some(text)
        } else {
            None
        },
        None => None,
    };
    let pick = PickState {
        id,
        extension,
        title: match title {
            Some(t) => t,
            None => String::from_str("Pick"),
        },
        placeholder: match placeholder {
            Some(t) => t,
            None => String::from_str("Search…"),
        },
        empty,
        width: clamp_width(width),
        actions: keep_actions(actions, key_parses),
        prompt: None,
        pending_action: None,
        pages,
        active,
    };
    proof {
        assert(pv.len() >= 1);
        assert(pick@.pages == pv);
    }
    host.pick = Some(pick);
    host.show_pick = true;
    host.overlays = Overlays {
        show_palette: false,
        palette_handoff: None,
        keybindings_open: false,
        palette_sidebar_query: false,
        show_theme_picker: false,
        show_layout_picker: false,
        search_open: false,
        normal_mode: true,
    };
    Ok(PickStep { line: None, focus: PickFocus::Picker, redraw: true })
}

// ---------------------------------------------------------------------------------------------
// What each operation does, stated over the views

pub struct StepView {
    pub line: Option<(Seq<char>, bool)>,
    pub focus: PickFocus,
    pub redraw: bool,
}

impl View for PickStep {
    type V = StepView;

    open spec fn view(&self) -> StepView {
        StepView { line: line_view(self.line), focus: self.focus, redraw: self.redraw }
    }
}

pub open spec fn quiet_view() -> StepView {
    StepView { line: None, focus: PickFocus::Unchanged, redraw: false }
}

/// The host once its picker is gone.
pub open spec fn closed(h: HostView) -> HostView {
    HostView { pick: None, show_pick: false, commands_dirty: true, ..h }
}

/// The host with picker `p`.
pub open spec fn holding(h: HostView, p: PickView) -> HostView {
    HostView { pick: Some(p), ..h }
}

/// The row an action is about: the highlighted one, while the filter shows it. `matches` says
/// whether the highlighted row matches the filter.
pub open spec fn visible_row(p: PickView, matches: bool) -> Option<Seq<char>> {
    let page = p.page();
    if 0 <= page.selected < page.rows.len() && (is_blank(page.query) || matches) {
        Some(row_key(page.rows[page.selected]))
    } else {
        None
    }
}

/// An arming survives a refresh only while its row does.
pub open spec fn kept_pending(pending: Option<(int, Seq<char>)>, rows: Seq<PickRow>) -> Option<(int, Seq<char>)> {
    match pending {
        Some((a, r)) => if exists|k: int| 0 <= k < rows.len() && row_key(#[trigger] rows[k]) == r {
            pending
        } else {
            None
        },
        None => None,
    }
}

/// Page `idx` with `rows`, the highlight back at the top when it fell off the end.
pub open spec fn rows_on_page(p: PickView, idx: int, rows: Seq<PickRow>) -> PickView {
    let page = p.pages[idx];
    let page2 = PageView {
        rows,
        selected: if page.selected >= rows.len() {
            0
        } else {
            page.selected
        },
        ..page
    };
    let p2 = PickView { pages: p.pages.update(idx, page2), ..p };
    if idx == p.active {
        PickView { pending: kept_pending(p.pending, rows), ..p2 }
    } else {
        p2
    }
}

/// A snapshot of `rows` for the page of `tab` of picker `id`; the flag says whether to redraw.
pub open spec fn rows_reported_to(h: HostView, id: u64, tab: Option<Seq<char>>, rows: Seq<PickRow>) -> (
    HostView,
    bool,
) {
    match h.pick {
        Some(p) => if p.id == id {
            match page_index(p.pages, tab) {
                Some(i) => (holding(h, rows_on_page(p, i, rows)), i == p.active),
                None => (h, false),
            }
        } else {
            (h, false)
        },
        None => (h, false),
    }
}

/// Showing page `index`.
pub open spec fn tab_selected_to(h: HostView, index: int) -> (HostView, StepView) {
    match h.pick {
        Some(p) => if index == p.active || index >= p.pages.len() || p.prompt is Some {
            (h, quiet_view())
        } else {
            let page = p.pages[index];
            let p2 = PickView {
                pending: None,
                active: index,
                pages: p.pages.update(index, PageView { restore_query: page.query, ..page }),
                ..p
            };
            let line = match page.tab {
                Some(t) => Some((tab_json(t), false)),
                None => None,
            };
            (holding(h, p2), StepView { line, focus: PickFocus::Picker, redraw: true })
        },
        None => (h, quiet_view()),
    }
}

/// Picker `id`'s stream went away.
pub open spec fn stream_closed_to(h: HostView, id: u64) -> (HostView, StepView) {
    match h.pick {
        Some(p) => if p.id == id {
            (closed(h), StepView { line: None, focus: PickFocus::Pane, redraw: true })
        } else {
            (h, quiet_view())
        },
        None => (h, quiet_view()),
    }
}

/// Cancelling, with `reason` when the user did not cancel.
pub open spec fn cancel_to(h: HostView, reason: Option<Seq<char>>) -> (HostView, StepView) {
    match h.pick {
        Some(p) => (
            closed(h),
            StepView { line: Some((cancelled_json(reason), true)), focus: PickFocus::Pane, redraw: true },
        ),
        None => (h, quiet_view()),
    }
}

/// A reload retired the extensions in `stale`.
pub open spec fn unload_to(h: HostView, stale: Seq<String>) -> (HostView, StepView) {
    match h.pick {
        Some(p) => match p.extension {
            Some(e) => if named_in(stale, e) {
                cancel_to(h, Some("extension unloaded"@))
            } else {
                (h, quiet_view())
            },
            None => (h, quiet_view()),
        },
        None => (h, quiet_view()),
    }
}

/// The filter became `query`: it disarms, and the flag says whether to redraw.
pub open spec fn query_changed_to(h: HostView, query: Seq<char>) -> (HostView, bool) {
    match h.pick {
        Some(p) => {
            let page = p.page();
            let p2 = PickView { pending: None, ..p.with_page(PageView { query, ..page }) };
            (holding(h, p2), is_blank(page.query) != is_blank(query) || p.pending is Some)
        },
        None => (h, false),
    }
}

/// Highlighting row `index`: moving off the armed row disarms it.
pub open spec fn select_to(h: HostView, index: int) -> (HostView, bool) {
    match h.pick {
        Some(p) => {
            let page = p.page();
            let p2 = p.with_page(PageView { selected: index, ..page });
            if page.selected != index && p.pending is Some {
                (holding(h, PickView { pending: None, ..p2 }), true)
            } else {
                (holding(h, p2), false)
            }
        },
        None => (h, false),
    }
}

/// Choosing row `index`: a disabled row, or one that is not there, is inert.
pub open spec fn activate_to(h: HostView, index: int) -> (HostView, StepView) {
    match h.pick {
        Some(p) => {
            let page = p.page();
            if index < page.rows.len() && page.rows[index].disabled is None {
                (
                    closed(h),
                    StepView {
                        line: Some((selected_json(row_key(page.rows[index]), page.tab), true)),
                        focus: PickFocus::Pane,
                        redraw: true,
                    },
                )
            } else {
                (h, quiet_view())
            }
        },
        None => (h, quiet_view()),
    }
}

/// Reporting action `index`, with the prompt's text when it had one.
pub open spec fn report_to(h: HostView, index: int, input: Option<Seq<char>>, matches: bool) -> (
    HostView,
    StepView,
) {
    match h.pick {
        Some(p) => if 0 <= index < p.actions.len() {
            let a = p.actions[index];
            let text = action_json(a.id@, input, visible_row(p, matches), p.page().tab);
            if a.close {
                (closed(h), StepView { line: Some((text, true)), focus: PickFocus::Pane, redraw: true })
            } else {
                (h, StepView { line: Some((text, false)), focus: PickFocus::Picker, redraw: true })
            }
        } else {
            (h, quiet_view())
        },
        None => (h, quiet_view()),
    }
}

pub open spec fn prompt_title(s: PickPromptSpec) -> Seq<char> {
    match s {
        PickPromptSpec::Title(t) => t@,
        PickPromptSpec::Fields { title, .. } => title@,
    }
}

pub open spec fn prompt_placeholder(s: PickPromptSpec) -> Seq<char> {
    match s {
        PickPromptSpec::Title(_) => Seq::empty(),
        PickPromptSpec::Fields { placeholder, .. } => match placeholder {
            Some(t) => t@,
            None => Seq::empty(),
        },
    }
}

pub open spec fn prompt_value(s: PickPromptSpec) -> Seq<char> {
    match s {
        PickPromptSpec::Title(_) => Seq::empty(),
        PickPromptSpec::Fields { value, .. } => match value {
            Some(t) => t@,
            None => Seq::empty(),
        },
    }
}

pub open spec fn prompt_masked(s: PickPromptSpec) -> bool {
    match s {
        PickPromptSpec::Title(_) => false,
        PickPromptSpec::Fields { masked, .. } => masked,
    }
}

/// Action `index` fires (armed or not confirming): a prompt comes up first, else it reports.
pub open spec fn fire_to(h: HostView, index: int, matches: bool) -> (HostView, StepView) {
    match h.pick {
        Some(p) => if 0 <= index < p.actions.len() {
            match p.actions[index].prompt {
                Some(spec) => {
                    let page = p.page();
                    let p2 = PickView {
                        prompt: Some(
                            PromptView {
                                action: index,
                                title: prompt_title(spec),
                                placeholder: prompt_placeholder(spec),
                                masked: prompt_masked(spec),
                                input: prompt_value(spec),
                            },
                        ),
                        ..p.with_page(PageView { restore_query: page.query, ..page })
                    };
                    (
                        HostView { pick: Some(p2), commands_dirty: true, ..h },
                        StepView { line: None, focus: PickFocus::Prompt, redraw: true },
                    )
                },
                None => report_to(h, index, None, matches),
            }
        } else {
            (h, quiet_view())
        },
        None => (h, quiet_view()),
    }
}

/// Pressing action `index`'s chord: a confirming action arms on the first press and fires on a
/// second one aimed at the same row.
pub open spec fn invoke_to(h: HostView, index: int, matches: bool) -> (HostView, StepView) {
    match h.pick {
        Some(p) => if 0 <= index < p.actions.len() {
            if p.actions[index].confirm {
                match visible_row(p, matches) {
                    Some(row) => if p.pending != Some((index, row)) {
                        (
                            holding(h, PickView { pending: Some((index, row)), ..p }),
                            StepView { line: None, focus: PickFocus::Unchanged, redraw: true },
                        )
                    } else {
                        fire_to(holding(h, PickView { pending: None, ..p }), index, matches)
                    },
                    None => (h, quiet_view()),
                }
            } else {
                fire_to(h, index, matches)
            }
        } else {
            (h, quiet_view())
        },
        None => (h, quiet_view()),
    }
}

/// Submitting the prompt reports its action with the text typed.
pub open spec fn prompt_submit_to(h: HostView, matches: bool) -> (HostView, StepView) {
    match h.pick {
        Some(p) => match p.prompt {
            Some(pr) => report_to(holding(h, PickView { prompt: None, ..p }), pr.action, Some(pr.input), matches),
            None => (h, quiet_view()),
        },
        None => (h, quiet_view()),
    }
}

/// Dismissing the prompt reports nothing and brings the picker back.
pub open spec fn prompt_cancel_to(h: HostView) -> (HostView, StepView) {
    let h1 = match h.pick {
        Some(p) => holding(h, PickView { prompt: None, ..p }),
        None => h,
    };
    (HostView { commands_dirty: true, ..h1 }, StepView { line: None, focus: PickFocus::Picker, redraw: true })
}

// ---------------------------------------------------------------------------------------------
// The operations

proof fn lemma_page_replaced(orig: Seq<PickPage>, idx: int, page: PickPage)
    requires
        0 <= idx < orig.len(),
    ensures
        orig.remove(idx).insert(idx, page).map_values(|p: PickPage| p@) == orig.map_values(|p: PickPage| p@).update(
            idx,
            page@,
        ),
{
    assert(orig.remove(idx).insert(idx, page).map_values(|p: PickPage| p@) =~= orig.map_values(|p: PickPage| p@).update(
        idx,
        page@,
    ));
}

fn close_host(host: &mut PickHost)
    ensures
        final(host)@ == closed(old(host)@),
{
    host.pick = None;
    host.show_pick = false;
    host.commands_dirty = true;
}

fn some_row_has_key(rows: &Vec<PickRow>, key: &String) -> (r: bool)
    ensures
        r == exists|k: int| 0 <= k < rows@.len() && row_key(#[trigger] rows@[k]) == key@,
{
    let mut k: usize = 0;
    while k < rows.len()
        invariant
            k <= rows.len(),
            forall|j: int| 0 <= j < k ==> row_key(#[trigger] rows@[j]) != key@,
        decreases rows.len() - k,
    {
        if *row_id(&rows[k]) == *key {
            return true;
        }
        k = k + 1;
    }
    false
}

/// Replace the rows of the page that `tab` names, when picker `id` is open; returns whether to
/// redraw. A snapshot aimed at no page is dropped.
pub fn rows_reported(host: &mut PickHost, id: u64, tab: Option<String>, rows: Vec<PickRow>) -> (r: bool)
    requires
        old(host).wf(),
    ensures
        final(host).wf(),
        (final(host)@, r) == rows_reported_to(old(host)@, id, opt_view(tab), rows@),
{
    let mut pick = match host.pick.take() {
        Some(p) => p,
        None => return false,
    };
    if pick.id != id {
        host.pick = Some(pick);
        return false;
    }
    let index = match find_page(&pick.pages, &tab) {
        Some(i) => i,
        None => {
            host.pick = Some(pick);
            return false;
        },
    };
    let ghost p0 = pick@;
    let ghost pages0 = pick.pages@;
    let mut page = pick.pages.remove(index);
    page.rows = rows;
    if page.selected >= page.rows.len() {
        page.selected = 0;
    }
    let drop_arming = match &pick.pending_action {
        Some((_, row)) => !some_row_has_key(&page.rows, row),
        None => false,
    };
    pick.pages.insert(index, page);
    proof {
        lemma_page_replaced(pages0, index as int, page);
    }
    if index != pick.active {
        host.pick = Some(pick);
        assert(host@ == holding(old(host)@, rows_on_page(p0, index as int, rows@)));
        return false;
    }
    if drop_arming {
        pick.pending_action = None;
    }
    host.pick = Some(pick);
    assert(host@ == holding(old(host)@, rows_on_page(p0, index as int, rows@)));
    true
}

/// Show page `index`, and tell the producer so it can fill a tab only once someone looks at it.
pub fn tab_selected(host: &mut PickHost, index: usize) -> (r: PickStep)
    requires
        old(host).wf(),
    ensures
        final(host).wf(),
        (final(host)@, r@) == tab_selected_to(old(host)@, index as int),
{
    let mut pick = match host.pick.take() {
        Some(p) => p,
        None => return quiet_step(),
    };
    if index == pick.active || index >= pick.pages.len() || pick.prompt.is_some() {
        host.pick = Some(pick);
        return quiet_step();
    }
    let ghost pages0 = pick.pages@;
    pick.pending_action = None;
    pick.active = index;
    let mut page = pick.pages.remove(index);
    page.restore_query = page.query.clone();
    let line = match &page.tab {
        Some(t) => Some(PickLine { text: tab_line(t.as_str()), terminal: false }),
        None => None,
    };
    pick.pages.insert(index, page);
    proof {
        lemma_page_replaced(pages0, index as int, page);
    }
    host.pick = Some(pick);
    PickStep { line, focus: PickFocus::Picker, redraw: true }
}

/// Picker `id`'s stream closed: the picker goes away without a word to anyone.
pub fn stream_closed(host: &mut PickHost, id: u64) -> (r: PickStep)
    requires
        old(host).wf(),
    ensures
        final(host).wf(),
        (final(host)@, r@) == stream_closed_to(old(host)@, id),
{
    let matches_id = match &host.pick {
        Some(p) => p.id == id,
        None => false,
    };
    if matches_id {
        close_host(host);
        return PickStep { line: None, focus: PickFocus::Pane, redraw: true };
    }
    quiet_step()
}

/// Cancel an open picker, telling the producer why: `reason` separates a user pressing Esc from
/// the picker being taken away.
pub fn cancel_pick(host: &mut PickHost, reason: Option<&str>) -> (r: PickStep)
    requires
        old(host).wf(),
    ensures
        final(host).wf(),
        (final(host)@, r@) == cancel_to(
            old(host)@,
            match reason {
                Some(s) => Some(s@),
                None => None,
            },
        ),
{
    if host.pick.is_none() {
        return quiet_step();
    }
    close_host(host);
    PickStep {
        line: Some(PickLine { text: cancelled_line(reason), terminal: true }),
        focus: PickFocus::Pane,
        redraw: true,
    }
}

/// The user closed the picker.
pub fn close_pick(host: &mut PickHost) -> (r: PickStep)
    requires
        old(host).wf(),
    ensures
        final(host).wf(),
        (final(host)@, r@) == cancel_to(old(host)@, None),
{
    cancel_pick(host, None)
}

/// A reload retired the extensions in `stale`: a picker one of them opened is cancelled.
pub fn unload_extensions(host: &mut PickHost, stale: &Vec<String>) -> (r: PickStep)
    requires
        old(host).wf(),
    ensures
        final(host).wf(),
        (final(host)@, r@) == unload_to(old(host)@, stale@),
{
    let retired = match &host.pick {
        Some(p) => match &p.extension {
            Some(e) => is_named_in(stale, e),
            None => false,
        },
        None => false,
    };
    if retired {
        cancel_pick(host, Some("extension unloaded"))
    } else {
        quiet_step()
    }
}

/// The filter of the showing page became `query`; returns whether to redraw.
pub fn query_changed(host: &mut PickHost, query: String) -> (r: bool)
    requires
        old(host).wf(),
    ensures
        final(host).wf(),
        (final(host)@, r) == query_changed_to(old(host)@, query@),
{
    let mut pick = match host.pick.take() {
        Some(p) => p,
        None => return false,
    };
    let ghost pages0 = pick.pages@;
    let active = pick.active;
    let mut page = pick.pages.remove(active);
    let was_empty = text_is_blank(page.query.as_str());
    page.query = query;
    let is_empty = text_is_blank(page.query.as_str());
    pick.pages.insert(active, page);
    proof {
        lemma_page_replaced(pages0, active as int, page);
    }
    let disarmed = pick.pending_action.is_some();
    pick.pending_action = None;
    host.pick = Some(pick);
    was_empty != is_empty || disarmed
}

/// Highlight row `index` of the showing page; returns whether to redraw.
pub fn pick_select(host: &mut PickHost, index: usize) -> (r: bool)
    requires
        old(host).wf(),
    ensures
        final(host).wf(),
        (final(host)@, r) == select_to(old(host)@, index as int),
{
    let mut pick = match host.pick.take() {
        Some(p) => p,
        None => return false,
    };
    let ghost pages0 = pick.pages@;
    let active = pick.active;
    let mut page = pick.pages.remove(active);
    let moved = page.selected != index;
    page.selected = index;
    pick.pages.insert(active, page);
    proof {
        lemma_page_replaced(pages0, active as int, page);
    }
    let redraw = moved && pick.pending_action.is_some();
    if redraw {
        pick.pending_action = None;
    }
    host.pick = Some(pick);
    redraw
}

/// Choose row `index` of the showing page: the picker ends with the row's id.
pub fn pick_activate(host: &mut PickHost, index: usize) -> (r: PickStep)
    requires
        old(host).wf(),
    ensures
        final(host).wf(),
        (final(host)@, r@) == activate_to(old(host)@, index as int),
{
    let text = match &host.pick {
        Some(p) => {
            let page = &p.pages[p.active];
            if index < page.rows.len() && page.rows[index].disabled.is_none() {
                selected_line(row_id(&page.rows[index]).as_str(), &page.tab)
            } else {
                return quiet_step();
            }
        },
        None => return quiet_step(),
    };
    close_host(host);
    PickStep { line: Some(PickLine { text, terminal: true }), focus: PickFocus::Pane, redraw: true }
}

/// The id of the row an action is about: the highlighted row, while the filter shows it.
/// `matches` says whether the highlighted row matches the filter under the fuzzy search.
pub fn visible_selected_row(pick: &PickState, matches: bool) -> (r: Option<String>)
    requires
        pick@.wf(),
    ensures
        opt_view(r) == visible_row(pick@, matches),
{
    let page = &pick.pages[pick.active];
    if page.selected < page.rows.len() && (text_is_blank(page.query.as_str()) || matches) {
        Some(row_id(&page.rows[page.selected]).clone())
    } else {
        None
    }
}

/// Write action `index`'s line, with the prompt's text when it had one, and end the picker when
/// the action is terminal. `matches` as for `visible_selected_row`.
pub fn report_action(host: &mut PickHost, index: usize, input: Option<String>, matches: bool) -> (r: PickStep)
    requires
        old(host).wf(),
    ensures
        final(host).wf(),
        (final(host)@, r@) == report_to(old(host)@, index as int, opt_view(input), matches),
{
    let (text, close) = match &host.pick {
        Some(p) => {
            if index >= p.actions.len() {
                return quiet_step();
            }
            let action = &p.actions[index];
            let selected = visible_selected_row(p, matches);
            (action_line(action.id.as_str(), &input, &selected, &p.pages[p.active].tab), action.close)
        },
        None => return quiet_step(),
    };
    if close {
        close_host(host);
        PickStep { line: Some(PickLine { text, terminal: true }), focus: PickFocus::Pane, redraw: true }
    } else {
        PickStep { line: Some(PickLine { text, terminal: false }), focus: PickFocus::Picker, redraw: true }
    }
}

fn prompt_of(spec: &PickPromptSpec, action: usize) -> (r: PickPrompt)
    ensures
        r@ == (PromptView {
            action: action as int,
            title: prompt_title(*spec),
            placeholder: prompt_placeholder(*spec),
            masked: prompt_masked(*spec),
            input: prompt_value(*spec),
        }),
{
    match spec {
        PickPromptSpec::Title(t) => PickPrompt {
            action,
            title: t.clone(),
            placeholder: String::new(),
            masked: false,
            input: String::new(),
        },
        PickPromptSpec::Fields { title, placeholder, value, masked } => PickPrompt {
            action,
            title: title.clone(),
            placeholder: match placeholder {
                Some(t) => t.clone(),
                None => String::new(),
            },
            masked: *masked,
            input: match value {
                Some(t) => t.clone(),
                None => String::new(),
            },
        },
    }
}

fn fire_action(host: &mut PickHost, index: usize, matches: bool) -> (r: PickStep)
    requires
        old(host).wf(),
    ensures
        final(host).wf(),
        (final(host)@, r@) == fire_to(old(host)@, index as int, matches),
{
    let mut pick = match host.pick.take() {
        Some(p) => p,
        None => return quiet_step(),
    };
    if index >= pick.actions.len() {
        host.pick = Some(pick);
        return quiet_step();
    }
    let prompt = match &pick.actions[index].prompt {
        Some(spec) => prompt_of(spec, index),
        None => {
            host.pick = Some(pick);
            return report_action(host, index, None, matches);
        },
    };
    let ghost pages0 = pick.pages@;
    let active = pick.active;
    let mut page = pick.pages.remove(active);
    page.restore_query = page.query.clone();
    pick.pages.insert(active, page);
    proof {
        lemma_page_replaced(pages0, active as int, page);
    }
    pick.prompt = Some(prompt);
    host.pick = Some(pick);
    host.commands_dirty = true;
    PickStep { line: None, focus: PickFocus::Prompt, redraw: true }
}

/// Action `index`'s chord was pressed. A confirming action arms on the first press and fires on
/// a second one aimed at the same row; a plain action reports and leaves the picker up; one with
/// a prompt raises the prompt first. `matches` as for `visible_selected_row`.
pub fn invoke_action(host: &mut PickHost, index: usize, matches: bool) -> (r: PickStep)
    requires
        old(host).wf(),
    ensures
        final(host).wf(),
        (final(host)@, r@) == invoke_to(old(host)@, index as int, matches),
{
    let (confirm, row) = match &host.pick {
        Some(p) => {
            if index >= p.actions.len() {
                return quiet_step();
            }
            (p.actions[index].confirm, visible_selected_row(p, matches))
        },
        None => return quiet_step(),
    };
    if confirm {
        let row = match row {
            Some(r) => r,
            None => return quiet_step(),
        };
        let mut pick = match host.pick.take() {
            Some(p) => p,
            None => return quiet_step(),
        };
        let armed_here = match &pick.pending_action {
            Some((i, r)) => *i == index && *r == row,
            None => false,
        };
        if !armed_here {
            pick.pending_action = Some((index, row));
            host.pick = Some(pick);
            return PickStep { line: None, focus: PickFocus::Unchanged, redraw: true };
        }
        pick.pending_action = None;
        host.pick = Some(pick);
    }
    fire_action(host, index, matches)
}

/// The prompt was submitted: its action reports with the text typed.
pub fn prompt_submit(host: &mut PickHost, matches: bool) -> (r: PickStep)
    requires
        old(host).wf(),
    ensures
        final(host).wf(),
        (final(host)@, r@) == prompt_submit_to(old(host)@, matches),
{
    let mut pick = match host.pick.take() {
        Some(p) => p,
        None => return quiet_step(),
    };
    let prompt = match pick.prompt.take() {
        Some(pr) => pr,
        None => {
            host.pick = Some(pick);
            return quiet_step();
        },
    };
    host.pick = Some(pick);
    report_action(host, prompt.action, Some(prompt.input), matches)
}

/// The prompt was dismissed: nothing is reported and the picker comes back.
pub fn prompt_cancel(host: &mut PickHost) -> (r: PickStep)
    requires
        old(host).wf(),
    ensures
        final(host).wf(),
        (final(host)@, r@) == prompt_cancel_to(old(host)@),
{
    let mut pick = host.pick.take();
    match &mut pick {
        Some(p) => {
            p.prompt = None;
        },
        None => {},
    }
    host.pick = pick;
    host.commands_dirty = true;
    PickStep { line: None, focus: PickFocus::Picker, redraw: true }
}

// ---------------------------------------------------------------------------------------------
// Laws

/// A confirming action arms on the first press, writing nothing, and fires on a second press
/// aimed at the same row.
pub proof fn lemma_confirm_needs_second_press(h: HostView, index: int, matches: bool)
    requires
        h.pick matches Some(p) && p.wf() && 0 <= index < p.actions.len() && p.actions[index].confirm
            && visible_row(p, matches) is Some && p.pending != Some((index, visible_row(p, matches)->0)),
    ensures
        ({
            let p = h.pick->0;
            let row = visible_row(p, matches)->0;
            let (h1, first) = invoke_to(h, index, matches);
            &&& first.line is None
            &&& h1 == holding(h, PickView { pending: Some((index, row)), ..p })
            &&& invoke_to(h1, index, matches) == fire_to(holding(h1, PickView { pending: None, ..h1.pick->0 }), index, matches)
        }),
{
}

/// A line that ends the stream is the picker's last: whichever operation writes one, the picker
/// is gone afterwards.
pub proof fn lemma_terminal_line_closes(h: HostView, index: int, matches: bool, reason: Option<Seq<char>>)
    ensures
        cancel_to(h, reason).1.line matches Some(l) && l.1 ==> cancel_to(h, reason).0.pick is None
            && !cancel_to(h, reason).0.show_pick,
        activate_to(h, index).1.line matches Some(l) && l.1 ==> activate_to(h, index).0.pick is None
            && !activate_to(h, index).0.show_pick,
        invoke_to(h, index, matches).1.line matches Some(l) && l.1 ==> invoke_to(h, index, matches).0.pick is None
            && !invoke_to(h, index, matches).0.show_pick,
        prompt_submit_to(h, matches).1.line matches Some(l) && l.1 ==> prompt_submit_to(h, matches).0.pick is None
            && !prompt_submit_to(h, matches).0.show_pick,
        tab_selected_to(h, index).1.line matches Some(l) ==> !l.1,
{
}

/// Each tab keeps its own filter and highlight: switching away and back again finds the page as
/// it was, its filter seeded with what was typed there, and nothing armed.
pub proof fn lemma_tab_round_trip(h: HostView, other: int)
    requires
        h.pick matches Some(p) && p.wf() && p.prompt is None && 0 <= other < p.pages.len() && other != p.active,
    ensures
        ({
            let p = h.pick->0;
            let (h1, _) = tab_selected_to(h, other);
            let (h2, back) = tab_selected_to(h1, p.active);
            let q = h2.pick->0;
            &&& q.active == p.active
            &&& q.pending is None
            &&& q.page().rows == p.page().rows
            &&& q.page().selected == p.page().selected
            &&& q.page().query == p.page().query
            &&& q.page().restore_query == p.page().query
            &&& back.line == match p.page().tab {
                Some(t) => Some((tab_json(t), false)),
                None => None,
            }
        }),
{
}

/// A snapshot lands only on the page it names: every other page keeps its rows, and the picker
/// keeps its active page.
pub proof fn lemma_rows_land_on_named_page(h: HostView, id: u64, tab: Option<Seq<char>>, rows: Seq<PickRow>)
    requires
        h.pick matches Some(p) && p.wf(),
    ensures
        ({
            let p = h.pick->0;
            let (h1, _) = rows_reported_to(h, id, tab, rows);
            let q = h1.pick->0;
            &&& q.pages.len() == p.pages.len()
            &&& q.active == p.active
            &&& forall|k: int| 0 <= k < p.pages.len() && p.pages[k].tab != tab ==> #[trigger] q.pages[k] == p.pages[k]
            &&& (p.id == id && page_index(p.pages, tab) is Some) ==> q.pages[page_index(p.pages, tab)->0].rows == rows
        }),
{
    let p = h.pick->0;
    lemma_page_index(p.pages, tab);
}

/// How many unread event lines a picker's stream keeps before it drops more.
pub const PICK_REPLY_BACKLOG: usize = 16;

/// Whether a line the picker produced goes out on its stream with `unread` lines waiting: an event
/// line (a tab switch, a plain action) is dropped once the backlog is full, so a busy producer
/// cannot make the interface block; the terminal line always goes, because a producer that never
/// hears the picker ended would wait for it forever.
pub fn reply_accepts(terminal: bool, unread: usize) -> (r: bool)
    ensures
        r == (terminal || unread < PICK_REPLY_BACKLOG),
{
    terminal || unread < PICK_REPLY_BACKLOG
}

} // verus!

verus! {

/// A rows snapshot keeps the page's highlight while it still lies within the new rows; only a
/// highlight past their end goes back to the top.
pub proof fn lemma_snapshot_keeps_the_highlight(h: HostView, id: u64, tab: Option<Seq<char>>, rows: Seq<PickRow>)
    requires
        h.pick matches Some(p) && p.wf() && p.id == id && page_index(p.pages, tab) is Some,
    ensures
        ({
            let p = h.pick->0;
            let i = page_index(p.pages, tab)->0;
            let before = p.pages[i].selected;
            let after = rows_reported_to(h, id, tab, rows).0.pick->0.pages[i].selected;
            &&& 0 <= before < rows.len() ==> after == before
            &&& before >= rows.len() ==> after == 0
        }),
{
    let p = h.pick->0;
    lemma_page_index(p.pages, tab);
}

} // verus!
