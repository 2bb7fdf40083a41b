//! The terminal UI's key handling: what each key does in each mode and on
//! each tab, and what the event loop is told afterwards. No terminal I/O
//! happens here.
use vstd::prelude::*;
use crate::text::{owned, to_lowercase, unicode_lower};

verus! {

/// What the event loop should do after processing a key.
#[derive(Debug, Clone, Copy, PartialEq, Eq, Structural)]
pub enum Action {
    /// Exit the event loop.
    Quit,
    /// State changed; redraw the screen.
    Redraw,
    /// State unchanged; no redraw needed.
    Continue,
    /// Export the CBOM.
    ExportCbom,
}

/// Errors surfaced from the terminal UI.
#[derive(Debug, Clone)]
pub enum TuiError {
    /// An I/O error, as text.
    Io(String),
    /// The terminal cannot enter raw mode (no TTY); callers fall back to
    /// headless output.
    NoTty(String),
}

/// The tabs, in cycling order.
#[derive(Debug, Clone, Copy, PartialEq, Eq, Structural)]
pub enum Tab {
    Summary,
    Inventory,
    Findings,
    Cbom,
}

/// What keys are taken as.
#[derive(Debug, Clone, Copy, PartialEq, Eq, Structural)]
pub enum Mode {
    /// Keys navigate.
    Browsing,
    /// Keys edit the filter text.
    Filtering,
    /// The help overlay is shown.
    Help,
}

/// A key, as far as the handler tells keys apart.
#[derive(Debug, Clone, Copy, PartialEq, Eq, Structural)]
pub enum KeyCode {
    Char(char),
    Esc,
    Enter,
    Tab,
    BackTab,
    Up,
    Down,
    PageUp,
    PageDown,
    Backspace,
    /// Any other key.
    Other,
}

/// The modifier keys held with a key; `other` is Super, Hyper or Meta.
#[derive(Debug, Clone, Copy, PartialEq, Eq, Structural)]
pub struct Modifiers {
    pub shift: bool,
    pub control: bool,
    pub alt: bool,
    pub other: bool,
}

/// One key press.
#[derive(Debug, Clone, Copy, PartialEq, Eq, Structural)]
pub struct KeyPress {
    pub code: KeyCode,
    pub modifiers: Modifiers,
}

/// A change that the UI state's own navigation and filtering operations
/// carry out: the handler decides which, the state performs it.
#[derive(Debug, Clone, Copy, PartialEq, Eq, Structural)]
pub enum StateRequest {
    NextFinding,
    PrevFinding,
    FirstFinding,
    LastFinding,
    /// Apply the filter text to the findings and leave filtering.
    ApplyFilter,
    PopFilterChar,
    PushFilterChar(char),
    InventoryNext,
    InventoryPrev,
    InventoryFirst,
    InventoryLast,
    InventoryPageDown(usize),
    InventoryPageUp(usize),
}

/// What handling a key yields besides the state change it makes.
#[derive(Debug, Clone, Copy)]
pub struct KeyOutcome {
    pub action: Action,
    pub request: Option<StateRequest>,
}

/// Cursor and detail pane of the findings tab.
#[derive(Debug, Clone)]
pub struct FindingsNav {
    pub cursor: usize,
    pub detail_open: bool,
}

/// Cursor, detail pane and active filter of the inventory tab.
#[derive(Debug, Clone)]
pub struct InventoryNav {
    pub cursor: usize,
    pub detail_open: bool,
    /// The lower-cased filter the inventory is narrowed by.
    pub filter_active: String,
}

/// The UI state keys act on.
#[derive(Debug, Clone)]
pub struct TuiState {
    pub mode: Mode,
    pub tab: Tab,
    pub status_message: Option<String>,
    /// Position in `filtered_indices`.
    pub cursor: usize,
    /// The findings shown, by index.
    pub filtered_indices: Vec<usize>,
    pub findings_nav: FindingsNav,
    pub inventory_nav: InventoryNav,
    pub cbom_cursor: usize,
    pub cbom_scroll: usize,
    pub show_critical: bool,
    pub show_high: bool,
    pub show_medium: bool,
    pub show_low: bool,
    pub show_safe: bool,
    pub show_unscored: bool,
    /// The filter text being edited.
    pub filter_input: String,
}

/// The UI state as plain values.
pub struct TuiView {
    pub mode: Mode,
    pub tab: Tab,
    pub status: Option<Seq<char>>,
    pub cursor: usize,
    pub filtered: Seq<usize>,
    pub findings_cursor: usize,
    pub findings_detail: bool,
    pub inventory_cursor: usize,
    pub inventory_detail: bool,
    pub inventory_filter: Seq<char>,
    pub cbom_cursor: usize,
    pub cbom_scroll: usize,
    pub show_critical: bool,
    pub show_high: bool,
    pub show_medium: bool,
    pub show_low: bool,
    pub show_safe: bool,
    pub show_unscored: bool,
    pub filter_input: Seq<char>,
}

impl View for TuiState {
    type V = TuiView;

    open spec fn view(&self) -> TuiView {
        TuiView {
            mode: self.mode,
            tab: self.tab,
            status: match self.status_message {
                Some(m) => Some(m@),
                None => None,
            },
            cursor: self.cursor,
            filtered: self.filtered_indices@,
            findings_cursor: self.findings_nav.cursor,
            findings_detail: self.findings_nav.detail_open,
            inventory_cursor: self.inventory_nav.cursor,
            inventory_detail: self.inventory_nav.detail_open,
            inventory_filter: self.inventory_nav.filter_active@,
            cbom_cursor: self.cbom_cursor,
            cbom_scroll: self.cbom_scroll,
            show_critical: self.show_critical,
            show_high: self.show_high,
            show_medium: self.show_medium,
            show_low: self.show_low,
            show_safe: self.show_safe,
            show_unscored: self.show_unscored,
            filter_input: self.filter_input@,
        }
    }
}

/// The tab after `t`, wrapping round.
pub open spec fn next_tab_of(t: Tab) -> Tab {
    match t {
        Tab::Summary => Tab::Inventory,
        Tab::Inventory => Tab::Findings,
        Tab::Findings => Tab::Cbom,
        Tab::Cbom => Tab::Summary,
    }
}

/// The tab before `t`, wrapping round.
pub open spec fn prev_tab_of(t: Tab) -> Tab {
    match t {
        Tab::Summary => Tab::Cbom,
        Tab::Inventory => Tab::Summary,
        Tab::Findings => Tab::Inventory,
        Tab::Cbom => Tab::Findings,
    }
}

/// The mode after the help overlay is toggled.
pub open spec fn help_toggled(m: Mode) -> Mode {
    if m == Mode::Help {
        Mode::Browsing
    } else {
        Mode::Help
    }
}

/// Control held, and no other modifier.
pub open spec fn control_only(m: Modifiers) -> bool {
    m.control && !m.shift && !m.alt && !m.other
}

pub open spec fn is_char(k: KeyPress, c: char) -> bool {
    k.code == KeyCode::Char(c)
}

pub open spec fn is_down(k: KeyPress) -> bool {
    is_char(k, 'j') || k.code == KeyCode::Down
}

pub open spec fn is_up(k: KeyPress) -> bool {
    is_char(k, 'k') || k.code == KeyCode::Up
}

pub open spec fn plain(a: Action) -> KeyOutcome {
    KeyOutcome { action: a, request: None }
}

pub open spec fn asking(r: StateRequest) -> KeyOutcome {
    KeyOutcome { action: Action::Redraw, request: Some(r) }
}

/// An unhandled key clears a status message, if one is shown.
pub open spec fn clear_status_step(s: TuiView) -> (TuiView, KeyOutcome) {
    if s.status is Some {
        (TuiView { status: None, ..s }, plain(Action::Redraw))
    } else {
        (s, plain(Action::Continue))
    }
}

pub open spec fn summary_step(s: TuiView, k: KeyPress) -> (TuiView, KeyOutcome) {
    clear_status_step(s)
}

pub open spec fn inventory_step(s: TuiView, k: KeyPress) -> (TuiView, KeyOutcome) {
    if is_down(k) {
        (s, asking(StateRequest::InventoryNext))
    } else if is_up(k) {
        (s, asking(StateRequest::InventoryPrev))
    } else if is_char(k, 'g') {
        (s, asking(StateRequest::InventoryFirst))
    } else if is_char(k, 'G') {
        (s, asking(StateRequest::InventoryLast))
    } else if k.code == KeyCode::PageDown {
        (s, asking(StateRequest::InventoryPageDown(10)))
    } else if k.code == KeyCode::PageUp {
        (s, asking(StateRequest::InventoryPageUp(10)))
    } else if k.code == KeyCode::Enter {
        (TuiView { inventory_detail: !s.inventory_detail, ..s }, plain(Action::Redraw))
    } else if is_char(k, 'l') {
        (TuiView { inventory_detail: true, ..s }, plain(Action::Redraw))
    } else if is_char(k, 'h') {
        if s.inventory_detail {
            (TuiView { inventory_detail: false, ..s }, plain(Action::Redraw))
        } else {
            (TuiView { tab: prev_tab_of(s.tab), ..s }, plain(Action::Redraw))
        }
    } else if is_char(k, '/') {
        (TuiView { mode: Mode::Filtering, filter_input: s.inventory_filter, ..s }, plain(Action::Redraw))
    } else {
        clear_status_step(s)
    }
}

/// The findings cursor after a page down: ten on, but not past the last
/// shown finding; unchanged when none is shown.
pub open spec fn page_down_cursor(s: TuiView) -> usize {
    if s.filtered.len() == 0 {
        s.cursor
    } else if s.cursor + 10 <= s.filtered.len() - 1 {
        (s.cursor + 10) as usize
    } else {
        (s.filtered.len() - 1) as usize
    }
}

pub open spec fn findings_step(s: TuiView, k: KeyPress) -> (TuiView, KeyOutcome) {
    if is_down(k) {
        (s, asking(StateRequest::NextFinding))
    } else if is_up(k) {
        (s, asking(StateRequest::PrevFinding))
    } else if is_char(k, 'g') {
        (s, asking(StateRequest::FirstFinding))
    } else if is_char(k, 'G') {
        (s, asking(StateRequest::LastFinding))
    } else if k.code == KeyCode::PageDown || k.code == KeyCode::PageUp {
        findings_page_step(s, k)
    } else {
        findings_detail_step(s, k)
    }
}

/// Paging through the findings.
pub open spec fn findings_page_step(s: TuiView, k: KeyPress) -> (TuiView, KeyOutcome) {
    if k.code == KeyCode::PageDown {
        if s.filtered.len() > 0 {
            (
                TuiView { cursor: page_down_cursor(s), findings_cursor: page_down_cursor(s), ..s },
                plain(Action::Redraw),
            )
        } else {
            (s, plain(Action::Redraw))
        }
    } else {
        let c = s.cursor.saturating_sub(10);
        (TuiView { cursor: c, findings_cursor: c, ..s }, plain(Action::Redraw))
    }
}

/// The findings tab's detail pane, filter and severity keys.
pub open spec fn findings_detail_step(s: TuiView, k: KeyPress) -> (TuiView, KeyOutcome) {
    if k.code == KeyCode::Enter {
        (TuiView { findings_detail: !s.findings_detail, ..s }, plain(Action::Redraw))
    } else if is_char(k, 'l') {
        (TuiView { findings_detail: true, ..s }, plain(Action::Redraw))
    } else if is_char(k, 'h') {
        if s.findings_detail {
            (TuiView { findings_detail: false, ..s }, plain(Action::Redraw))
        } else {
            (TuiView { tab: prev_tab_of(s.tab), ..s }, plain(Action::Redraw))
        }
    } else if is_char(k, '/') {
        (TuiView { mode: Mode::Filtering, ..s }, plain(Action::Redraw))
    } else {
        severity_toggle_step(s, k)
    }
}

/// The findings tab's severity toggles; any other key clears the status.
pub open spec fn severity_toggle_step(s: TuiView, k: KeyPress) -> (TuiView, KeyOutcome) {
    if is_char(k, 'c') {
        (TuiView { show_critical: !s.show_critical, ..s }, plain(Action::Redraw))
    } else if is_char(k, 'H') {
        (TuiView { show_high: !s.show_high, ..s }, plain(Action::Redraw))
    } else if is_char(k, 'm') {
        (TuiView { show_medium: !s.show_medium, ..s }, plain(Action::Redraw))
    } else if is_char(k, 'w') {
        (TuiView { show_low: !s.show_low, ..s }, plain(Action::Redraw))
    } else if is_char(k, 's') {
        (TuiView { show_safe: !s.show_safe, ..s }, plain(Action::Redraw))
    } else if is_char(k, 'u') {
        (TuiView { show_unscored: !s.show_unscored, ..s }, plain(Action::Redraw))
    } else {
        clear_status_step(s)
    }
}

pub open spec fn cbom_step(s: TuiView, k: KeyPress) -> (TuiView, KeyOutcome) {
    if is_down(k) {
        (TuiView { cbom_cursor: s.cbom_cursor.saturating_add(1), ..s }, plain(Action::Redraw))
    } else if is_up(k) {
        (TuiView { cbom_cursor: s.cbom_cursor.saturating_sub(1), ..s }, plain(Action::Redraw))
    } else if k.code == KeyCode::PageDown {
        (TuiView { cbom_scroll: s.cbom_scroll.saturating_add(10), ..s }, plain(Action::Redraw))
    } else if k.code == KeyCode::PageUp {
        (TuiView { cbom_scroll: s.cbom_scroll.saturating_sub(10), ..s }, plain(Action::Redraw))
    } else if is_char(k, 'e') || is_char(k, 'W') {
        (s, plain(Action::ExportCbom))
    } else {
        clear_status_step(s)
    }
}

/// A tab's own keys.
pub open spec fn tab_step(s: TuiView, k: KeyPress) -> (TuiView, KeyOutcome) {
    match s.tab {
        Tab::Summary => summary_step(s, k),
        Tab::Inventory => inventory_step(s, k),
        Tab::Findings => findings_step(s, k),
        Tab::Cbom => cbom_step(s, k),
    }
}

/// A key while browsing: Ctrl-C and `q`/Esc quit, other Control or Alt
/// combinations are ignored, `?` toggles help, `1`-`4` pick a tab, Tab and
/// BackTab cycle tabs (as `l` and `h` do where they are not tab keys);
/// anything else is the tab's own.
pub open spec fn browse_step(s: TuiView, k: KeyPress) -> (TuiView, KeyOutcome) {
    if control_only(k.modifiers) && is_char(k, 'c') {
        (s, plain(Action::Quit))
    } else if k.modifiers.control || k.modifiers.alt {
        (s, plain(Action::Continue))
    } else if is_char(k, 'q') || k.code == KeyCode::Esc {
        (s, plain(Action::Quit))
    } else if is_char(k, '?') {
        (TuiView { mode: help_toggled(s.mode), ..s }, plain(Action::Redraw))
    } else if is_char(k, '1') {
        (TuiView { tab: Tab::Summary, ..s }, plain(Action::Redraw))
    } else if is_char(k, '2') {
        (TuiView { tab: Tab::Inventory, ..s }, plain(Action::Redraw))
    } else if is_char(k, '3') {
        (TuiView { tab: Tab::Findings, ..s }, plain(Action::Redraw))
    } else if is_char(k, '4') {
        (TuiView { tab: Tab::Cbom, ..s }, plain(Action::Redraw))
    } else if k.code == KeyCode::Tab || (is_char(k, 'l') && s.tab != Tab::Findings && s.tab != Tab::Inventory) {
        (TuiView { tab: next_tab_of(s.tab), ..s }, plain(Action::Redraw))
    } else if k.code == KeyCode::BackTab || (is_char(k, 'h') && s.tab != Tab::Findings && s.tab != Tab::Inventory) {
        (TuiView { tab: prev_tab_of(s.tab), ..s }, plain(Action::Redraw))
    } else {
        tab_step(s, k)
    }
}

/// A key while filtering: Enter applies the filter (on the inventory tab
/// the lower-cased text becomes its filter and its cursor goes to the
/// top), Esc cancels, Backspace and plain characters edit the text.
pub open spec fn filter_step(s: TuiView, k: KeyPress) -> (TuiView, KeyOutcome) {
    match k.code {
        KeyCode::Enter => if s.tab == Tab::Inventory {
            (
                TuiView {
                    mode: Mode::Browsing,
                    inventory_filter: unicode_lower(s.filter_input),
                    inventory_cursor: 0,
                    ..s
                },
                plain(Action::Redraw),
            )
        } else {
            (s, asking(StateRequest::ApplyFilter))
        },
        KeyCode::Esc => (TuiView { mode: Mode::Browsing, ..s }, plain(Action::Redraw)),
        KeyCode::Backspace => (s, asking(StateRequest::PopFilterChar)),
        KeyCode::Char(c) => if k.modifiers.control || k.modifiers.alt {
            (s, plain(Action::Continue))
        } else {
            (s, asking(StateRequest::PushFilterChar(c)))
        },
        _ => (s, plain(Action::Continue)),
    }
}

/// A key while the help overlay is shown: `?`, Esc and `q` close it.
pub open spec fn help_step(s: TuiView, k: KeyPress) -> (TuiView, KeyOutcome) {
    if is_char(k, '?') || k.code == KeyCode::Esc || is_char(k, 'q') {
        (TuiView { mode: help_toggled(s.mode), ..s }, plain(Action::Redraw))
    } else {
        (s, plain(Action::Continue))
    }
}

/// The state and outcome a key gives.
pub open spec fn key_step(s: TuiView, k: KeyPress) -> (TuiView, KeyOutcome) {
    match s.mode {
        Mode::Browsing => browse_step(s, k),
        Mode::Filtering => filter_step(s, k),
        Mode::Help => help_step(s, k),
    }
}

/// Pressing `?` twice while browsing, with neither Control nor Alt held,
/// opens the help overlay and then closes it, leaving the UI as it was.
pub proof fn lemma_help_key_round_trip(s: TuiView, k: KeyPress)
    requires
        s.mode == Mode::Browsing,
        is_char(k, '?'),
        !k.modifiers.control,
        !k.modifiers.alt,
    ensures
        key_step(s, k).0.mode == Mode::Help,
        key_step(s, k).1.action == Action::Redraw,
        key_step(key_step(s, k).0, k).0 == s,
{
}

/// Tab then BackTab while browsing, with neither Control nor Alt held,
/// comes back to the tab started from.
pub proof fn lemma_tab_then_back_tab(s: TuiView, m: Modifiers)
    requires
        s.mode == Mode::Browsing,
        !m.control,
        !m.alt,
    ensures
        key_step(key_step(s, KeyPress { code: KeyCode::Tab, modifiers: m }).0, KeyPress { code: KeyCode::BackTab, modifiers: m }).0 == s,
{
}

/// Four presses of Tab while browsing cycle through every tab and back.
pub proof fn lemma_tab_cycles_through_four(s: TuiView, m: Modifiers)
    requires
        s.mode == Mode::Browsing,
        !m.control,
        !m.alt,
    ensures
        ({
            let k = KeyPress { code: KeyCode::Tab, modifiers: m };
            let s1 = key_step(s, k).0;
            let s2 = key_step(s1, k).0;
            let s3 = key_step(s2, k).0;
            &&& s1.tab != s.tab && s2.tab != s.tab && s3.tab != s.tab
            &&& key_step(s3, k).0 == s
        }),
{
}

impl TuiState {
    /// A browsing state on the summary tab showing the findings at
    /// `filtered_indices`, every severity shown, nothing selected or filtered.
    pub fn new(filtered_indices: Vec<usize>) -> (r: TuiState)
        ensures
            r@ == (TuiView {
                mode: Mode::Browsing,
                tab: Tab::Summary,
                status: None,
                cursor: 0,
                filtered: filtered_indices@,
                findings_cursor: 0,
                findings_detail: false,
                inventory_cursor: 0,
                inventory_detail: false,
                inventory_filter: Seq::empty(),
                cbom_cursor: 0,
                cbom_scroll: 0,
                show_critical: true,
                show_high: true,
                show_medium: true,
                show_low: true,
                show_safe: true,
                show_unscored: true,
                filter_input: Seq::empty(),
            }),
    {
        let r = TuiState {
            mode: Mode::Browsing,
            tab: Tab::Summary,
            status_message: None,
            cursor: 0,
            filtered_indices,
            findings_nav: FindingsNav { cursor: 0, detail_open: false },
            inventory_nav: InventoryNav { cursor: 0, detail_open: false, filter_active: String::new() },
            cbom_cursor: 0,
            cbom_scroll: 0,
            show_critical: true,
            show_high: true,
            show_medium: true,
            show_low: true,
            show_safe: true,
            show_unscored: true,
            filter_input: String::new(),
        };
        assert(r@.inventory_filter =~= Seq::<char>::empty());
        assert(r@.filter_input =~= Seq::<char>::empty());
        r
    }

    /// Show tab `t`.
    pub fn set_tab(&mut self, t: Tab)
        ensures
            final(self)@ == (TuiView { tab: t, ..old(self)@ }),
    {
        self.tab = t;
    }

    /// Show the next tab, wrapping round.
    pub fn next_tab(&mut self)
        ensures
            final(self)@ == (TuiView { tab: next_tab_of(old(self)@.tab), ..old(self)@ }),
    {
        self.tab = match self.tab {
            Tab::Summary => Tab::Inventory,
            Tab::Inventory => Tab::Findings,
            Tab::Findings => Tab::Cbom,
            Tab::Cbom => Tab::Summary,
        };
    }

    /// Show the previous tab, wrapping round.
    pub fn prev_tab(&mut self)
        ensures
            final(self)@ == (TuiView { tab: prev_tab_of(old(self)@.tab), ..old(self)@ }),
    {
        self.tab = match self.tab {
            Tab::Summary => Tab::Cbom,
            Tab::Inventory => Tab::Summary,
            Tab::Findings => Tab::Inventory,
            Tab::Cbom => Tab::Findings,
        };
    }

    /// Open the help overlay, or close it when it is open.
    pub fn toggle_help(&mut self)
        ensures
            final(self)@ == (TuiView { mode: help_toggled(old(self)@.mode), ..old(self)@ }),
    {
        self.mode = match self.mode {
            Mode::Help => Mode::Browsing,
            _ => Mode::Help,
        };
    }

    /// Start editing the findings filter.
    pub fn enter_filter_mode(&mut self)
        ensures
            final(self)@ == (TuiView { mode: Mode::Filtering, ..old(self)@ }),
    {
        self.mode = Mode::Filtering;
    }

    /// Stop editing the filter without applying it.
    pub fn exit_filter_mode_cancel(&mut self)
        ensures
            final(self)@ == (TuiView { mode: Mode::Browsing, ..old(self)@ }),
    {
        self.mode = Mode::Browsing;
    }
}

fn outcome(action: Action, request: Option<StateRequest>) -> (r: KeyOutcome)
    ensures
        r == (KeyOutcome { action, request }),
{
    KeyOutcome { action, request }
}

fn clear_status(state: &mut TuiState) -> (r: KeyOutcome)
    ensures
        (final(state)@, r) == clear_status_step(old(state)@),
{
    if state.status_message.is_some() {
        state.status_message = None;
        outcome(Action::Redraw, None)
    } else {
        outcome(Action::Continue, None)
    }
}

fn is_key_char(key: KeyPress, c: char) -> (b: bool)
    ensures
        b == is_char(key, c),
{
    match key.code {
        KeyCode::Char(k) => k == c,
        _ => false,
    }
}

fn is_key_down(key: KeyPress) -> (b: bool)
    ensures
        b == is_down(key),
{
    is_key_char(key, 'j') || matches!(key.code, KeyCode::Down)
}

fn is_key_up(key: KeyPress) -> (b: bool)
    ensures
        b == is_up(key),
{
    is_key_char(key, 'k') || matches!(key.code, KeyCode::Up)
}

fn handle_summary(state: &mut TuiState, key: KeyPress) -> (r: KeyOutcome)
    ensures
        (final(state)@, r) == summary_step(old(state)@, key),
{
    clear_status(state)
}

fn handle_inventory(state: &mut TuiState, key: KeyPress) -> (r: KeyOutcome)
    ensures
        (final(state)@, r) == inventory_step(old(state)@, key),
{
    if is_key_down(key) {
        outcome(Action::Redraw, Some(StateRequest::InventoryNext))
    } else if is_key_up(key) {
        outcome(Action::Redraw, Some(StateRequest::InventoryPrev))
    } else if is_key_char(key, 'g') {
        outcome(Action::Redraw, Some(StateRequest::InventoryFirst))
    } else if is_key_char(key, 'G') {
        outcome(Action::Redraw, Some(StateRequest::InventoryLast))
    } else if matches!(key.code, KeyCode::PageDown) {
        outcome(Action::Redraw, Some(StateRequest::InventoryPageDown(10)))
    } else if matches!(key.code, KeyCode::PageUp) {
        outcome(Action::Redraw, Some(StateRequest::InventoryPageUp(10)))
    } else if matches!(key.code, KeyCode::Enter) {
        state.inventory_nav.detail_open = !state.inventory_nav.detail_open;
        outcome(Action::Redraw, None)
    } else if is_key_char(key, 'l') {
        state.inventory_nav.detail_open = true;
        outcome(Action::Redraw, None)
    } else if is_key_char(key, 'h') {
        if state.inventory_nav.detail_open {
            state.inventory_nav.detail_open = false;
        } else {
            state.prev_tab();
        }
        outcome(Action::Redraw, None)
    } else if is_key_char(key, '/') {
        state.mode = Mode::Filtering;
        state.filter_input = owned(state.inventory_nav.filter_active.as_str());
        outcome(Action::Redraw, None)
    } else {
        clear_status(state)
    }
}

fn handle_findings(state: &mut TuiState, key: KeyPress) -> (r: KeyOutcome)
    ensures
        (final(state)@, r) == findings_step(old(state)@, key),
{
    if is_key_down(key) {
        outcome(Action::Redraw, Some(StateRequest::NextFinding))
    } else if is_key_up(key) {
        outcome(Action::Redraw, Some(StateRequest::PrevFinding))
    } else if is_key_char(key, 'g') {
        outcome(Action::Redraw, Some(StateRequest::FirstFinding))
    } else if is_key_char(key, 'G') {
        outcome(Action::Redraw, Some(StateRequest::LastFinding))
    } else if matches!(key.code, KeyCode::PageDown) || matches!(key.code, KeyCode::PageUp) {
        handle_findings_page(state, key)
    } else {
        handle_findings_detail(state, key)
    }
}

fn handle_findings_page(state: &mut TuiState, key: KeyPress) -> (r: KeyOutcome)
    requires
        key.code == KeyCode::PageDown || key.code == KeyCode::PageUp,
    ensures
        (final(state)@, r) == findings_page_step(old(state)@, key),
{
    if matches!(key.code, KeyCode::PageDown) {
        let len = state.filtered_indices.len();
        if len > 0 {
            let last = len - 1;
            let c = if last >= 10 && state.cursor <= last - 10 {
                state.cursor + 10
            } else {
                last
            };
            state.cursor = c;
            state.findings_nav.cursor = c;
        }
        outcome(Action::Redraw, None)
    } else {
        let c = state.cursor.saturating_sub(10);
        state.cursor = c;
        state.findings_nav.cursor = c;
        outcome(Action::Redraw, None)
    }
}

fn handle_findings_detail(state: &mut TuiState, key: KeyPress) -> (r: KeyOutcome)
    ensures
        (final(state)@, r) == findings_detail_step(old(state)@, key),
{
    if matches!(key.code, KeyCode::Enter) {
        state.findings_nav.detail_open = !state.findings_nav.detail_open;
        outcome(Action::Redraw, None)
    } else if is_key_char(key, 'l') {
        state.findings_nav.detail_open = true;
        outcome(Action::Redraw, None)
    } else if is_key_char(key, 'h') {
        if state.findings_nav.detail_open {
            state.findings_nav.detail_open = false;
        } else {
            state.prev_tab();
        }
        outcome(Action::Redraw, None)
    } else if is_key_char(key, '/') {
        state.enter_filter_mode();
        outcome(Action::Redraw, None)
    } else {
        handle_severity_toggle(state, key)
    }
}

fn handle_severity_toggle(state: &mut TuiState, key: KeyPress) -> (r: KeyOutcome)
    ensures
        (final(state)@, r) == severity_toggle_step(old(state)@, key),
{
    if is_key_char(key, 'c') {
        state.show_critical = !state.show_critical;
        outcome(Action::Redraw, None)
    } else if is_key_char(key, 'H') {
        state.show_high = !state.show_high;
        outcome(Action::Redraw, None)
    } else if is_key_char(key, 'm') {
        state.show_medium = !state.show_medium;
        outcome(Action::Redraw, None)
    } else if is_key_char(key, 'w') {
        state.show_low = !state.show_low;
        outcome(Action::Redraw, None)
    } else if is_key_char(key, 's') {
        state.show_safe = !state.show_safe;
        outcome(Action::Redraw, None)
    } else if is_key_char(key, 'u') {
        state.show_unscored = !state.show_unscored;
        outcome(Action::Redraw, None)
    } else {
        clear_status(state)
    }
}

fn handle_cbom(state: &mut TuiState, key: KeyPress) -> (r: KeyOutcome)
    ensures
        (final(state)@, r) == cbom_step(old(state)@, key),
{
    if is_key_down(key) {
        state.cbom_cursor = state.cbom_cursor.saturating_add(1);
        outcome(Action::Redraw, None)
    } else if is_key_up(key) {
        state.cbom_cursor = state.cbom_cursor.saturating_sub(1);
        outcome(Action::Redraw, None)
    } else if matches!(key.code, KeyCode::PageDown) {
        state.cbom_scroll = state.cbom_scroll.saturating_add(10);
        outcome(Action::Redraw, None)
    } else if matches!(key.code, KeyCode::PageUp) {
        state.cbom_scroll = state.cbom_scroll.saturating_sub(10);
        outcome(Action::Redraw, None)
    } else if is_key_char(key, 'e') || is_key_char(key, 'W') {
        outcome(Action::ExportCbom, None)
    } else {
        clear_status(state)
    }
}

fn handle_browsing(state: &mut TuiState, key: KeyPress) -> (r: KeyOutcome)
    ensures
        (final(state)@, r) == browse_step(old(state)@, key),
{
    let m = key.modifiers;
    if m.control && !m.shift && !m.alt && !m.other && is_key_char(key, 'c') {
        return outcome(Action::Quit, None);
    }
    if m.control || m.alt {
        return outcome(Action::Continue, None);
    }
    if is_key_char(key, 'q') || matches!(key.code, KeyCode::Esc) {
        outcome(Action::Quit, None)
    } else if is_key_char(key, '?') {
        state.toggle_help();
        outcome(Action::Redraw, None)
    } else if is_key_char(key, '1') {
        state.set_tab(Tab::Summary);
        outcome(Action::Redraw, None)
    } else if is_key_char(key, '2') {
        state.set_tab(Tab::Inventory);
        outcome(Action::Redraw, None)
    } else if is_key_char(key, '3') {
        state.set_tab(Tab::Findings);
        outcome(Action::Redraw, None)
    } else if is_key_char(key, '4') {
        state.set_tab(Tab::Cbom);
        outcome(Action::Redraw, None)
    } else if matches!(key.code, KeyCode::Tab) || (is_key_char(key, 'l') && state.tab != Tab::Findings
        && state.tab != Tab::Inventory) {
        state.next_tab();
        outcome(Action::Redraw, None)
    } else if matches!(key.code, KeyCode::BackTab) || (is_key_char(key, 'h') && state.tab != Tab::Findings
        && state.tab != Tab::Inventory) {
        state.prev_tab();
        outcome(Action::Redraw, None)
    } else {
        match state.tab {
            Tab::Summary => handle_summary(state, key),
            Tab::Inventory => handle_inventory(state, key),
            Tab::Findings => handle_findings(state, key),
            Tab::Cbom => handle_cbom(state, key),
        }
    }
}

fn handle_filtering(state: &mut TuiState, key: KeyPress) -> (r: KeyOutcome)
    ensures
        (final(state)@, r) == filter_step(old(state)@, key),
{
    match key.code {
        KeyCode::Enter => {
            if state.tab == Tab::Inventory {
                let text = owned(state.filter_input.as_str());
                state.mode = Mode::Browsing;
                state.inventory_nav.filter_active = to_lowercase(text.as_str());
                state.inventory_nav.cursor = 0;
                outcome(Action::Redraw, None)
            } else {
                outcome(Action::Redraw, Some(StateRequest::ApplyFilter))
            }
        },
        KeyCode::Esc => {
            state.exit_filter_mode_cancel();
            outcome(Action::Redraw, None)
        },
        KeyCode::Backspace => outcome(Action::Redraw, Some(StateRequest::PopFilterChar)),
        KeyCode::Char(c) => {
            if key.modifiers.control || key.modifiers.alt {
                outcome(Action::Continue, None)
            } else {
                outcome(Action::Redraw, Some(StateRequest::PushFilterChar(c)))
            }
        },
        _ => outcome(Action::Continue, None),
    }
}

fn handle_help(state: &mut TuiState, key: KeyPress) -> (r: KeyOutcome)
    ensures
        (final(state)@, r) == help_step(old(state)@, key),
{
    if is_key_char(key, '?') || matches!(key.code, KeyCode::Esc) || is_key_char(key, 'q') {
        state.toggle_help();
        outcome(Action::Redraw, None)
    } else {
        outcome(Action::Continue, None)
    }
}

/// Handle one key: change `state` as the key says and tell the event loop
/// what to do; where the change is one of the state's own navigation or
/// filtering operations, the outcome names it.
pub fn handle_key(state: &mut TuiState, key: KeyPress) -> (r: KeyOutcome)
    ensures
        (final(state)@, r) == key_step(old(state)@, key),
{
    match state.mode {
        Mode::Browsing => handle_browsing(state, key),
        Mode::Filtering => handle_filtering(state, key),
        Mode::Help => handle_help(state, key),
    }
}

} // verus!
