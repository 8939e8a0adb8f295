//! The session state machine: tabs, modes, search, selection, and the
//! transitions driven by key presses and background results.
//!
//! The executable state lives in [`App`]; its mathematical model is
//! [`AppView`], and every transition is specified by the `step` family of
//! specification functions. The caller's event loop feeds one [`AppEvent`] at
//! a time into [`App::handle`], renders, and performs the returned
//! [`Effect`], if any, as background work whose result comes back as another
//! event.

use crate::text::{matches_search, name_matches, pop_char, push_char, spec_dec, usize_to_dec};
use crate::types::{lemma_deep_view_push, CaskInfo, CaskInfoView, FormulaInfo, FormulaInfoView,
    PackageKind, RemoteData, RemoteDataView};
use vstd::prelude::*;
use vstd::string::StringExecFns;

verus! {

/// The four tabs of the session; cycling wraps around.
#[derive(Debug, Clone, Copy, PartialEq, Eq, Structural)]
pub enum Tab {
    InstalledFormulae,
    InstalledCasks,
    BrowseFormulae,
    BrowseCasks,
}

/// The tab after `t` in the cycle.
pub open spec fn next_tab(t: Tab) -> Tab {
    match t {
        Tab::InstalledFormulae => Tab::InstalledCasks,
        Tab::InstalledCasks => Tab::BrowseFormulae,
        Tab::BrowseFormulae => Tab::BrowseCasks,
        Tab::BrowseCasks => Tab::InstalledFormulae,
    }
}

/// The tab before `t` in the cycle.
pub open spec fn prev_tab(t: Tab) -> Tab {
    match t {
        Tab::InstalledFormulae => Tab::BrowseCasks,
        Tab::InstalledCasks => Tab::InstalledFormulae,
        Tab::BrowseFormulae => Tab::InstalledCasks,
        Tab::BrowseCasks => Tab::BrowseFormulae,
    }
}

impl Tab {
    /// The next tab in the cycle, wrapping around.
    pub fn next(self) -> (r: Self)
        ensures
            r == next_tab(self),
    {
        match self {
            Tab::InstalledFormulae => Tab::InstalledCasks,
            Tab::InstalledCasks => Tab::BrowseFormulae,
            Tab::BrowseFormulae => Tab::BrowseCasks,
            Tab::BrowseCasks => Tab::InstalledFormulae,
        }
    }

    /// The previous tab in the cycle, wrapping around.
    pub fn prev(self) -> (r: Self)
        ensures
            r == prev_tab(self),
    {
        match self {
            Tab::InstalledFormulae => Tab::BrowseCasks,
            Tab::InstalledCasks => Tab::InstalledFormulae,
            Tab::BrowseFormulae => Tab::InstalledCasks,
            Tab::BrowseCasks => Tab::BrowseFormulae,
        }
    }
}

/// A destructive operation captured at confirmation time; immutable once
/// constructed and carried through Confirm into Running.
#[derive(Debug, PartialEq)]
pub enum BrewAction {
    Install { name: String, kind: PackageKind },
    Uninstall { name: String, kind: PackageKind },
    Upgrade { name: String, kind: PackageKind },
}

/// Model of [`BrewAction`].
#[verifier::ext_equal]
pub enum BrewActionView {
    Install { name: Seq<char>, kind: PackageKind },
    Uninstall { name: Seq<char>, kind: PackageKind },
    Upgrade { name: Seq<char>, kind: PackageKind },
}

impl View for BrewAction {
    type V = BrewActionView;

    open spec fn view(&self) -> BrewActionView {
        match self {
            BrewAction::Install { name, kind } => BrewActionView::Install {
                name: name@,
                kind: *kind,
            },
            BrewAction::Uninstall { name, kind } => BrewActionView::Uninstall {
                name: name@,
                kind: *kind,
            },
            BrewAction::Upgrade { name, kind } => BrewActionView::Upgrade {
                name: name@,
                kind: *kind,
            },
        }
    }
}

/// The command verb of an action.
pub open spec fn verb_of(a: BrewActionView) -> Seq<char> {
    match a {
        BrewActionView::Install { .. } => "install"@,
        BrewActionView::Uninstall { .. } => "uninstall"@,
        BrewActionView::Upgrade { .. } => "upgrade"@,
    }
}

/// The package name an action operates on.
pub open spec fn name_of(a: BrewActionView) -> Seq<char> {
    match a {
        BrewActionView::Install { name, .. } => name,
        BrewActionView::Uninstall { name, .. } => name,
        BrewActionView::Upgrade { name, .. } => name,
    }
}

/// The package kind an action operates on.
pub open spec fn kind_of(a: BrewActionView) -> PackageKind {
    match a {
        BrewActionView::Install { kind, .. } => kind,
        BrewActionView::Uninstall { kind, .. } => kind,
        BrewActionView::Upgrade { kind, .. } => kind,
    }
}

impl BrewAction {
    /// The command verb for this action.
    pub fn verb(&self) -> (r: &str)
        ensures
            r@ == verb_of(self@),
    {
        match self {
            BrewAction::Install { .. } => "install",
            BrewAction::Uninstall { .. } => "uninstall",
            BrewAction::Upgrade { .. } => "upgrade",
        }
    }

    /// The package name this action operates on.
    pub fn name(&self) -> (r: &str)
        ensures
            r@ == name_of(self@),
    {
        match self {
            BrewAction::Install { name, .. } => name.as_str(),
            BrewAction::Uninstall { name, .. } => name.as_str(),
            BrewAction::Upgrade { name, .. } => name.as_str(),
        }
    }

    /// The package kind this action operates on.
    pub fn kind(&self) -> (r: PackageKind)
        ensures
            r == kind_of(self@),
    {
        match self {
            BrewAction::Install { kind, .. } => *kind,
            BrewAction::Uninstall { kind, .. } => *kind,
            BrewAction::Upgrade { kind, .. } => *kind,
        }
    }
}

impl Clone for BrewAction {
    /// An exact copy, field for field.
    fn clone(&self) -> (r: Self)
        ensures
            r == *self,
    {
        match self {
            BrewAction::Install { name, kind } => BrewAction::Install {
                name: name.clone(),
                kind: *kind,
            },
            BrewAction::Uninstall { name, kind } => BrewAction::Uninstall {
                name: name.clone(),
                kind: *kind,
            },
            BrewAction::Upgrade { name, kind } => BrewAction::Upgrade {
                name: name.clone(),
                kind: *kind,
            },
        }
    }
}

/// One key press, as the session consumes it. The interrupt combination
/// arrives as `CtrlChar('c')`; a control-modified character is never folded
/// into a plain `Char`.
#[derive(Debug, Clone, Copy, PartialEq, Eq)]
pub enum Key {
    Char(char),
    CtrlChar(char),
    Enter,
    Esc,
    Backspace,
    Tab,
    BackTab,
    Up,
    Down,
    Other,
}

/// The interaction mode; exactly one is active at a time.
#[derive(Debug, PartialEq)]
pub enum Mode {
    Normal,
    Search,
    Confirm { action: BrewAction },
    Running { action: BrewAction, output: Vec<String>, done: bool },
}

/// Model of [`Mode`].
#[verifier::ext_equal]
pub enum ModeView {
    Normal,
    Search,
    Confirm { action: BrewActionView },
    Running { action: BrewActionView, output: Seq<Seq<char>>, done: bool },
}

impl View for Mode {
    type V = ModeView;

    open spec fn view(&self) -> ModeView {
        match self {
            Mode::Normal => ModeView::Normal,
            Mode::Search => ModeView::Search,
            Mode::Confirm { action } => ModeView::Confirm { action: action@ },
            Mode::Running { action, output, done } => ModeView::Running {
                action: action@,
                output: output.deep_view(),
                done: *done,
            },
        }
    }
}

/// One event delivered to the session: a key press or the result of a
/// background task.
pub enum AppEvent {
    Key(Key),
    InstalledLoaded { formulae: Vec<String>, casks: Vec<String> },
    BrowseFormulaeLoaded(Vec<FormulaInfo>),
    BrowseCasksLoaded(Vec<CaskInfo>),
    BrowseFormulaeFailed(String),
    BrowseCasksFailed(String),
    ActionOutput(String),
    ActionDone(bool),
    Error(String),
    DebugLog(String),
}

/// Model of [`AppEvent`].
#[verifier::ext_equal]
pub enum AppEventView {
    Key(Key),
    InstalledLoaded { formulae: Seq<Seq<char>>, casks: Seq<Seq<char>> },
    BrowseFormulaeLoaded(Seq<FormulaInfoView>),
    BrowseCasksLoaded(Seq<CaskInfoView>),
    BrowseFormulaeFailed(Seq<char>),
    BrowseCasksFailed(Seq<char>),
    ActionOutput(Seq<char>),
    ActionDone(bool),
    Error(Seq<char>),
    DebugLog(Seq<char>),
}

impl View for AppEvent {
    type V = AppEventView;

    open spec fn view(&self) -> AppEventView {
        match self {
            AppEvent::Key(k) => AppEventView::Key(*k),
            AppEvent::InstalledLoaded { formulae, casks } => AppEventView::InstalledLoaded {
                formulae: formulae.deep_view(),
                casks: casks.deep_view(),
            },
            AppEvent::BrowseFormulaeLoaded(data) => AppEventView::BrowseFormulaeLoaded(
                data.deep_view(),
            ),
            AppEvent::BrowseCasksLoaded(data) => AppEventView::BrowseCasksLoaded(data.deep_view()),
            AppEvent::BrowseFormulaeFailed(msg) => AppEventView::BrowseFormulaeFailed(msg@),
            AppEvent::BrowseCasksFailed(msg) => AppEventView::BrowseCasksFailed(msg@),
            AppEvent::ActionOutput(line) => AppEventView::ActionOutput(line@),
            AppEvent::ActionDone(success) => AppEventView::ActionDone(*success),
            AppEvent::Error(msg) => AppEventView::Error(msg@),
            AppEvent::DebugLog(msg) => AppEventView::DebugLog(msg@),
        }
    }
}

/// Background work the caller must start after a transition: probe the
/// installed sets again, fetch one of the browse indexes, or run a confirmed
/// action.
#[derive(Debug, PartialEq)]
pub enum Effect {
    RefreshInstalled,
    FetchBrowseFormulae,
    FetchBrowseCasks,
    RunAction(BrewAction),
}

/// Model of [`Effect`].
#[verifier::ext_equal]
pub enum EffectView {
    RefreshInstalled,
    FetchBrowseFormulae,
    FetchBrowseCasks,
    RunAction(BrewActionView),
}

impl View for Effect {
    type V = EffectView;

    open spec fn view(&self) -> EffectView {
        match self {
            Effect::RefreshInstalled => EffectView::RefreshInstalled,
            Effect::FetchBrowseFormulae => EffectView::FetchBrowseFormulae,
            Effect::FetchBrowseCasks => EffectView::FetchBrowseCasks,
            Effect::RunAction(a) => EffectView::RunAction(a@),
        }
    }
}

impl DeepView for Effect {
    type V = EffectView;

    open spec fn deep_view(&self) -> EffectView {
        self.view()
    }
}

/// The whole session state. Background tasks own none of it; only the
/// foreground caller mutates it, one event at a time.
pub struct App {
    pub tab: Tab,
    pub mode: Mode,
    pub installed_formulae: Vec<String>,
    pub installed_casks: Vec<String>,
    pub browse_formulae: RemoteData<Vec<FormulaInfo>>,
    pub browse_casks: RemoteData<Vec<CaskInfo>>,
    pub selection: Option<usize>,
    pub search: String,
    pub should_quit: bool,
    pub debug_mode: bool,
    pub show_debug: bool,
    pub debug_logs: Vec<String>,
}

/// Model of [`App`].
#[verifier::ext_equal]
pub struct AppView {
    pub tab: Tab,
    pub mode: ModeView,
    pub installed_formulae: Seq<Seq<char>>,
    pub installed_casks: Seq<Seq<char>>,
    pub browse_formulae: RemoteDataView<Seq<FormulaInfoView>>,
    pub browse_casks: RemoteDataView<Seq<CaskInfoView>>,
    pub selection: Option<int>,
    pub search: Seq<char>,
    pub should_quit: bool,
    pub debug_mode: bool,
    pub show_debug: bool,
    pub debug_logs: Seq<Seq<char>>,
}

impl View for App {
    type V = AppView;

    open spec fn view(&self) -> AppView {
        AppView {
            tab: self.tab,
            mode: self.mode@,
            installed_formulae: self.installed_formulae.deep_view(),
            installed_casks: self.installed_casks.deep_view(),
            browse_formulae: self.browse_formulae@,
            browse_casks: self.browse_casks@,
            selection: match self.selection {
                Some(i) => Some(i as int),
                None => None,
            },
            search: self.search@,
            should_quit: self.should_quit,
            debug_mode: self.debug_mode,
            show_debug: self.show_debug,
            debug_logs: self.debug_logs.deep_view(),
        }
    }
}

/// The fresh session state.
pub open spec fn init_state(debug_mode: bool) -> AppView {
    AppView {
        tab: Tab::InstalledFormulae,
        mode: ModeView::Normal,
        installed_formulae: Seq::empty(),
        installed_casks: Seq::empty(),
        browse_formulae: RemoteDataView::NotLoaded,
        browse_casks: RemoteDataView::NotLoaded,
        selection: None,
        search: Seq::empty(),
        should_quit: false,
        debug_mode,
        show_debug: false,
        debug_logs: Seq::empty(),
    }
}

/// The identity keys of a list of formula-like records.
pub open spec fn formula_names(v: Seq<FormulaInfoView>) -> Seq<Seq<char>> {
    v.map_values(|f: FormulaInfoView| f.name)
}

/// The identity keys of a list of cask-like records.
pub open spec fn cask_tokens(v: Seq<CaskInfoView>) -> Seq<Seq<char>> {
    v.map_values(|c: CaskInfoView| c.token)
}

/// The unfiltered identity keys of the active tab. A browse tab whose data
/// has not arrived yields nothing, whatever the search text.
pub open spec fn raw_names_of(s: AppView) -> Seq<Seq<char>> {
    match s.tab {
        Tab::InstalledFormulae => s.installed_formulae,
        Tab::InstalledCasks => s.installed_casks,
        Tab::BrowseFormulae => match s.browse_formulae {
            RemoteDataView::Loaded(v) => formula_names(v),
            _ => Seq::empty(),
        },
        Tab::BrowseCasks => match s.browse_casks {
            RemoteDataView::Loaded(v) => cask_tokens(v),
            _ => Seq::empty(),
        },
    }
}

/// The search predicate for a given search text.
pub open spec fn search_pred(search: Seq<char>) -> spec_fn(Seq<char>) -> bool {
    |n: Seq<char>| matches_search(n, search)
}

/// The visible item list of the active tab: the case-insensitive substring
/// filter of the search text over the tab's identity keys.
pub open spec fn visible_of(s: AppView) -> Seq<Seq<char>> {
    raw_names_of(s).filter(search_pred(s.search))
}

/// The state with its selection re-derived against the visible list: the
/// first item when something is visible, else no selection.
pub open spec fn reset_selection(s: AppView) -> AppView {
    AppView { selection: if visible_of(s).len() > 0 { Some(0int) } else { None }, ..s }
}

/// The identity key the selection points at, if any.
pub open spec fn selected_name_of(s: AppView) -> Option<Seq<char>> {
    match s.selection {
        Some(i) => if 0 <= i < visible_of(s).len() {
            Some(visible_of(s)[i])
        } else {
            None
        },
        None => None,
    }
}

/// The state after moving the selection one item down, clamped to the end of
/// the visible list; a no-op on an empty list.
pub open spec fn select_next_state(s: AppView) -> AppView {
    let n = visible_of(s).len() as int;
    if n == 0 {
        s
    } else {
        let i = match s.selection {
            Some(i) => if i + 1 < n {
                i + 1
            } else {
                n - 1
            },
            None => 0int,
        };
        AppView { selection: Some(i), ..s }
    }
}

/// The state after moving the selection one item up, stopping at the first
/// item; a no-op on an empty list.
pub open spec fn select_prev_state(s: AppView) -> AppView {
    let n = visible_of(s).len() as int;
    if n == 0 {
        s
    } else {
        let i = match s.selection {
            Some(i) => if i >= 1 {
                i - 1
            } else {
                0int
            },
            None => 0int,
        };
        AppView { selection: Some(i), ..s }
    }
}

/// The first formula-like record with the given identity key.
pub open spec fn find_formula(v: Seq<FormulaInfoView>, name: Seq<char>) -> Option<FormulaInfoView>
    decreases v.len(),
{
    if v.len() == 0 {
        None
    } else if v.first().name == name {
        Some(v.first())
    } else {
        find_formula(v.drop_first(), name)
    }
}

/// The first cask-like record with the given identity key.
pub open spec fn find_cask(v: Seq<CaskInfoView>, name: Seq<char>) -> Option<CaskInfoView>
    decreases v.len(),
{
    if v.len() == 0 {
        None
    } else if v.first().token == name {
        Some(v.first())
    } else {
        find_cask(v.drop_first(), name)
    }
}

/// The formula-like record behind the selection, when the browse data is
/// loaded and the selected key names one.
pub open spec fn selected_formula_of(s: AppView) -> Option<FormulaInfoView> {
    match selected_name_of(s) {
        Some(name) => match s.browse_formulae {
            RemoteDataView::Loaded(v) => find_formula(v, name),
            _ => None,
        },
        None => None,
    }
}

/// The cask-like record behind the selection, when the browse data is loaded
/// and the selected key names one.
pub open spec fn selected_cask_of(s: AppView) -> Option<CaskInfoView> {
    match selected_name_of(s) {
        Some(name) => match s.browse_casks {
            RemoteDataView::Loaded(v) => find_cask(v, name),
            _ => None,
        },
        None => None,
    }
}

/// Entering a browse tab whose data was never requested marks it in flight
/// and asks for exactly one fetch; any other state asks for nothing. A slot
/// that failed stays failed, with its reason shown in place of the list:
/// re-entering the tab does not retry, only a new session does.
pub open spec fn browse_load(s: AppView) -> (AppView, Option<EffectView>) {
    match s.tab {
        Tab::BrowseFormulae => if s.browse_formulae is NotLoaded {
            (
                AppView { browse_formulae: RemoteDataView::Loading, ..s },
                Some(EffectView::FetchBrowseFormulae),
            )
        } else {
            (s, None)
        },
        Tab::BrowseCasks => if s.browse_casks is NotLoaded {
            (
                AppView { browse_casks: RemoteDataView::Loading, ..s },
                Some(EffectView::FetchBrowseCasks),
            )
        } else {
            (s, None)
        },
        _ => (s, None),
    }
}

/// Starting an install confirmation: only on a browse tab, and only when
/// something is selected.
pub open spec fn start_install(s: AppView) -> AppView {
    if s.tab is BrowseFormulae || s.tab is BrowseCasks {
        match selected_name_of(s) {
            Some(name) => {
                let kind = if s.tab is BrowseCasks {
                    PackageKind::Cask
                } else {
                    PackageKind::Formula
                };
                AppView {
                    mode: ModeView::Confirm { action: BrewActionView::Install { name, kind } },
                    ..s
                }
            },
            None => s,
        }
    } else {
        s
    }
}

/// Starting an uninstall confirmation: only on an installed tab, and only
/// when something is selected.
pub open spec fn start_uninstall(s: AppView) -> AppView {
    if s.tab is InstalledFormulae || s.tab is InstalledCasks {
        match selected_name_of(s) {
            Some(name) => {
                let kind = if s.tab is InstalledCasks {
                    PackageKind::Cask
                } else {
                    PackageKind::Formula
                };
                AppView {
                    mode: ModeView::Confirm { action: BrewActionView::Uninstall { name, kind } },
                    ..s
                }
            },
            None => s,
        }
    } else {
        s
    }
}

/// Starting an upgrade confirmation: only on an installed tab, and only when
/// something is selected.
pub open spec fn start_upgrade(s: AppView) -> AppView {
    if s.tab is InstalledFormulae || s.tab is InstalledCasks {
        match selected_name_of(s) {
            Some(name) => {
                let kind = if s.tab is InstalledCasks {
                    PackageKind::Cask
                } else {
                    PackageKind::Formula
                };
                AppView {
                    mode: ModeView::Confirm { action: BrewActionView::Upgrade { name, kind } },
                    ..s
                }
            },
            None => s,
        }
    } else {
        s
    }
}

/// One key press in Normal mode.
pub open spec fn normal_step(s: AppView, k: Key) -> (AppView, Option<EffectView>) {
    match k {
        Key::Char(c) => if c == 'q' {
            (AppView { should_quit: true, ..s }, None)
        } else if c == '?' {
            if s.debug_mode {
                (AppView { show_debug: !s.show_debug, ..s }, None)
            } else {
                (s, None)
            }
        } else if c == 'j' {
            (select_next_state(s), None)
        } else if c == 'k' {
            (select_prev_state(s), None)
        } else if c == '/' {
            (reset_selection(AppView { mode: ModeView::Search, search: Seq::empty(), ..s }), None)
        } else if c == 'r' {
            (s, Some(EffectView::RefreshInstalled))
        } else if c == 'i' {
            (start_install(s), None)
        } else if c == 'u' {
            (start_uninstall(s), None)
        } else if c == 'U' {
            (start_upgrade(s), None)
        } else {
            (s, None)
        },
        Key::Tab => browse_load(
            reset_selection(AppView { tab: next_tab(s.tab), search: Seq::empty(), ..s }),
        ),
        Key::BackTab => browse_load(
            reset_selection(AppView { tab: prev_tab(s.tab), search: Seq::empty(), ..s }),
        ),
        Key::Down => (select_next_state(s), None),
        Key::Up => (select_prev_state(s), None),
        _ => (s, None),
    }
}

/// One key press in Search mode: free-text editing, with the selection
/// re-derived after every change.
pub open spec fn search_step(s: AppView, k: Key) -> AppView {
    match k {
        Key::Esc => reset_selection(AppView { mode: ModeView::Normal, search: Seq::empty(), ..s }),
        Key::Enter => reset_selection(AppView { mode: ModeView::Normal, ..s }),
        Key::Backspace => reset_selection(
            AppView {
                search: if s.search.len() == 0 {
                    s.search
                } else {
                    s.search.drop_last()
                },
                ..s
            },
        ),
        Key::Char(c) => reset_selection(AppView { search: s.search.push(c), ..s }),
        _ => s,
    }
}

/// One key press in Confirm mode: only an explicit yes launches the pending
/// action; no and escape discard it.
pub open spec fn confirm_step(s: AppView, k: Key) -> (AppView, Option<EffectView>) {
    match s.mode {
        ModeView::Confirm { action } => match k {
            Key::Char(c) => if c == 'y' || c == 'Y' {
                (
                    AppView {
                        mode: ModeView::Running { action, output: Seq::empty(), done: false },
                        ..s
                    },
                    Some(EffectView::RunAction(action)),
                )
            } else if c == 'n' || c == 'N' {
                (AppView { mode: ModeView::Normal, ..s }, None)
            } else {
                (s, None)
            },
            Key::Esc => (AppView { mode: ModeView::Normal, ..s }, None),
            _ => (s, None),
        },
        _ => (s, None),
    }
}

/// One key press in Running mode: ignored until the action is done, then
/// escape, enter or the quit letter closes the log.
pub open spec fn running_step(s: AppView, k: Key) -> AppView {
    match s.mode {
        ModeView::Running { done, .. } => if done && (k is Esc || k is Enter || (
        k matches Key::Char(c) && c == 'q')) {
            AppView { mode: ModeView::Normal, ..s }
        } else {
            s
        },
        _ => s,
    }
}

/// One key press: the interrupt combination quits from any mode; every other
/// key goes to the active mode.
pub open spec fn key_step(s: AppView, k: Key) -> (AppView, Option<EffectView>) {
    if k matches Key::CtrlChar(c) && c == 'c' {
        (AppView { should_quit: true, ..s }, None)
    } else {
        match s.mode {
            ModeView::Normal => normal_step(s, k),
            ModeView::Search => (search_step(s, k), None),
            ModeView::Confirm { .. } => confirm_step(s, k),
            ModeView::Running { .. } => (running_step(s, k), None),
        }
    }
}

/// The whole transition relation: one event in, the next state and at most
/// one piece of background work out.
pub open spec fn step(s: AppView, e: AppEventView) -> (AppView, Option<EffectView>) {
    match e {
        AppEventView::Key(k) => key_step(s, k),
        AppEventView::InstalledLoaded { formulae, casks } => {
            let s1 = AppView {
                installed_formulae: formulae,
                installed_casks: casks,
                debug_logs: s.debug_logs.push(loaded_line(formulae.len(), casks.len())),
                ..s
            };
            (
                if s1.tab is InstalledFormulae || s1.tab is InstalledCasks {
                    reset_selection(s1)
                } else {
                    s1
                },
                None,
            )
        },
        AppEventView::BrowseFormulaeLoaded(data) => {
            let s1 = AppView {
                debug_logs: s.debug_logs.push(browse_formulae_line(data.len())),
                browse_formulae: RemoteDataView::Loaded(data),
                ..s
            };
            (
                if s1.tab is BrowseFormulae {
                    reset_selection(s1)
                } else {
                    s1
                },
                None,
            )
        },
        AppEventView::BrowseCasksLoaded(data) => {
            let s1 = AppView {
                debug_logs: s.debug_logs.push(browse_casks_line(data.len())),
                browse_casks: RemoteDataView::Loaded(data),
                ..s
            };
            (
                if s1.tab is BrowseCasks {
                    reset_selection(s1)
                } else {
                    s1
                },
                None,
            )
        },
        AppEventView::BrowseFormulaeFailed(msg) => (
            AppView {
                debug_logs: s.debug_logs.push(error_log_line(msg)),
                browse_formulae: RemoteDataView::Failed(msg),
                ..s
            },
            None,
        ),
        AppEventView::BrowseCasksFailed(msg) => (
            AppView {
                debug_logs: s.debug_logs.push(error_log_line(msg)),
                browse_casks: RemoteDataView::Failed(msg),
                ..s
            },
            None,
        ),
        AppEventView::ActionOutput(line) => (
            match s.mode {
                ModeView::Running { action, output, done } => AppView {
                    mode: ModeView::Running { action, output: output.push(line), done },
                    ..s
                },
                _ => s,
            },
            None,
        ),
        AppEventView::ActionDone(success) => {
            let s1 = match s.mode {
                ModeView::Running { action, output, done } => AppView {
                    mode: ModeView::Running {
                        action,
                        output: output.push(done_line(success)),
                        done: true,
                    },
                    ..s
                },
                _ => s,
            };
            (s1, Some(EffectView::RefreshInstalled))
        },
        AppEventView::Error(msg) => {
            let s1 = AppView { debug_logs: s.debug_logs.push(error_log_line(msg)), ..s };
            let s2 = match s1.mode {
                ModeView::Running { action, output, done } => AppView {
                    mode: ModeView::Running {
                        action,
                        output: output.push(error_output_line(msg)),
                        done: true,
                    },
                    ..s1
                },
                _ => s1,
            };
            (s2, None)
        },
        AppEventView::DebugLog(msg) => (
            AppView { debug_logs: s.debug_logs.push(msg), ..s },
            None,
        ),
    }
}

/// The status line appended to the action log when the action completes.
pub open spec fn done_line(success: bool) -> Seq<char> {
    if success {
        "✓ Done. Press any key to continue."@
    } else {
        "✗ Failed. Press any key to continue."@
    }
}

/// The debug-log line recording how many installed packages arrived.
pub open spec fn loaded_line(nf: nat, nc: nat) -> Seq<char> {
    "[INFO] Loaded "@ + spec_dec(nf) + " formulae, "@ + spec_dec(nc) + " casks"@
}

/// The debug-log line recording how many browse formulae arrived.
pub open spec fn browse_formulae_line(n: nat) -> Seq<char> {
    "[INFO] Loaded "@ + spec_dec(n) + " browse formulae"@
}

/// The debug-log line recording how many browse casks arrived.
pub open spec fn browse_casks_line(n: nat) -> Seq<char> {
    "[INFO] Loaded "@ + spec_dec(n) + " browse casks"@
}

/// The debug-log line recording a background failure.
pub open spec fn error_log_line(msg: Seq<char>) -> Seq<char> {
    "[ERROR] "@ + msg
}

/// The action-log line surfacing a background failure while Running.
pub open spec fn error_output_line(msg: Seq<char>) -> Seq<char> {
    "Error: "@ + msg
}

fn make_loaded_line(nf: usize, nc: usize) -> (r: String)
    ensures
        r@ == loaded_line(nf as nat, nc as nat),
{
    let mut s = "[INFO] Loaded ".to_owned();
    let d1 = usize_to_dec(nf);
    s.append(d1.as_str());
    s.append(" formulae, ");
    let d2 = usize_to_dec(nc);
    s.append(d2.as_str());
    s.append(" casks");
    proof {
        assert(s@ =~= loaded_line(nf as nat, nc as nat));
    }
    s
}

fn make_browse_formulae_line(n: usize) -> (r: String)
    ensures
        r@ == browse_formulae_line(n as nat),
{
    let mut s = "[INFO] Loaded ".to_owned();
    let d = usize_to_dec(n);
    s.append(d.as_str());
    s.append(" browse formulae");
    proof {
        assert(s@ =~= browse_formulae_line(n as nat));
    }
    s
}

fn make_browse_casks_line(n: usize) -> (r: String)
    ensures
        r@ == browse_casks_line(n as nat),
{
    let mut s = "[INFO] Loaded ".to_owned();
    let d = usize_to_dec(n);
    s.append(d.as_str());
    s.append(" browse casks");
    proof {
        assert(s@ =~= browse_casks_line(n as nat));
    }
    s
}

/// Filters a list of names by the search text, keeping the original order.
fn filter_names(names: &Vec<String>, search: &String) -> (r: Vec<String>)
    ensures
        r.deep_view() == names.deep_view().filter(search_pred(search@)),
{
    let mut out: Vec<String> = Vec::new();
    let mut i: usize = 0;
    proof {
        reveal(Seq::<_>::filter);
        assert(names.deep_view().take(0).filter(search_pred(search@)) =~= Seq::<
            Seq<char>,
        >::empty());
    }
    while i < names.len()
        invariant
            i <= names@.len(),
            names.deep_view().len() == names@.len(),
            out.deep_view() == names.deep_view().take(i as int).filter(search_pred(search@)),
        decreases names@.len() - i,
    {
        let ghost dv = names.deep_view();
        let ghost pred = search_pred(search@);
        let ghost out0 = out.deep_view();
        let keep = name_matches(&names[i], search);
        proof {
            assert(dv[i as int] == names@[i as int]@);
            assert(keep == pred(dv[i as int]));
        }
        if keep {
            let item = names[i].clone();
            let ghost prev = out;
            out.push(item);
            proof {
                lemma_deep_view_push(prev, out, names@[i as int]);
            }
        }
        proof {
            reveal(Seq::<_>::filter);
            let t1 = dv.take(i + 1);
            assert(t1.drop_last() =~= dv.take(i as int));
            assert(t1.last() == dv[i as int]);
            if pred(dv[i as int]) {
                assert(out.deep_view() =~= out0.push(dv[i as int]));
                assert(t1.filter(pred) =~= t1.drop_last().filter(pred).push(t1.last()));
            } else {
                assert(t1.filter(pred) =~= t1.drop_last().filter(pred));
            }
        }
        i = i + 1;
    }
    proof {
        assert(names.deep_view().take(names@.len() as int) =~= names.deep_view());
    }
    out
}

/// The identity keys of a list of formula-like records, in order.
fn formula_name_list(v: &Vec<FormulaInfo>) -> (r: Vec<String>)
    ensures
        r.deep_view() == formula_names(v.deep_view()),
{
    let mut out: Vec<String> = Vec::new();
    let mut i: usize = 0;
    while i < v.len()
        invariant
            i <= v@.len(),
            out@.len() == i,
            forall|k: int| 0 <= k < i ==> #[trigger] out.deep_view()[k] == v.deep_view()[k].name,
        decreases v@.len() - i,
    {
        let item = v[i].name.clone();
        let ghost prev = out;
        out.push(item);
        proof {
            lemma_deep_view_push(prev, out, v@[i as int].name);
            assert(out.deep_view()[i as int] == v@[i as int].name@);
            assert(v.deep_view()[i as int].name == v@[i as int].name@);
        }
        i = i + 1;
    }
    proof {
        assert(out.deep_view() =~= formula_names(v.deep_view()));
    }
    out
}

/// The identity keys of a list of cask-like records, in order.
fn cask_token_list(v: &Vec<CaskInfo>) -> (r: Vec<String>)
    ensures
        r.deep_view() == cask_tokens(v.deep_view()),
{
    let mut out: Vec<String> = Vec::new();
    let mut i: usize = 0;
    while i < v.len()
        invariant
            i <= v@.len(),
            out@.len() == i,
            forall|k: int| 0 <= k < i ==> #[trigger] out.deep_view()[k] == v.deep_view()[k].token,
        decreases v@.len() - i,
    {
        let item = v[i].token.clone();
        let ghost prev = out;
        out.push(item);
        proof {
            lemma_deep_view_push(prev, out, v@[i as int].token);
            assert(out.deep_view()[i as int] == v@[i as int].token@);
            assert(v.deep_view()[i as int].token == v@[i as int].token@);
        }
        i = i + 1;
    }
    proof {
        assert(out.deep_view() =~= cask_tokens(v.deep_view()));
    }
    out
}

impl App {
    /// A fresh session: installed tabs active, nothing loaded, no search.
    pub fn new(debug_mode: bool) -> (app: App)
        ensures
            app@ == init_state(debug_mode),
    {
        let app = App {
            tab: Tab::InstalledFormulae,
            mode: Mode::Normal,
            installed_formulae: Vec::new(),
            installed_casks: Vec::new(),
            browse_formulae: RemoteData::NotLoaded,
            browse_casks: RemoteData::NotLoaded,
            selection: None,
            search: String::new(),
            should_quit: false,
            debug_mode,
            show_debug: false,
            debug_logs: Vec::new(),
        };
        proof {
            assert(app@ =~~= init_state(debug_mode));
        }
        app
    }

    /// The filtered list of identity keys visible in the current tab.
    pub fn visible_items(&self) -> (r: Vec<String>)
        ensures
            r.deep_view() == visible_of(self@),
    {
        match self.tab {
            Tab::InstalledFormulae => filter_names(&self.installed_formulae, &self.search),
            Tab::InstalledCasks => filter_names(&self.installed_casks, &self.search),
            Tab::BrowseFormulae => match &self.browse_formulae {
                RemoteData::Loaded(v) => {
                    let names = formula_name_list(v);
                    filter_names(&names, &self.search)
                },
                _ => {
                    proof {
                        reveal(Seq::<_>::filter);
                        assert(visible_of(self@) =~= Seq::<Seq<char>>::empty());
                    }
                    Vec::new()
                },
            },
            Tab::BrowseCasks => match &self.browse_casks {
                RemoteData::Loaded(v) => {
                    let names = cask_token_list(v);
                    filter_names(&names, &self.search)
                },
                _ => {
                    proof {
                        reveal(Seq::<_>::filter);
                        assert(visible_of(self@) =~= Seq::<Seq<char>>::empty());
                    }
                    Vec::new()
                },
            },
        }
    }

    /// Moves the selection one item down, clamped to the end of the visible
    /// list; a no-op on an empty list.
    pub fn select_next(&mut self)
        ensures
            final(self)@ == select_next_state(old(self)@),
    {
        let n = self.visible_items().len();
        if n == 0 {
            return ;
        }
        let i = match self.selection {
            Some(i) => if i < n - 1 {
                i + 1
            } else {
                n - 1
            },
            None => 0,
        };
        self.selection = Some(i);
        proof {
            assert(final(self)@ =~~= select_next_state(old(self)@));
        }
    }

    /// Moves the selection one item up, stopping at the first item; a no-op
    /// on an empty list.
    pub fn select_prev(&mut self)
        ensures
            final(self)@ == select_prev_state(old(self)@),
    {
        let n = self.visible_items().len();
        if n == 0 {
            return ;
        }
        let i = match self.selection {
            Some(i) => if i >= 1 {
                i - 1
            } else {
                0
            },
            None => 0,
        };
        self.selection = Some(i);
        proof {
            assert(final(self)@ =~~= select_prev_state(old(self)@));
        }
    }

    /// Re-derives the selection against the visible list: first item when
    /// something is visible, else no selection.
    fn reset_list(&mut self)
        ensures
            final(self)@ == reset_selection(old(self)@),
    {
        let n = self.visible_items().len();
        if n > 0 {
            self.selection = Some(0);
        } else {
            self.selection = None;
        }
        proof {
            assert(final(self)@ =~~= reset_selection(old(self)@));
        }
    }

    /// The identity key the selection points at, if any.
    pub fn selected_name(&self) -> (r: Option<String>)
        ensures
            r.deep_view() == selected_name_of(self@),
    {
        let items = self.visible_items();
        match self.selection {
            Some(i) => if i < items.len() {
                let name = items[i].clone();
                proof {
                    assert(name@ == items.deep_view()[i as int]);
                }
                Some(name)
            } else {
                None
            },
            None => None,
        }
    }

    /// The formula-like record behind the selection, if the browse data is
    /// loaded and the selected key names one.
    pub fn selected_formula_info(&self) -> (r: Option<&FormulaInfo>)
        ensures
            r.deep_view() == selected_formula_of(self@),
    {
        let name = match self.selected_name() {
            Some(n) => n,
            None => {
                return None;
            },
        };
        match &self.browse_formulae {
            RemoteData::Loaded(v) => {
                let ghost dv = v.deep_view();
                proof {
                    assert(self@.browse_formulae == RemoteDataView::Loaded(dv));
                    assert(dv.skip(0) =~= dv);
                }
                let mut j: usize = 0;
                while j < v.len()
                    invariant
                        j <= v@.len(),
                        dv == v.deep_view(),
                        self.browse_formulae matches RemoteData::Loaded(w) && w == v,
                        self@.browse_formulae == RemoteDataView::Loaded(dv),
                        selected_name_of(self@) == Some(name@),
                        find_formula(dv, name@) == find_formula(dv.skip(j as int), name@),
                    decreases v@.len() - j,
                {
                    proof {
                        assert(dv.skip(j as int).first() == dv[j as int]);
                        assert(dv.skip(j as int).drop_first() =~= dv.skip(j as int + 1));
                    }
                    if v[j].name == name {
                        proof {
                            assert(find_formula(dv.skip(j as int), name@) == Some(dv[j as int]));
                        }
                        return Some(&v[j]);
                    }
                    j = j + 1;
                }
                proof {
                    assert(dv.skip(v@.len() as int).len() == 0);
                }
                None
            },
            _ => None,
        }
    }

    /// The cask-like record behind the selection, if the browse data is
    /// loaded and the selected key names one.
    pub fn selected_cask_info(&self) -> (r: Option<&CaskInfo>)
        ensures
            r.deep_view() == selected_cask_of(self@),
    {
        let name = match self.selected_name() {
            Some(n) => n,
            None => {
                return None;
            },
        };
        match &self.browse_casks {
            RemoteData::Loaded(v) => {
                let ghost dv = v.deep_view();
                proof {
                    assert(dv.skip(0) =~= dv);
                }
                let mut j: usize = 0;
                while j < v.len()
                    invariant
                        j <= v@.len(),
                        dv == v.deep_view(),
                        self.browse_casks matches RemoteData::Loaded(w) && w == v,
                        self@.browse_casks == RemoteDataView::Loaded(dv),
                        selected_name_of(self@) == Some(name@),
                        find_cask(dv, name@) == find_cask(dv.skip(j as int), name@),
                    decreases v@.len() - j,
                {
                    proof {
                        assert(dv.skip(j as int).first() == dv[j as int]);
                        assert(dv.skip(j as int).drop_first() =~= dv.skip(j as int + 1));
                    }
                    if v[j].token == name {
                        proof {
                            assert(find_cask(dv.skip(j as int), name@) == Some(dv[j as int]));
                        }
                        return Some(&v[j]);
                    }
                    j = j + 1;
                }
                proof {
                    assert(dv.skip(v@.len() as int).len() == 0);
                }
                None
            },
            _ => None,
        }
    }

    /// Marks a browse tab whose data was never requested as in flight and
    /// asks for its one fetch.
    fn trigger_browse_load_if_needed(&mut self) -> (eff: Option<Effect>)
        ensures
            final(self)@ == browse_load(old(self)@).0,
            eff.deep_view() == browse_load(old(self)@).1,
    {
        match self.tab {
            Tab::BrowseFormulae => {
                if matches!(self.browse_formulae, RemoteData::NotLoaded) {
                    self.browse_formulae = RemoteData::Loading;
                    proof {
                        assert(final(self)@ =~~= browse_load(old(self)@).0);
                    }
                    Some(Effect::FetchBrowseFormulae)
                } else {
                    None
                }
            },
            Tab::BrowseCasks => {
                if matches!(self.browse_casks, RemoteData::NotLoaded) {
                    self.browse_casks = RemoteData::Loading;
                    proof {
                        assert(final(self)@ =~~= browse_load(old(self)@).0);
                    }
                    Some(Effect::FetchBrowseCasks)
                } else {
                    None
                }
            },
            _ => None,
        }
    }

    /// One key press in Normal mode.
    fn handle_normal_key(&mut self, key: Key) -> (eff: Option<Effect>)
        ensures
            final(self)@ == normal_step(old(self)@, key).0,
            eff.deep_view() == normal_step(old(self)@, key).1,
    {
        match key {
            Key::Char(c) => {
                if c == 'q' {
                    self.should_quit = true;
                    None
                } else if c == '?' {
                    if self.debug_mode {
                        self.show_debug = !self.show_debug;
                    }
                    None
                } else if c == 'j' {
                    self.select_next();
                    None
                } else if c == 'k' {
                    self.select_prev();
                    None
                } else if c == '/' {
                    self.mode = Mode::Search;
                    self.search = String::new();
                    proof {
                        assert(self@ =~~= (AppView {
                            mode: ModeView::Search,
                            search: Seq::empty(),
                            ..old(self)@
                        }));
                    }
                    self.reset_list();
                    None
                } else if c == 'r' {
                    Some(Effect::RefreshInstalled)
                } else if c == 'i' {
                    match self.tab {
                        Tab::BrowseFormulae | Tab::BrowseCasks => {
                            match self.selected_name() {
                                Some(name) => {
                                    let kind = match self.tab {
                                        Tab::BrowseCasks => PackageKind::Cask,
                                        _ => PackageKind::Formula,
                                    };
                                    self.mode = Mode::Confirm {
                                        action: BrewAction::Install { name, kind },
                                    };
                                    proof {
                                        assert(final(self)@ =~~= start_install(old(self)@));
                                    }
                                    None
                                },
                                None => None,
                            }
                        },
                        _ => None,
                    }
                } else if c == 'u' {
                    match self.tab {
                        Tab::InstalledFormulae | Tab::InstalledCasks => {
                            match self.selected_name() {
                                Some(name) => {
                                    let kind = match self.tab {
                                        Tab::InstalledCasks => PackageKind::Cask,
                                        _ => PackageKind::Formula,
                                    };
                                    self.mode = Mode::Confirm {
                                        action: BrewAction::Uninstall { name, kind },
                                    };
                                    proof {
                                        assert(final(self)@ =~~= start_uninstall(old(self)@));
                                    }
                                    None
                                },
                                None => None,
                            }
                        },
                        _ => None,
                    }
                } else if c == 'U' {
                    match self.tab {
                        Tab::InstalledFormulae | Tab::InstalledCasks => {
                            match self.selected_name() {
                                Some(name) => {
                                    let kind = match self.tab {
                                        Tab::InstalledCasks => PackageKind::Cask,
                                        _ => PackageKind::Formula,
                                    };
                                    self.mode = Mode::Confirm {
                                        action: BrewAction::Upgrade { name, kind },
                                    };
                                    proof {
                                        assert(final(self)@ =~~= start_upgrade(old(self)@));
                                    }
                                    None
                                },
                                None => None,
                            }
                        },
                        _ => None,
                    }
                } else {
                    None
                }
            },
            Key::Tab => {
                self.tab = self.tab.next();
                self.search = String::new();
                proof {
                    assert(self@ =~~= (AppView {
                        tab: next_tab(old(self)@.tab),
                        search: Seq::empty(),
                        ..old(self)@
                    }));
                }
                self.reset_list();
                self.trigger_browse_load_if_needed()
            },
            Key::BackTab => {
                self.tab = self.tab.prev();
                self.search = String::new();
                proof {
                    assert(self@ =~~= (AppView {
                        tab: prev_tab(old(self)@.tab),
                        search: Seq::empty(),
                        ..old(self)@
                    }));
                }
                self.reset_list();
                self.trigger_browse_load_if_needed()
            },
            Key::Down => {
                self.select_next();
                None
            },
            Key::Up => {
                self.select_prev();
                None
            },
            _ => None,
        }
    }

    /// One key press in Search mode.
    fn handle_search_key(&mut self, key: Key)
        ensures
            final(self)@ == search_step(old(self)@, key),
    {
        match key {
            Key::Esc => {
                self.mode = Mode::Normal;
                self.search = String::new();
                proof {
                    assert(self@ =~~= (AppView {
                        mode: ModeView::Normal,
                        search: Seq::empty(),
                        ..old(self)@
                    }));
                }
                self.reset_list();
            },
            Key::Enter => {
                self.mode = Mode::Normal;
                proof {
                    assert(self@ =~~= (AppView { mode: ModeView::Normal, ..old(self)@ }));
                }
                self.reset_list();
            },
            Key::Backspace => {
                pop_char(&mut self.search);
                proof {
                    assert(self@ =~~= (AppView {
                        search: if old(self)@.search.len() == 0 {
                            old(self)@.search
                        } else {
                            old(self)@.search.drop_last()
                        },
                        ..old(self)@
                    }));
                }
                self.reset_list();
            },
            Key::Char(c) => {
                push_char(&mut self.search, c);
                proof {
                    assert(self@ =~~= (AppView { search: old(self)@.search.push(c), ..old(self)@ }));
                }
                self.reset_list();
            },
            _ => {},
        }
    }

    /// One key press in Confirm mode.
    fn handle_confirm_key(&mut self, key: Key) -> (eff: Option<Effect>)
        ensures
            final(self)@ == confirm_step(old(self)@, key).0,
            eff.deep_view() == confirm_step(old(self)@, key).1,
    {
        let action = match &self.mode {
            Mode::Confirm { action } => action.clone(),
            _ => {
                return None;
            },
        };
        match key {
            Key::Char(c) => {
                if c == 'y' || c == 'Y' {
                    let launched = action.clone();
                    self.mode = Mode::Running { action, output: Vec::new(), done: false };
                    proof {
                        assert(final(self)@ =~~= confirm_step(old(self)@, key).0);
                    }
                    Some(Effect::RunAction(launched))
                } else if c == 'n' || c == 'N' {
                    self.mode = Mode::Normal;
                    None
                } else {
                    None
                }
            },
            Key::Esc => {
                self.mode = Mode::Normal;
                None
            },
            _ => None,
        }
    }

    /// One key press in Running mode.
    fn handle_running_key(&mut self, key: Key)
        ensures
            final(self)@ == running_step(old(self)@, key),
    {
        let done = match &self.mode {
            Mode::Running { done, .. } => *done,
            _ => {
                return ;
            },
        };
        if done {
            match key {
                Key::Esc | Key::Enter => {
                    self.mode = Mode::Normal;
                },
                Key::Char(c) => {
                    if c == 'q' {
                        self.mode = Mode::Normal;
                    }
                },
                _ => {},
            }
        }
    }

    /// Applies one event to the session and hands back the background work it
    /// triggers, if any.
    pub fn handle(&mut self, event: AppEvent) -> (eff: Option<Effect>)
        ensures
            final(self)@ == step(old(self)@, event@).0,
            eff.deep_view() == step(old(self)@, event@).1,
    {
        match event {
            AppEvent::Key(key) => {
                if let Key::CtrlChar(c) = key {
                    if c == 'c' {
                        self.should_quit = true;
                        return None;
                    }
                }
                match &self.mode {
                    Mode::Normal => self.handle_normal_key(key),
                    Mode::Search => {
                        self.handle_search_key(key);
                        None
                    },
                    Mode::Confirm { .. } => self.handle_confirm_key(key),
                    Mode::Running { .. } => {
                        self.handle_running_key(key);
                        None
                    },
                }
            },
            AppEvent::InstalledLoaded { formulae, casks } => {
                let nf = formulae.len();
                let nc = casks.len();
                self.installed_formulae = formulae;
                self.installed_casks = casks;
                let line = make_loaded_line(nf, nc);
                let ghost prev_logs = self.debug_logs;
                self.debug_logs.push(line);
                proof {
                    lemma_deep_view_push(
                        prev_logs,
                        self.debug_logs,
                        self.debug_logs@[prev_logs@.len() as int],
                    );
                    assert(self@ =~~= (AppView {
                        installed_formulae: formulae.deep_view(),
                        installed_casks: casks.deep_view(),
                        debug_logs: old(self)@.debug_logs.push(loaded_line(nf as nat, nc as nat)),
                        ..old(self)@
                    }));
                }
                match self.tab {
                    Tab::InstalledFormulae | Tab::InstalledCasks => self.reset_list(),
                    _ => {},
                }
                proof {
                    assert(final(self)@ =~~= step(old(self)@, event@).0);
                }
                None
            },
            AppEvent::BrowseFormulaeLoaded(data) => {
                let n = data.len();
                let line = make_browse_formulae_line(n);
                let ghost prev_logs = self.debug_logs;
                self.debug_logs.push(line);
                self.browse_formulae = RemoteData::Loaded(data);
                proof {
                    lemma_deep_view_push(
                        prev_logs,
                        self.debug_logs,
                        self.debug_logs@[prev_logs@.len() as int],
                    );
                }
                match self.tab {
                    Tab::BrowseFormulae => self.reset_list(),
                    _ => {},
                }
                proof {
                    assert(final(self)@ =~~= step(old(self)@, event@).0);
                }
                None
            },
            AppEvent::BrowseCasksLoaded(data) => {
                let n = data.len();
                let line = make_browse_casks_line(n);
                let ghost prev_logs = self.debug_logs;
                self.debug_logs.push(line);
                self.browse_casks = RemoteData::Loaded(data);
                proof {
                    lemma_deep_view_push(
                        prev_logs,
                        self.debug_logs,
                        self.debug_logs@[prev_logs@.len() as int],
                    );
                }
                match self.tab {
                    Tab::BrowseCasks => self.reset_list(),
                    _ => {},
                }
                proof {
                    assert(final(self)@ =~~= step(old(self)@, event@).0);
                }
                None
            },
            AppEvent::BrowseFormulaeFailed(msg) => {
                let mut log_line = "[ERROR] ".to_owned();
                log_line.append(msg.as_str());
                let ghost prev_logs = self.debug_logs;
                self.debug_logs.push(log_line);
                self.browse_formulae = RemoteData::Failed(msg);
                proof {
                    lemma_deep_view_push(
                        prev_logs,
                        self.debug_logs,
                        self.debug_logs@[prev_logs@.len() as int],
                    );
                    assert(final(self)@ =~~= step(old(self)@, event@).0);
                }
                None
            },
            AppEvent::BrowseCasksFailed(msg) => {
                let mut log_line = "[ERROR] ".to_owned();
                log_line.append(msg.as_str());
                let ghost prev_logs = self.debug_logs;
                self.debug_logs.push(log_line);
                self.browse_casks = RemoteData::Failed(msg);
                proof {
                    lemma_deep_view_push(
                        prev_logs,
                        self.debug_logs,
                        self.debug_logs@[prev_logs@.len() as int],
                    );
                    assert(final(self)@ =~~= step(old(self)@, event@).0);
                }
                None
            },
            AppEvent::ActionOutput(line) => {
                if let Mode::Running { output, .. } = &mut self.mode {
                    let ghost prev_out: Vec<String> = *output;
                    output.push(line);
                    proof {
                        lemma_deep_view_push(prev_out, *output, (*output)@[prev_out@.len() as int]);
                    }
                }
                proof {
                    assert(final(self)@ =~~= step(old(self)@, event@).0);
                }
                None
            },
            AppEvent::ActionDone(success) => {
                if let Mode::Running { output, done, .. } = &mut self.mode {
                    let msg = if success {
                        "✓ Done. Press any key to continue.".to_owned()
                    } else {
                        "✗ Failed. Press any key to continue.".to_owned()
                    };
                    let ghost prev_out: Vec<String> = *output;
                    output.push(msg);
                    *done = true;
                    proof {
                        lemma_deep_view_push(prev_out, *output, (*output)@[prev_out@.len() as int]);
                    }
                }
                proof {
                    assert(final(self)@ =~~= step(old(self)@, event@).0);
                }
                Some(Effect::RefreshInstalled)
            },
            AppEvent::Error(msg) => {
                let mut log_line = "[ERROR] ".to_owned();
                log_line.append(msg.as_str());
                let ghost prev_logs = self.debug_logs;
                self.debug_logs.push(log_line);
                proof {
                    lemma_deep_view_push(
                        prev_logs,
                        self.debug_logs,
                        self.debug_logs@[prev_logs@.len() as int],
                    );
                }
                if let Mode::Running { output, done, .. } = &mut self.mode {
                    let mut out_line = "Error: ".to_owned();
                    out_line.append(msg.as_str());
                    let ghost prev_out: Vec<String> = *output;
                    output.push(out_line);
                    *done = true;
                    proof {
                        lemma_deep_view_push(prev_out, *output, (*output)@[prev_out@.len() as int]);
                    }
                }
                proof {
                    assert(final(self)@ =~~= step(old(self)@, event@).0);
                }
                None
            },
            AppEvent::DebugLog(msg) => {
                let ghost prev_logs = self.debug_logs;
                self.debug_logs.push(msg);
                proof {
                    lemma_deep_view_push(
                        prev_logs,
                        self.debug_logs,
                        self.debug_logs@[prev_logs@.len() as int],
                    );
                    assert(final(self)@ =~~= step(old(self)@, event@).0);
                }
                None
            },
        }
    }
}

/// The argument list handed to the external package tool for an action: the
/// verb, the cask flag when the action concerns a cask-like package, and the
/// package name last.
pub open spec fn action_args_of(a: BrewActionView) -> Seq<Seq<char>> {
    if kind_of(a) is Cask {
        seq![verb_of(a), "--cask"@, name_of(a)]
    } else {
        seq![verb_of(a), name_of(a)]
    }
}

/// Builds the external tool's argument list for an action.
pub fn action_args(action: &BrewAction) -> (r: Vec<String>)
    ensures
        r.deep_view() == action_args_of(action@),
{
    let mut out: Vec<String> = Vec::new();
    let ghost p0 = out;
    out.push(action.verb().to_owned());
    proof {
        lemma_deep_view_push(p0, out, out@[0]);
    }
    match action.kind() {
        PackageKind::Cask => {
            let ghost p1 = out;
            out.push("--cask".to_owned());
            proof {
                lemma_deep_view_push(p1, out, out@[1]);
            }
        },
        PackageKind::Formula => {},
    }
    let ghost p2 = out;
    out.push(action.name().to_owned());
    proof {
        lemma_deep_view_push(p2, out, out@[p2@.len() as int]);
        assert(out.deep_view() =~= action_args_of(action@));
    }
    out
}

/// The argument list for probing one installed set: the listing verb, the
/// kind flag, and the one-name-per-line flag.
pub open spec fn list_args_of(kind: PackageKind) -> Seq<Seq<char>> {
    seq![
        "list"@,
        if kind is Cask {
            "--cask"@
        } else {
            "--formula"@
        },
        "-1"@,
    ]
}

/// Builds the external tool's argument list for probing one installed set.
pub fn list_args(kind: PackageKind) -> (r: Vec<String>)
    ensures
        r.deep_view() == list_args_of(kind),
{
    let mut out: Vec<String> = Vec::new();
    let ghost p0 = out;
    out.push("list".to_owned());
    proof {
        lemma_deep_view_push(p0, out, out@[0]);
    }
    let ghost p1 = out;
    match kind {
        PackageKind::Cask => out.push("--cask".to_owned()),
        PackageKind::Formula => out.push("--formula".to_owned()),
    }
    proof {
        lemma_deep_view_push(p1, out, out@[1]);
    }
    let ghost p2 = out;
    out.push("-1".to_owned());
    proof {
        lemma_deep_view_push(p2, out, out@[2]);
        assert(out.deep_view() =~= list_args_of(kind));
    }
    out
}

/// The non-empty lines of a probe's output, in order: blank lines are
/// discarded, everything else is an installed package name.
pub open spec fn non_empty_of(lines: Seq<Seq<char>>) -> Seq<Seq<char>> {
    lines.filter(|l: Seq<char>| l.len() != 0)
}

/// Keeps the non-empty lines of a probe's output, in order.
pub fn non_empty_lines(lines: &Vec<String>) -> (r: Vec<String>)
    ensures
        r.deep_view() == non_empty_of(lines.deep_view()),
{
    let ghost pred = |l: Seq<char>| l.len() != 0;
    let mut out: Vec<String> = Vec::new();
    let mut i: usize = 0;
    proof {
        reveal(Seq::<_>::filter);
        assert(lines.deep_view().take(0).filter(pred) =~= Seq::<Seq<char>>::empty());
    }
    while i < lines.len()
        invariant
            i <= lines@.len(),
            pred == (|l: Seq<char>| l.len() != 0),
            out.deep_view() == lines.deep_view().take(i as int).filter(pred),
        decreases lines@.len() - i,
    {
        let ghost dv = lines.deep_view();
        let ghost out0 = out.deep_view();
        let keep = !lines[i].as_str().is_empty();
        proof {
            assert(dv[i as int] == lines@[i as int]@);
            assert(keep == pred(dv[i as int]));
        }
        if keep {
            let item = lines[i].clone();
            let ghost prev = out;
            out.push(item);
            proof {
                lemma_deep_view_push(prev, out, lines@[i as int]);
            }
        }
        proof {
            reveal(Seq::<_>::filter);
            let t1 = dv.take(i + 1);
            assert(t1.drop_last() =~= dv.take(i as int));
            assert(t1.last() == dv[i as int]);
            if pred(dv[i as int]) {
                assert(out.deep_view() =~= out0.push(dv[i as int]));
                assert(t1.filter(pred) =~= t1.drop_last().filter(pred).push(t1.last()));
            } else {
                assert(t1.filter(pred) =~= t1.drop_last().filter(pred));
            }
        }
        i = i + 1;
    }
    proof {
        assert(lines.deep_view().take(lines@.len() as int) =~= lines.deep_view());
    }
    out
}

proof fn lemma_filter_all(names: Seq<Seq<char>>, pred: spec_fn(Seq<char>) -> bool)
    requires
        forall|n: Seq<char>| #[trigger] pred(n),
    ensures
        names.filter(pred) == names,
    decreases names.len(),
{
    reveal(Seq::<_>::filter);
    if names.len() == 0 {
        assert(names.filter(pred) =~= names);
    } else {
        lemma_filter_all(names.drop_last(), pred);
        assert(names.filter(pred) =~= names.drop_last().push(names.last()));
        assert(names.drop_last().push(names.last()) =~= names);
    }
}

/// Law: an empty search text filters nothing — the visible list is exactly
/// the active tab's unfiltered identity keys.
pub proof fn lemma_visible_empty_search(s: AppView)
    requires
        s.search.len() == 0,
    ensures
        visible_of(s) == raw_names_of(s),
{
    let pred = search_pred(s.search);
    assert forall|n: Seq<char>| #[trigger] pred(n) by {
        assert(matches_search(n, s.search));
    }
    lemma_filter_all(raw_names_of(s), pred);
}

/// Law: switching away from a tab and straight back, with no data event in
/// between, keeps every underlying list; the search text ends cleared, and
/// the selection is re-derived — the first visible item, or none when
/// nothing is visible.
pub proof fn lemma_tab_round_trip(s: AppView)
    requires
        s.mode is Normal,
    ensures
        ({
            let s1 = step(s, AppEventView::Key(Key::Tab)).0;
            let s2 = step(s1, AppEventView::Key(Key::BackTab)).0;
            &&& s2.tab == s.tab
            &&& s2.mode == s.mode
            &&& s2.installed_formulae == s.installed_formulae
            &&& s2.installed_casks == s.installed_casks
            &&& (s.browse_formulae matches RemoteDataView::Loaded(v) ==> s2.browse_formulae
                == RemoteDataView::Loaded(v))
            &&& (s.browse_casks matches RemoteDataView::Loaded(v) ==> s2.browse_casks
                == RemoteDataView::Loaded(v))
            &&& s2.search == Seq::<char>::empty()
            &&& s2.selection == (if visible_of(s2).len() > 0 {
                Some(0int)
            } else {
                None::<int>
            })
        }),
{
}

/// Law: the only transition that launches an action leaves Confirm on an
/// explicit yes; it enters Running with an empty log and the done flag down,
/// and carries the confirmed action unchanged.
pub proof fn lemma_confirm_launch(s: AppView, e: AppEventView)
    ensures
        step(s, e).1 matches Some(EffectView::RunAction(a)) ==> {
            &&& s.mode == ModeView::Confirm { action: a }
            &&& (e matches AppEventView::Key(k) && (k matches Key::Char(c) && (c == 'y' || c
                == 'Y')))
            &&& step(s, e).0.mode == ModeView::Running {
                action: a,
                output: Seq::empty(),
                done: false,
            }
        },
{
}

/// Law: no transition enters Running from any mode but Confirm or Running
/// itself; Confirm is reached only from Normal.
pub proof fn lemma_running_only_from_confirm(s: AppView, e: AppEventView)
    ensures
        step(s, e).0.mode is Running ==> (s.mode is Running || s.mode is Confirm),
        step(s, e).0.mode is Confirm ==> (s.mode is Confirm || s.mode is Normal),
{
}

/// Law: a yes key outside Confirm mode launches nothing, and in Normal mode
/// it changes nothing at all.
pub proof fn lemma_yes_outside_confirm(s: AppView)
    requires
        !(s.mode is Confirm),
    ensures
        step(s, AppEventView::Key(Key::Char('y'))).1 is None,
        s.mode is Normal ==> step(s, AppEventView::Key(Key::Char('y'))).0 == s,
{
}

/// Law: while an action runs and is not done, every key but the interrupt
/// combination is a no-op and triggers nothing.
pub proof fn lemma_running_ignores_keys(s: AppView, k: Key)
    requires
        s.mode matches ModeView::Running { done: false, .. },
        !(k matches Key::CtrlChar(c) && c == 'c'),
    ensures
        step(s, AppEventView::Key(k)).0 == s,
        step(s, AppEventView::Key(k)).1 is None,
{
}

/// Law: the running log only grows — whatever event arrives, if the session
/// is still Running afterwards, the old log is a prefix of the new one.
pub proof fn lemma_log_append_only(s: AppView, e: AppEventView)
    ensures
        s.mode matches ModeView::Running { output: out0, .. } ==> (step(
            s,
            e,
        ).0.mode matches ModeView::Running { output: out1, .. } ==> out0.is_prefix_of(out1)),
{
    if let ModeView::Running { output: out0, .. } = s.mode {
        let s2 = step(s, e).0;
        if let ModeView::Running { output: out1, .. } = s2.mode {
            assert(out0.is_prefix_of(out0)) by {
                assert(out0.take(out0.len() as int) =~= out0);
            }
            if out1.len() == out0.len() + 1 && out1.take(out0.len() as int) =~= out0 {
                assert(out0.is_prefix_of(out1));
            }
            match e {
                AppEventView::ActionOutput(line) => {
                    assert(out1 == out0.push(line));
                    assert(out1.take(out0.len() as int) =~= out0);
                },
                AppEventView::ActionDone(success) => {
                    assert(out1 == out0.push(done_line(success)));
                    assert(out1.take(out0.len() as int) =~= out0);
                },
                AppEventView::Error(msg) => {
                    assert(out1 == out0.push(error_output_line(msg)));
                    assert(out1.take(out0.len() as int) =~= out0);
                },
                _ => {
                    assert(out1 == out0);
                },
            }
        }
    }
}

/// Law: the done flag latches — once an action's completion is recorded,
/// no event clears it while the session stays in Running.
pub proof fn lemma_done_latches(s: AppView, e: AppEventView)
    ensures
        s.mode matches ModeView::Running { done: true, .. } ==> (step(
            s,
            e,
        ).0.mode matches ModeView::Running { done: d, .. } ==> d),
{
}

/// Law: a failed browse fetch is recorded as the affected slot's failure,
/// shown in place of its list: the slot holds the reason, nothing is visible
/// on that tab, every other slot and the rest of the session are untouched,
/// the session does not quit, and no further work is triggered.
pub proof fn lemma_fetch_failure_marks_slot(s: AppView, msg: Seq<char>)
    ensures
        ({
            let r = step(s, AppEventView::BrowseFormulaeFailed(msg));
            &&& r.0.browse_formulae == RemoteDataView::<Seq<FormulaInfoView>>::Failed(msg)
            &&& r.0.browse_casks == s.browse_casks
            &&& r.0.installed_formulae == s.installed_formulae
            &&& r.0.installed_casks == s.installed_casks
            &&& r.0.mode == s.mode
            &&& r.0.tab == s.tab
            &&& !r.0.should_quit || s.should_quit
            &&& (r.0.tab is BrowseFormulae ==> visible_of(r.0).len() == 0)
            &&& r.1 is None
        }),
        ({
            let r = step(s, AppEventView::BrowseCasksFailed(msg));
            &&& r.0.browse_casks == RemoteDataView::<Seq<CaskInfoView>>::Failed(msg)
            &&& r.0.browse_formulae == s.browse_formulae
            &&& r.0.mode == s.mode
            &&& (r.0.tab is BrowseCasks ==> visible_of(r.0).len() == 0)
            &&& r.1 is None
        }),
{
    reveal(Seq::<_>::filter);
    let f = step(s, AppEventView::BrowseFormulaeFailed(msg)).0;
    if f.tab is BrowseFormulae {
        assert(raw_names_of(f) =~= Seq::<Seq<char>>::empty());
        assert(visible_of(f) =~= Seq::<Seq<char>>::empty());
    }
    let c = step(s, AppEventView::BrowseCasksFailed(msg)).0;
    if c.tab is BrowseCasks {
        assert(raw_names_of(c) =~= Seq::<Seq<char>>::empty());
        assert(visible_of(c) =~= Seq::<Seq<char>>::empty());
    }
}

/// Law: a completion event records the action as done, appends its status
/// line, and triggers exactly one re-probe of the installed sets.
pub proof fn lemma_completion_records_done(s: AppView, success: bool)
    requires
        s.mode matches ModeView::Running { done: false, .. },
    ensures
        step(s, AppEventView::ActionDone(success)).0.mode matches ModeView::Running {
            done: true,
            ..
        },
        step(s, AppEventView::ActionDone(success)).1 == Some(EffectView::RefreshInstalled),
{
}

} // verus!
