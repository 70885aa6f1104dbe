//! Tabs, selection state of the terminal views, and the requests the terminal
//! front end sends to the package manager.
use vstd::prelude::*;

verus! {

/// A tab of the terminal front end.
#[derive(Debug, Clone, Copy, PartialEq, Eq, Structural)]
pub enum Tab {
    /// Local WebAssembly files.
    Local,
    /// Stored components.
    Components,
    /// WIT interfaces.
    Interfaces,
    /// Package search.
    Search,
    /// Settings and state information.
    Settings,
    /// Log file.
    Log,
}

/// The position of a tab in the tab bar.
pub open spec fn tab_index(t: Tab) -> int {
    match t {
        Tab::Local => 0,
        Tab::Components => 1,
        Tab::Interfaces => 2,
        Tab::Search => 3,
        Tab::Settings => 4,
        Tab::Log => 5,
    }
}

/// The tab at position `i` of the tab bar (`i` taken modulo 6).
pub open spec fn tab_at(i: int) -> Tab {
    let k = i % 6;
    if k == 0 {
        Tab::Local
    } else if k == 1 {
        Tab::Components
    } else if k == 2 {
        Tab::Interfaces
    } else if k == 3 {
        Tab::Search
    } else if k == 4 {
        Tab::Settings
    } else {
        Tab::Log
    }
}

/// The tab after `t`, wrapping from the last to the first.
pub open spec fn spec_tab_next(t: Tab) -> Tab {
    tab_at(tab_index(t) + 1)
}

/// The tab before `t`, wrapping from the first to the last.
pub open spec fn spec_tab_prev(t: Tab) -> Tab {
    tab_at(tab_index(t) + 5)
}

impl Tab {
    /// All tabs in display order.
    pub fn all() -> (r: Vec<Tab>)
        ensures
            r@.len() == 6,
            forall|i: int| 0 <= i < 6 ==> r@[i] == tab_at(i),
    {
        let mut v: Vec<Tab> = Vec::new();
        v.push(Tab::Local);
        v.push(Tab::Components);
        v.push(Tab::Interfaces);
        v.push(Tab::Search);
        v.push(Tab::Settings);
        v.push(Tab::Log);
        v
    }

    /// The title shown in the tab bar.
    pub fn title(&self) -> (r: &'static str)
        ensures
            r@ == match *self {
                Tab::Local => "Local [1]"@,
                Tab::Components => "Components [2]"@,
                Tab::Interfaces => "Interfaces [3]"@,
                Tab::Search => "Search [4]"@,
                Tab::Settings => "Settings [5]"@,
                Tab::Log => "Log [6]"@,
            },
    {
        match self {
            Tab::Local => "Local [1]",
            Tab::Components => "Components [2]",
            Tab::Interfaces => "Interfaces [3]",
            Tab::Search => "Search [4]",
            Tab::Settings => "Settings [5]",
            Tab::Log => "Log [6]",
        }
    }

    /// The following tab, wrapping around.
    pub fn next(&self) -> (r: Tab)
        ensures
            r == spec_tab_next(*self),
    {
        match self {
            Tab::Local => Tab::Components,
            Tab::Components => Tab::Interfaces,
            Tab::Interfaces => Tab::Search,
            Tab::Search => Tab::Settings,
            Tab::Settings => Tab::Log,
            Tab::Log => Tab::Local,
        }
    }

    /// The preceding tab, wrapping around.
    pub fn prev(&self) -> (r: Tab)
        ensures
            r == spec_tab_prev(*self),
    {
        match self {
            Tab::Local => Tab::Log,
            Tab::Components => Tab::Local,
            Tab::Interfaces => Tab::Components,
            Tab::Search => Tab::Interfaces,
            Tab::Settings => Tab::Search,
            Tab::Log => Tab::Settings,
        }
    }
}

/// Moving to the next tab and back returns to the same tab, and so does
/// moving back and then forward.
pub proof fn lemma_tab_next_prev(t: Tab)
    ensures
        spec_tab_prev(spec_tab_next(t)) == t,
        spec_tab_next(spec_tab_prev(t)) == t,
{
}

/// The index selected after moving down a list of `len` entries from
/// `selected` (nothing selected counts as the first entry), wrapping to the top.
pub open spec fn wrap_next(selected: Option<usize>, len: usize) -> Option<usize> {
    if len == 0 {
        selected
    } else {
        let current = match selected {
            Some(c) => c,
            None => 0,
        };
        Some(if current >= len - 1 {
            0
        } else {
            (current + 1) as usize
        })
    }
}

/// The index selected after moving up a list of `len` entries from
/// `selected` (nothing selected counts as the first entry), wrapping to the bottom.
pub open spec fn wrap_prev(selected: Option<usize>, len: usize) -> Option<usize> {
    if len == 0 {
        selected
    } else {
        let current = match selected {
            Some(c) => c,
            None => 0,
        };
        Some(if current == 0 {
            (len - 1) as usize
        } else {
            (current - 1) as usize
        })
    }
}

/// The index selected after moving down from `selected` in a list of `len`
/// entries by modular arithmetic.
pub open spec fn modular_next(selected: Option<usize>, len: usize) -> Option<usize> {
    if len == 0 {
        selected
    } else {
        let current = match selected {
            Some(c) => c,
            None => 0,
        };
        Some(((current + 1) % (len as int)) as usize)
    }
}

/// Moving down then up, or up then down, in a non-empty list returns to a
/// selected entry.
pub proof fn lemma_wrap_round_trip(i: usize, len: usize)
    requires
        i < len,
    ensures
        wrap_prev(wrap_next(Some(i), len), len) == Some(i),
        wrap_next(wrap_prev(Some(i), len), len) == Some(i),
        modular_next(Some(i), len) == wrap_next(Some(i), len),
{
    if i + 1 == len {
        assert((i + 1) % (len as int) == 0) by (nonlinear_arith)
            requires
                i + 1 == len,
                len > 0,
        ;
    } else {
        assert((i + 1) % (len as int) == i + 1) by (nonlinear_arith)
            requires
                i + 1 < len,
        ;
    }
}

/// State for the packages list view.
#[derive(Debug, Clone)]
pub struct PackagesViewState {
    /// The selected row, if any
    pub selected: Option<usize>,
    /// Current filter query
    pub filter_query: String,
    /// Whether filter mode is active
    pub filter_active: bool,
}

impl PackagesViewState {
    /// Creates a new packages view state with the first row selected.
    pub fn new() -> (r: Self)
        ensures
            r.selected == Some(0usize),
            r.filter_query@.len() == 0,
            !r.filter_active,
    {
        PackagesViewState { selected: Some(0), filter_query: String::new(), filter_active: false }
    }

    /// The selected row.
    pub fn selected(&self) -> (r: Option<usize>)
        ensures
            r == self.selected,
    {
        self.selected
    }

    /// Move the selection down a list of `len` rows, wrapping to the top.
    pub fn select_next(&mut self, len: usize)
        ensures
            final(self).selected == wrap_next(old(self).selected, len),
            final(self).filter_query == old(self).filter_query,
            final(self).filter_active == old(self).filter_active,
    {
        if len == 0 {
            return;
        }
        let current = match self.selected {
            Some(c) => c,
            None => 0,
        };
        let next = if current >= len - 1 {
            0
        } else {
            current + 1
        };
        self.selected = Some(next);
    }

    /// Move the selection up a list of `len` rows, wrapping to the bottom.
    pub fn select_prev(&mut self, len: usize)
        ensures
            final(self).selected == wrap_prev(old(self).selected, len),
            final(self).filter_query == old(self).filter_query,
            final(self).filter_active == old(self).filter_active,
    {
        if len == 0 {
            return;
        }
        let current = match self.selected {
            Some(c) => c,
            None => 0,
        };
        let prev = if current == 0 {
            len - 1
        } else {
            current - 1
        };
        self.selected = Some(prev);
    }
}

/// State for the package search view.
#[derive(Debug, Clone)]
pub struct SearchViewState {
    /// The selected row, if any
    pub selected: Option<usize>,
    /// Current search query
    pub search_query: String,
    /// Whether search input is active
    pub search_active: bool,
}

impl SearchViewState {
    /// Creates a new search view state with the first row selected.
    pub fn new() -> (r: Self)
        ensures
            r.selected == Some(0usize),
            r.search_query@.len() == 0,
            !r.search_active,
    {
        SearchViewState { selected: Some(0), search_query: String::new(), search_active: false }
    }

    /// The selected row.
    pub fn selected(&self) -> (r: Option<usize>)
        ensures
            r == self.selected,
    {
        self.selected
    }

    /// Move the selection down a list of `len` rows, wrapping to the top.
    pub fn select_next(&mut self, len: usize)
        ensures
            final(self).selected == wrap_next(old(self).selected, len),
            final(self).search_query == old(self).search_query,
            final(self).search_active == old(self).search_active,
    {
        if len == 0 {
            return;
        }
        let current = match self.selected {
            Some(c) => c,
            None => 0,
        };
        let next = if current >= len - 1 {
            0
        } else {
            current + 1
        };
        self.selected = Some(next);
    }

    /// Move the selection up a list of `len` rows, wrapping to the bottom.
    pub fn select_prev(&mut self, len: usize)
        ensures
            final(self).selected == wrap_prev(old(self).selected, len),
            final(self).search_query == old(self).search_query,
            final(self).search_active == old(self).search_active,
    {
        if len == 0 {
            return;
        }
        let current = match self.selected {
            Some(c) => c,
            None => 0,
        };
        let prev = if current == 0 {
            len - 1
        } else {
            current - 1
        };
        self.selected = Some(prev);
    }
}

/// State for the interfaces view.
#[derive(Debug, Clone, Copy, PartialEq, Eq, Structural)]
pub struct InterfacesViewState {
    /// The selected row, if any
    pub selected: Option<usize>,
    /// Scroll offset for the detail view
    pub detail_scroll: u16,
    /// Whether we're viewing detail (vs list)
    pub viewing_detail: bool,
}

impl InterfacesViewState {
    /// Create a new InterfacesViewState with the first row selected.
    pub fn new() -> (r: Self)
        ensures
            r.selected == Some(0usize),
            r.detail_scroll == 0,
            !r.viewing_detail,
    {
        InterfacesViewState { selected: Some(0), detail_scroll: 0, viewing_detail: false }
    }

    /// Get the currently selected interface index
    pub fn selected(&self) -> (r: Option<usize>)
        ensures
            r == self.selected,
    {
        self.selected
    }

    /// Select the next interface in the list, wrapping to the top.
    pub fn select_next(&mut self, len: usize)
        requires
            old(self).selected != Some(usize::MAX),
        ensures
            final(self).selected == modular_next(old(self).selected, len),
            final(self).detail_scroll == old(self).detail_scroll,
            final(self).viewing_detail == old(self).viewing_detail,
    {
        if len == 0 {
            return;
        }
        let current = match self.selected {
            Some(c) => c,
            None => 0,
        };
        self.selected = Some((current + 1) % len);
    }

    /// Select the previous interface in the list, wrapping to the bottom.
    pub fn select_prev(&mut self, len: usize)
        ensures
            final(self).selected == wrap_prev(old(self).selected, len),
            final(self).detail_scroll == old(self).detail_scroll,
            final(self).viewing_detail == old(self).viewing_detail,
    {
        if len == 0 {
            return;
        }
        let current = match self.selected {
            Some(c) => c,
            None => 0,
        };
        self.selected = Some(
            match current.checked_sub(1) {
                Some(p) => p,
                None => len - 1,
            },
        );
    }

    /// Scroll down in the detail view.
    pub fn scroll_down(&mut self)
        ensures
            final(self).detail_scroll == (if old(self).detail_scroll == u16::MAX {
                u16::MAX
            } else {
                (old(self).detail_scroll + 1) as u16
            }),
            final(self).selected == old(self).selected,
            final(self).viewing_detail == old(self).viewing_detail,
    {
        self.detail_scroll = self.detail_scroll.saturating_add(1);
    }

    /// Scroll up in the detail view.
    pub fn scroll_up(&mut self)
        ensures
            final(self).detail_scroll == (if old(self).detail_scroll == 0 {
                0
            } else {
                (old(self).detail_scroll - 1) as u16
            }),
            final(self).selected == old(self).selected,
            final(self).viewing_detail == old(self).viewing_detail,
    {
        self.detail_scroll = self.detail_scroll.saturating_sub(1);
    }
}

/// Events sent from the terminal front end to the package manager.
#[derive(Debug, Clone)]
pub enum AppEvent {
    /// Request to quit the application
    Quit,
    /// Request the list of packages
    RequestPackages,
    /// Request state info
    RequestStateInfo,
    /// Pull a package from a registry
    Pull(String),
    /// Delete a package by its reference
    Delete(String),
    /// Search for known packages
    SearchPackages(String),
    /// Request all known packages
    RequestKnownPackages,
    /// Refresh tags for a package (registry, repository)
    RefreshTags(String, String),
    /// Request all WIT interfaces
    RequestWitInterfaces,
    /// Request to detect local WASM files
    DetectLocalWasm,
    /// Request the lines of the log file
    RequestLogLines,
}

/// The content of an [`AppEvent`], with its texts as character sequences.
pub enum AppEventView {
    /// See [`AppEvent::Quit`].
    Quit,
    /// See [`AppEvent::RequestPackages`].
    RequestPackages,
    /// See [`AppEvent::RequestStateInfo`].
    RequestStateInfo,
    /// See [`AppEvent::Pull`].
    Pull(Seq<char>),
    /// See [`AppEvent::Delete`].
    Delete(Seq<char>),
    /// See [`AppEvent::SearchPackages`].
    SearchPackages(Seq<char>),
    /// See [`AppEvent::RequestKnownPackages`].
    RequestKnownPackages,
    /// See [`AppEvent::RefreshTags`].
    RefreshTags(Seq<char>, Seq<char>),
    /// See [`AppEvent::RequestWitInterfaces`].
    RequestWitInterfaces,
    /// See [`AppEvent::DetectLocalWasm`].
    DetectLocalWasm,
    /// See [`AppEvent::RequestLogLines`].
    RequestLogLines,
}

impl View for AppEvent {
    type V = AppEventView;

    open spec fn view(&self) -> AppEventView {
        match self {
            AppEvent::Quit => AppEventView::Quit,
            AppEvent::RequestPackages => AppEventView::RequestPackages,
            AppEvent::RequestStateInfo => AppEventView::RequestStateInfo,
            AppEvent::Pull(s) => AppEventView::Pull(s@),
            AppEvent::Delete(s) => AppEventView::Delete(s@),
            AppEvent::SearchPackages(s) => AppEventView::SearchPackages(s@),
            AppEvent::RequestKnownPackages => AppEventView::RequestKnownPackages,
            AppEvent::RefreshTags(a, b) => AppEventView::RefreshTags(a@, b@),
            AppEvent::RequestWitInterfaces => AppEventView::RequestWitInterfaces,
            AppEvent::DetectLocalWasm => AppEventView::DetectLocalWasm,
            AppEvent::RequestLogLines => AppEventView::RequestLogLines,
        }
    }
}

/// The views of a sequence of events.
pub open spec fn event_views(events: Seq<AppEvent>) -> Seq<AppEventView> {
    events.map_values(|e: AppEvent| e@)
}

} // verus!
