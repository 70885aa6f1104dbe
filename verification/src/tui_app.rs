//! The terminal front end as a state machine: key presses and manager replies
//! in, new state and requests to the package manager out.
use vstd::prelude::*;
use crate::image_entry::{opt_view, spec_image_reference, ImageEntry, InsertResult};
use crate::known_package::{spec_reference_with_tag, KnownPackage};
use crate::text::{contains_seq, contains_str, lowercase, string_pop, string_push, str_eq, to_lowercase, to_owned};
use crate::tui_views::{
    event_views, spec_tab_next, spec_tab_prev, wrap_next, wrap_prev, modular_next, AppEvent,
    AppEventView, InterfacesViewState, PackagesViewState, SearchViewState, Tab,
};
use crate::wit_interface::WitInterface;
use vstd::string::StrSliceExecFns;

verus! {

/// A key of the keyboard, as far as the front end distinguishes keys.
#[derive(Debug, Clone, Copy, PartialEq, Eq, Structural)]
pub enum Key {
    /// A character key.
    Char(char),
    /// Escape.
    Esc,
    /// Enter.
    Enter,
    /// Backspace.
    Backspace,
    /// Tab.
    Tab,
    /// Shift-Tab.
    BackTab,
    /// Left arrow.
    Left,
    /// Right arrow.
    Right,
    /// Up arrow.
    Up,
    /// Down arrow.
    Down,
    /// Any other key.
    Other,
}

/// The modifier keys held with a key press.
#[derive(Debug, Clone, Copy, PartialEq, Eq, Structural)]
pub enum KeyMods {
    /// No modifier.
    NoMods,
    /// Control alone.
    Control,
    /// Shift alone.
    Shift,
    /// Any other combination.
    Other,
}

/// Readiness of the package manager.
#[derive(Debug, Clone, Copy, PartialEq, Eq, Structural)]
pub enum ManagerState {
    /// Still opening.
    Loading,
    /// Ready to serve requests.
    Ready,
}

/// State of the pull prompt.
#[derive(Debug, Clone)]
pub struct PullPromptState {
    /// The reference typed so far.
    pub input: String,
    /// The error or warning shown under the input.
    pub error: Option<String>,
    /// Whether a pull is running.
    pub in_progress: bool,
}

/// The current input mode of the application.
#[derive(Debug, Clone)]
pub enum InputMode {
    /// Normal navigation mode
    Normal,
    /// Viewing a package detail (with the package index)
    PackageDetail(usize),
    /// Viewing interface detail
    TypeDetail,
    /// Pull prompt is active
    PullPrompt(PullPromptState),
    /// Search input is active
    SearchInput,
    /// Filter input is active (for packages tab)
    FilterInput,
}

/// [`InputMode`] with texts as character sequences.
pub enum ModeView {
    /// Normal navigation mode.
    Normal,
    /// Viewing the package at this index.
    PackageDetail(usize),
    /// Viewing interface detail.
    TypeDetail,
    /// The pull prompt, with its input, message and whether a pull runs.
    PullPrompt(Seq<char>, Option<Seq<char>>, bool),
    /// Search input is active.
    SearchInput,
    /// Filter input is active.
    FilterInput,
}

/// The view of an input mode.
pub open spec fn mode_view(m: InputMode) -> ModeView {
    match m {
        InputMode::Normal => ModeView::Normal,
        InputMode::PackageDetail(i) => ModeView::PackageDetail(i),
        InputMode::TypeDetail => ModeView::TypeDetail,
        InputMode::PullPrompt(p) => ModeView::PullPrompt(p.input@, opt_view(p.error), p.in_progress),
        InputMode::SearchInput => ModeView::SearchInput,
        InputMode::FilterInput => ModeView::FilterInput,
    }
}

/// Events sent from the package manager to the terminal front end that
/// change its state.
#[derive(Debug)]
pub enum ManagerEvent {
    /// Manager has finished initializing
    Ready,
    /// List of packages
    PackagesList(Vec<ImageEntry>),
    /// Result of a pull operation
    PullResult(Result<InsertResult, String>),
    /// Result of a delete operation
    DeleteResult(Result<(), String>),
    /// Search results for known packages
    SearchResults(Vec<KnownPackage>),
    /// All known packages
    KnownPackagesList(Vec<KnownPackage>),
    /// Result of refreshing tags for a package
    RefreshTagsResult(Result<usize, String>),
    /// List of WIT interfaces with their component references
    WitInterfacesList(Vec<(WitInterface, String)>),
    /// Lines of the log file
    LogLines(Vec<String>),
}

/// The abstract state of the front end.
pub struct AppView {
    /// Whether the event loop keeps running.
    pub running: bool,
    /// Whether the package manager is ready.
    pub ready: bool,
    /// The current tab.
    pub tab: Tab,
    /// The input mode.
    pub mode: ModeView,
    /// Stored packages.
    pub packages: Seq<ImageEntry>,
    /// Selected row of the (filtered) packages list.
    pub pkg_selected: Option<usize>,
    /// Filter typed for the packages list.
    pub filter_query: Seq<char>,
    /// Whether the filter input is shown as active.
    pub filter_active: bool,
    /// Selected row of the search results.
    pub search_selected: Option<usize>,
    /// Search query typed so far.
    pub search_query: Seq<char>,
    /// Whether the search input is shown as active.
    pub search_active: bool,
    /// Known packages shown as search results.
    pub known: Seq<KnownPackage>,
    /// WIT interfaces with their component references.
    pub wit: Seq<(WitInterface, String)>,
    /// Selected row of the interfaces list.
    pub types_selected: Option<usize>,
    /// Scroll offset of the interface detail.
    pub types_scroll: u16,
    /// Whether the interface detail is shown.
    pub types_detail: bool,
    /// Lines of the log file.
    pub log_lines: Seq<String>,
    /// Scroll offset of the log view.
    pub log_scroll: usize,
    /// Whether network use is disabled.
    pub offline: bool,
}

/// The terminal front end's state.
pub struct App {
    running: bool,
    manager_state: ManagerState,
    current_tab: Tab,
    input_mode: InputMode,
    packages: Vec<ImageEntry>,
    packages_view_state: PackagesViewState,
    search_view_state: SearchViewState,
    known_packages: Vec<KnownPackage>,
    wit_interfaces: Vec<(WitInterface, String)>,
    types_view_state: InterfacesViewState,
    log_lines: Vec<String>,
    log_scroll: usize,
    offline: bool,
}

impl App {
    /// Well-formedness: the selection of the interfaces list never sits on
    /// the largest index, so that moving down never overflows; the search
    /// input is shown as active exactly while a search is typed.
    pub closed spec fn wf(&self) -> bool {
        &&& self.types_view_state.selected != Some(usize::MAX)
        &&& self.search_view_state.search_active == (self.input_mode is SearchInput)
    }
}

impl View for App {
    type V = AppView;

    closed spec fn view(&self) -> AppView {
        AppView {
            running: self.running,
            ready: self.manager_state == ManagerState::Ready,
            tab: self.current_tab,
            mode: mode_view(self.input_mode),
            packages: self.packages@,
            pkg_selected: self.packages_view_state.selected,
            filter_query: self.packages_view_state.filter_query@,
            filter_active: self.packages_view_state.filter_active,
            search_selected: self.search_view_state.selected,
            search_query: self.search_view_state.search_query@,
            search_active: self.search_view_state.search_active,
            known: self.known_packages@,
            wit: self.wit_interfaces@,
            types_selected: self.types_view_state.selected,
            types_scroll: self.types_view_state.detail_scroll,
            types_detail: self.types_view_state.viewing_detail,
            log_lines: self.log_lines@,
            log_scroll: self.log_scroll,
            offline: self.offline,
        }
    }
}

/// Network requests are allowed: the manager is ready and not offline.
pub open spec fn can_use_network(v: AppView) -> bool {
    v.ready && !v.offline
}

/// A package matches the lowercased filter `q` when its repository, registry
/// or tag, lowercased, contains `q`.
pub open spec fn package_matches(p: ImageEntry, q: Seq<char>) -> bool {
    ||| contains_seq(lowercase(p.ref_repository@), q)
    ||| contains_seq(lowercase(p.ref_registry@), q)
    ||| (p.ref_tag is Some && contains_seq(lowercase(p.ref_tag->0@), q))
}

/// Indices of the packages shown under the lowercased filter `q`, in order:
/// all of them when `q` is empty.
pub open spec fn filtered(ps: Seq<ImageEntry>, q: Seq<char>) -> Seq<usize>
    decreases ps.len(),
{
    if ps.len() == 0 {
        Seq::empty()
    } else {
        let rest = filtered(ps.drop_last(), q);
        if q.len() == 0 || package_matches(ps.last(), q) {
            rest.push((ps.len() - 1) as usize)
        } else {
            rest
        }
    }
}

/// The packages shown in the packages list of state `v`.
pub open spec fn shown_packages(v: AppView) -> Seq<usize> {
    filtered(v.packages, lowercase(v.filter_query))
}

/// Two stored images have the same reference.
pub open spec fn same_image(a: ImageEntry, b: ImageEntry) -> bool {
    &&& a.ref_repository@ == b.ref_repository@
    &&& a.ref_registry@ == b.ref_registry@
    &&& opt_view(a.ref_tag) == opt_view(b.ref_tag)
    &&& opt_view(a.ref_digest) == opt_view(b.ref_digest)
}

/// The first index of `ps` holding an image with the same reference as `ps[i]`.
pub open spec fn first_same(ps: Seq<ImageEntry>, i: int) -> int {
    choose|j: int| 0 <= j <= i && same_image(ps[j], ps[i]) && forall|k: int| 0 <= k < j ==> !same_image(ps[k], ps[i])
}

/// The key quits the application in every mode but the text inputs.
pub open spec fn is_quit_key(key: Key, mods: KeyMods) -> bool {
    key == Key::Char('q') || (key == Key::Char('c') && mods == KeyMods::Control)
}

/// A key that moves up a list.
pub open spec fn is_up(key: Key) -> bool {
    key == Key::Up || key == Key::Char('k')
}

/// A key that moves down a list.
pub open spec fn is_down(key: Key) -> bool {
    key == Key::Down || key == Key::Char('j')
}

/// `n - 1`, or `0` when `n` is `0`.
pub open spec fn sat_dec(n: usize) -> usize {
    if n == 0 {
        0
    } else {
        (n - 1) as usize
    }
}

/// The state and requests after a key press in normal navigation mode.
pub open spec fn normal_key(v: AppView, key: Key, mods: KeyMods) -> (AppView, Seq<AppEventView>) {
    let none = Seq::<AppEventView>::empty();
    let shown = shown_packages(v);
    if key == Key::Char('q') || key == Key::Esc || (key == Key::Char('c') && mods == KeyMods::Control) {
        (AppView { running: false, ..v }, none)
    } else if key == Key::Tab || key == Key::Right {
        (AppView { tab: spec_tab_next(v.tab), ..v }, none)
    } else if key == Key::BackTab || key == Key::Left {
        (AppView { tab: spec_tab_prev(v.tab), ..v }, none)
    } else if key == Key::Char('1') {
        (AppView { tab: Tab::Local, ..v }, none)
    } else if key == Key::Char('2') {
        (AppView { tab: Tab::Components, ..v }, none)
    } else if key == Key::Char('3') {
        (AppView { tab: Tab::Interfaces, ..v }, none)
    } else if key == Key::Char('4') {
        (AppView { tab: Tab::Search, ..v }, none)
    } else if key == Key::Char('5') {
        (AppView { tab: Tab::Settings, ..v }, none)
    } else if key == Key::Char('6') {
        (AppView { tab: Tab::Log, ..v }, seq![AppEventView::RequestLogLines])
    } else if key == Key::Char('p') && v.tab == Tab::Components && can_use_network(v) {
        (AppView { search_active: false, mode: ModeView::PullPrompt(Seq::empty(), None, false), ..v }, none)
    } else if key == Key::Char('/') && v.tab == Tab::Components {
        (AppView { search_active: false, mode: ModeView::FilterInput, filter_active: true, ..v }, none)
    } else if is_up(key) && v.tab == Tab::Components {
        (AppView { pkg_selected: wrap_prev(v.pkg_selected, shown.len() as usize), ..v }, none)
    } else if is_down(key) && v.tab == Tab::Components {
        (AppView { pkg_selected: wrap_next(v.pkg_selected, shown.len() as usize), ..v }, none)
    } else if key == Key::Enter && v.tab == Tab::Components {
        match v.pkg_selected {
            Some(s) if s < shown.len() => (
                AppView {
                    search_active: false, mode: ModeView::PackageDetail(first_same(v.packages, shown[s as int] as int) as usize),
                    ..v
                },
                none,
            ),
            _ => (v, none),
        }
    } else if key == Key::Char('d') && v.tab == Tab::Components && v.ready {
        match v.pkg_selected {
            Some(s) if s < shown.len() => {
                let p = v.packages[shown[s as int] as int];
                let ev = seq![
                    AppEventView::Delete(
                        spec_image_reference(
                            p.ref_registry@,
                            p.ref_repository@,
                            opt_view(p.ref_tag),
                            opt_view(p.ref_digest),
                        ),
                    ),
                ];
                if s > 0 && s >= shown.len() - 1 {
                    (AppView { pkg_selected: Some((s - 1) as usize), ..v }, ev)
                } else {
                    (v, ev)
                }
            },
            _ => (v, none),
        }
    } else if is_up(key) && v.tab == Tab::Search {
        (AppView { search_selected: wrap_prev(v.search_selected, v.known.len() as usize), ..v }, none)
    } else if is_down(key) && v.tab == Tab::Search {
        (AppView { search_selected: wrap_next(v.search_selected, v.known.len() as usize), ..v }, none)
    } else if key == Key::Char('/') && v.tab == Tab::Search {
        (AppView { mode: ModeView::SearchInput, search_active: true, ..v }, none)
    } else if is_up(key) && v.tab == Tab::Interfaces {
        (AppView { types_selected: wrap_prev(v.types_selected, v.wit.len() as usize), ..v }, none)
    } else if is_down(key) && v.tab == Tab::Interfaces {
        (AppView { types_selected: modular_next(v.types_selected, v.wit.len() as usize), ..v }, none)
    } else if key == Key::Enter && v.tab == Tab::Interfaces {
        if v.wit.len() > 0 {
            (AppView { types_detail: true, types_scroll: 0, search_active: false, mode: ModeView::TypeDetail, ..v }, none)
        } else {
            (v, none)
        }
    } else if key == Key::Char('p') && v.tab == Tab::Search && can_use_network(v) {
        match v.search_selected {
            Some(s) if s < v.known.len() => {
                let p = v.known[s as int];
                (
                    v,
                    seq![
                        AppEventView::Pull(
                            spec_reference_with_tag(p.registry@, p.repository@, p.tags@),
                        ),
                    ],
                )
            },
            _ => (v, none),
        }
    } else if key == Key::Char('r') && v.tab == Tab::Search && can_use_network(v) {
        match v.search_selected {
            Some(s) if s < v.known.len() => {
                let p = v.known[s as int];
                (v, seq![AppEventView::RefreshTags(p.registry@, p.repository@)])
            },
            _ => (v, none),
        }
    } else if is_up(key) && v.tab == Tab::Log {
        (AppView { log_scroll: sat_dec(v.log_scroll), ..v }, none)
    } else if is_down(key) && v.tab == Tab::Log {
        if v.log_scroll < sat_dec(v.log_lines.len() as usize) {
            (AppView { log_scroll: (v.log_scroll + 1) as usize, ..v }, none)
        } else {
            (v, none)
        }
    } else if key == Key::Char('G') && mods == KeyMods::Shift && v.tab == Tab::Log {
        (AppView { log_scroll: sat_dec(v.log_lines.len() as usize), ..v }, none)
    } else {
        (v, none)
    }
}

/// The state after a key press while a package detail is shown.
pub open spec fn package_detail_key(v: AppView, key: Key, mods: KeyMods) -> AppView {
    if key == Key::Esc || key == Key::Backspace {
        AppView { search_active: false, mode: ModeView::Normal, ..v }
    } else if is_quit_key(key, mods) {
        AppView { running: false, ..v }
    } else {
        v
    }
}

/// The state after a key press while an interface detail is shown.
pub open spec fn type_detail_key(v: AppView, key: Key, mods: KeyMods) -> AppView {
    if key == Key::Esc || key == Key::Backspace {
        AppView { types_detail: false, search_active: false, mode: ModeView::Normal, ..v }
    } else if is_up(key) {
        AppView { types_scroll: if v.types_scroll == 0 { 0 } else { (v.types_scroll - 1) as u16 }, ..v }
    } else if is_down(key) {
        AppView {
            types_scroll: if v.types_scroll == u16::MAX { u16::MAX } else { (v.types_scroll + 1) as u16 },
            ..v
        }
    } else if is_quit_key(key, mods) {
        AppView { running: false, ..v }
    } else {
        v
    }
}

/// `s` without its last character, if any.
pub open spec fn pop_char(s: Seq<char>) -> Seq<char> {
    if s.len() == 0 {
        s
    } else {
        s.drop_last()
    }
}

/// The state after a key press while the packages filter is typed.
pub open spec fn filter_key(v: AppView, key: Key, mods: KeyMods) -> AppView {
    match key {
        Key::Esc | Key::Enter => AppView { search_active: false, mode: ModeView::Normal, filter_active: false, ..v },
        Key::Backspace => AppView { filter_query: pop_char(v.filter_query), pkg_selected: Some(0), ..v },
        Key::Char(c) => if mods == KeyMods::Control && c == 'c' {
            AppView { running: false, ..v }
        } else {
            AppView { filter_query: v.filter_query.push(c), pkg_selected: Some(0), ..v }
        },
        _ => v,
    }
}

/// The state and requests after a key press while the search query is typed.
pub open spec fn search_key(v: AppView, key: Key, mods: KeyMods) -> (AppView, Seq<AppEventView>) {
    match key {
        Key::Esc => (AppView { search_active: false, mode: ModeView::Normal, ..v }, Seq::empty()),
        Key::Enter => (
            AppView { search_active: false, mode: ModeView::Normal, ..v },
            if v.search_query.len() == 0 {
                seq![AppEventView::RequestKnownPackages]
            } else {
                seq![AppEventView::SearchPackages(v.search_query)]
            },
        ),
        Key::Backspace => (AppView { search_query: pop_char(v.search_query), ..v }, Seq::empty()),
        Key::Char(c) => if mods == KeyMods::Control && c == 'c' {
            (AppView { running: false, ..v }, Seq::empty())
        } else {
            (AppView { search_query: v.search_query.push(c), ..v }, Seq::empty())
        },
        _ => (v, Seq::empty()),
    }
}

/// The state and requests after a key press while the pull prompt is open
/// with `input`, `error` and `busy`: nothing changes while a pull runs.
pub open spec fn pull_prompt_key(
    v: AppView,
    input: Seq<char>,
    error: Option<Seq<char>>,
    busy: bool,
    key: Key,
    mods: KeyMods,
) -> (AppView, Seq<AppEventView>) {
    if busy {
        (v, Seq::empty())
    } else {
        match key {
            Key::Esc => (AppView { search_active: false, mode: ModeView::Normal, ..v }, Seq::empty()),
            Key::Enter => if input.len() > 0 {
                (
                    AppView { search_active: false, mode: ModeView::PullPrompt(input, None, true), ..v },
                    seq![AppEventView::Pull(input)],
                )
            } else {
                (v, Seq::empty())
            },
            Key::Backspace => (
                AppView { search_active: false, mode: ModeView::PullPrompt(pop_char(input), None, false), ..v },
                Seq::empty(),
            ),
            Key::Char(c) => if mods == KeyMods::Control && c == 'c' {
                (AppView { running: false, ..v }, Seq::empty())
            } else {
                (AppView { search_active: false, mode: ModeView::PullPrompt(input.push(c), None, false), ..v }, Seq::empty())
            },
            _ => (v, Seq::empty()),
        }
    }
}

/// The state and requests after any key press, by input mode.
pub open spec fn key_step(v: AppView, key: Key, mods: KeyMods) -> (AppView, Seq<AppEventView>) {
    match v.mode {
        ModeView::PullPrompt(input, error, busy) => pull_prompt_key(v, input, error, busy, key, mods),
        ModeView::SearchInput => search_key(v, key, mods),
        ModeView::FilterInput => (filter_key(v, key, mods), Seq::empty()),
        ModeView::PackageDetail(_) => (package_detail_key(v, key, mods), Seq::empty()),
        ModeView::TypeDetail => (type_detail_key(v, key, mods), Seq::empty()),
        ModeView::Normal => normal_key(v, key, mods),
    }
}

/// The text shown in the pull prompt when a pulled package was already stored.
pub open spec fn already_stored_warning() -> Seq<char> {
    "Warning: package already exists in local store"@
}

/// The state and requests after a reply of the package manager.
pub open spec fn manager_step(v: AppView, e: ManagerEvent) -> (AppView, Seq<AppEventView>) {
    let none = Seq::<AppEventView>::empty();
    match e {
        ManagerEvent::Ready => (
            AppView { ready: true, ..v },
            seq![
                AppEventView::RequestPackages,
                AppEventView::RequestStateInfo,
                AppEventView::RequestKnownPackages,
                AppEventView::RequestWitInterfaces,
                AppEventView::DetectLocalWasm,
            ],
        ),
        ManagerEvent::PackagesList(ps) => (AppView { packages: ps@, ..v }, none),
        ManagerEvent::PullResult(Ok(r)) => (
            AppView {
                search_active: false,
                mode: if r == InsertResult::AlreadyExists {
                    ModeView::PullPrompt(Seq::empty(), Some(already_stored_warning()), false)
                } else {
                    ModeView::Normal
                },
                ..v
            },
            seq![AppEventView::RequestKnownPackages, AppEventView::RequestWitInterfaces],
        ),
        ManagerEvent::PullResult(Err(msg)) => (
            match v.mode {
                ModeView::PullPrompt(input, _, _) => AppView {
                    search_active: false, mode: ModeView::PullPrompt(input, Some(msg@), false),
                    ..v
                },
                _ => v,
            },
            none,
        ),
        ManagerEvent::DeleteResult(_) => (v, none),
        ManagerEvent::SearchResults(k) => (AppView { known: k@, ..v }, none),
        ManagerEvent::KnownPackagesList(k) => (AppView { known: k@, ..v }, none),
        ManagerEvent::RefreshTagsResult(_) => (v, none),
        ManagerEvent::WitInterfacesList(w) => (AppView { wit: w@, ..v }, none),
        ManagerEvent::LogLines(l) => (AppView { log_lines: l@, ..v }, none),
    }
}

} // verus!

verus! {

fn no_events() -> (r: Vec<AppEvent>)
    ensures
        event_views(r@) == Seq::<AppEventView>::empty(),
        r@.len() == 0,
{
    let r: Vec<AppEvent> = Vec::new();
    assert(event_views(r@) =~= Seq::<AppEventView>::empty());
    r
}

fn one_event(e: AppEvent) -> (r: Vec<AppEvent>)
    ensures
        event_views(r@) == seq![e@],
{
    let mut r: Vec<AppEvent> = Vec::new();
    r.push(e);
    assert(event_views(r@) =~= seq![e@]);
    r
}

fn opt_string_eq(a: &Option<String>, b: &Option<String>) -> (r: bool)
    ensures
        r == (opt_view(*a) == opt_view(*b)),
{
    match (a, b) {
        (Some(x), Some(y)) => str_eq(x.as_str(), y.as_str()),
        (None, None) => true,
        _ => false,
    }
}

fn same_image_exec(a: &ImageEntry, b: &ImageEntry) -> (r: bool)
    ensures
        r == same_image(*a, *b),
{
    str_eq(a.ref_repository.as_str(), b.ref_repository.as_str()) && str_eq(
        a.ref_registry.as_str(),
        b.ref_registry.as_str(),
    ) && opt_string_eq(&a.ref_tag, &b.ref_tag) && opt_string_eq(&a.ref_digest, &b.ref_digest)
}

/// Whether a package whose repository, registry and tag are given
/// lowercased matches the lowercased filter `q`: one of them contains it.
pub fn lowered_fields_match(repository: &str, registry: &str, tag: Option<&str>, q: &str) -> (r: bool)
    ensures
        r == (contains_seq(repository@, q@) || contains_seq(registry@, q@) || match tag {
            Some(t) => contains_seq(t@, q@),
            None => false,
        }),
{
    if contains_str(repository, q) {
        return true;
    }
    if contains_str(registry, q) {
        return true;
    }
    match tag {
        Some(t) => contains_str(t, q),
        None => false,
    }
}

fn matches_filter(p: &ImageEntry, q: &str) -> (r: bool)
    ensures
        r == package_matches(*p, q@),
{
    let repo = to_lowercase(p.ref_repository.as_str());
    let reg = to_lowercase(p.ref_registry.as_str());
    match &p.ref_tag {
        Some(t) => {
            let lt = to_lowercase(t.as_str());
            lowered_fields_match(repo.as_str(), reg.as_str(), Some(lt.as_str()), q)
        },
        None => lowered_fields_match(repo.as_str(), reg.as_str(), None, q),
    }
}

/// Indices of the packages shown under the lowercased filter `q`, in order.
pub fn filter_packages(packages: &Vec<ImageEntry>, q: &str) -> (r: Vec<usize>)
    ensures
        r@ == filtered(packages@, q@),
{
    let empty = q.unicode_len() == 0;
    let mut out: Vec<usize> = Vec::new();
    let mut i: usize = 0;
    while i < packages.len()
        invariant
            i <= packages.len(),
            empty == (q@.len() == 0),
            out@ == filtered(packages@.take(i as int), q@),
        decreases packages.len() - i,
    {
        assert(packages@.take(i + 1).drop_last() =~= packages@.take(i as int));
        assert(packages@.take(i + 1).last() == packages@[i as int]);
        if empty || matches_filter(&packages[i], q) {
            out.push(i);
        }
        i = i + 1;
    }
    assert(packages@.take(packages.len() as int) =~= packages@);
    out
}

impl App {
    /// A fresh front end on the first tab, waiting for the manager.
    pub fn new(offline: bool) -> (r: Self)
        ensures
            r@.running,
            !r@.ready,
            r@.tab == Tab::Local,
            r@.mode == ModeView::Normal,
            r@.packages.len() == 0,
            r@.pkg_selected == Some(0usize),
            r@.filter_query.len() == 0,
            !r@.filter_active,
            r@.search_selected == Some(0usize),
            r@.search_query.len() == 0,
            !r@.search_active,
            r@.known.len() == 0,
            r@.wit.len() == 0,
            r@.types_selected == Some(0usize),
            r@.types_scroll == 0,
            !r@.types_detail,
            r@.log_lines.len() == 0,
            r@.log_scroll == 0,
            r@.offline == offline,
            r.wf(),
    {
        App {
            running: true,
            manager_state: ManagerState::Loading,
            current_tab: Tab::Local,
            input_mode: InputMode::Normal,
            packages: Vec::new(),
            packages_view_state: PackagesViewState::new(),
            search_view_state: SearchViewState::new(),
            known_packages: Vec::new(),
            wit_interfaces: Vec::new(),
            types_view_state: InterfacesViewState::new(),
            log_lines: Vec::new(),
            log_scroll: 0,
            offline,
        }
    }

    /// Whether the event loop keeps running.
    pub fn is_running(&self) -> (r: bool)
        ensures
            r == self@.running,
    {
        self.running
    }

    /// The current tab.
    pub fn current_tab(&self) -> (r: Tab)
        ensures
            r == self@.tab,
    {
        self.current_tab
    }

    /// The current input mode.
    pub fn input_mode(&self) -> (r: &InputMode)
        ensures
            mode_view(*r) == self@.mode,
    {
        &self.input_mode
    }

    /// The stored packages.
    pub fn packages(&self) -> (r: &Vec<ImageEntry>)
        ensures
            r@ == self@.packages,
    {
        &self.packages
    }

    /// The packages list state.
    pub fn packages_view_state(&self) -> (r: &PackagesViewState)
        ensures
            r.selected == self@.pkg_selected,
            r.filter_query@ == self@.filter_query,
            r.filter_active == self@.filter_active,
    {
        &self.packages_view_state
    }

    /// The search view state.
    pub fn search_view_state(&self) -> (r: &SearchViewState)
        ensures
            r.selected == self@.search_selected,
            r.search_query@ == self@.search_query,
            r.search_active == self@.search_active,
            self.wf() ==> r.search_active == (self@.mode == ModeView::SearchInput),
    {
        &self.search_view_state
    }

    /// The interfaces view state.
    pub fn types_view_state(&self) -> (r: &InterfacesViewState)
        ensures
            r.selected == self@.types_selected,
            r.detail_scroll == self@.types_scroll,
            r.viewing_detail == self@.types_detail,
    {
        &self.types_view_state
    }

    /// The known packages shown as search results.
    pub fn known_packages(&self) -> (r: &Vec<KnownPackage>)
        ensures
            r@ == self@.known,
    {
        &self.known_packages
    }

    /// The WIT interfaces with their component references.
    pub fn wit_interfaces(&self) -> (r: &Vec<(WitInterface, String)>)
        ensures
            r@ == self@.wit,
    {
        &self.wit_interfaces
    }

    /// The lines of the log file.
    pub fn log_lines(&self) -> (r: &Vec<String>)
        ensures
            r@ == self@.log_lines,
    {
        &self.log_lines
    }

    /// The scroll offset of the log view.
    pub fn log_scroll(&self) -> (r: usize)
        ensures
            r == self@.log_scroll,
    {
        self.log_scroll
    }

    /// Whether the package manager is ready.
    pub fn is_manager_ready(&self) -> (r: bool)
        ensures
            r == self@.ready,
    {
        self.manager_state == ManagerState::Ready
    }

    /// Returns true if network operations are allowed (manager ready and not offline).
    pub fn can_use_network(&self) -> (r: bool)
        ensures
            r == can_use_network(self@),
    {
        self.is_manager_ready() && !self.offline
    }

    /// Indices of the packages shown under the current filter, in order.
    pub fn filtered_packages(&self) -> (r: Vec<usize>)
        ensures
            r@ == shown_packages(self@),
    {
        let q = to_lowercase(self.packages_view_state.filter_query.as_str());
        filter_packages(&self.packages, q.as_str())
    }
}

} // verus!

verus! {

impl App {
    fn first_same_index(&self, i: usize) -> (r: usize)
        requires
            i < self.packages@.len(),
        ensures
            r as int == first_same(self.packages@, i as int),
    {
        let mut j: usize = 0;
        while j < i && !same_image_exec(&self.packages[j], &self.packages[i])
            invariant
                i < self.packages@.len(),
                j <= i,
                forall|k: int| 0 <= k < j ==> !same_image(self.packages@[k], self.packages@[i as int]),
            decreases i - j,
        {
            j = j + 1;
        }
        proof {
            assert(same_image(self.packages@[j as int], self.packages@[i as int]));
            let f = first_same(self.packages@, i as int);
            assert(0 <= f <= i && same_image(self.packages@[f], self.packages@[i as int]) && forall|k: int|
                0 <= k < f ==> !same_image(self.packages@[k], self.packages@[i as int]));
            if f < j {
                assert(!same_image(self.packages@[f], self.packages@[i as int]));
            }
            if (j as int) < f {
                assert(!same_image(self.packages@[j as int], self.packages@[i as int]));
            }
        }
        j
    }

    /// Handle a key press in normal navigation mode.
    #[verifier::rlimit(40)]
    pub fn handle_normal_key(&mut self, key: Key, mods: KeyMods) -> (ev: Vec<AppEvent>)
        requires
            old(self).wf(),
        ensures
            final(self).wf(),
            final(self)@ == normal_key(old(self)@, key, mods).0,
            event_views(ev@) == normal_key(old(self)@, key, mods).1,
    {
        let comps = self.current_tab == Tab::Components;
        let search = self.current_tab == Tab::Search;
        let ifaces = self.current_tab == Tab::Interfaces;
        let log = self.current_tab == Tab::Log;
        let up = key == Key::Up || key == Key::Char('k');
        let down = key == Key::Down || key == Key::Char('j');
        if key == Key::Char('q') || key == Key::Esc || (key == Key::Char('c') && mods == KeyMods::Control) {
            self.running = false;
            no_events()
        } else if key == Key::Tab || key == Key::Right {
            self.current_tab = self.current_tab.next();
            no_events()
        } else if key == Key::BackTab || key == Key::Left {
            self.current_tab = self.current_tab.prev();
            no_events()
        } else if key == Key::Char('1') {
            self.current_tab = Tab::Local;
            no_events()
        } else if key == Key::Char('2') {
            self.current_tab = Tab::Components;
            no_events()
        } else if key == Key::Char('3') {
            self.current_tab = Tab::Interfaces;
            no_events()
        } else if key == Key::Char('4') {
            self.current_tab = Tab::Search;
            no_events()
        } else if key == Key::Char('5') {
            self.current_tab = Tab::Settings;
            no_events()
        } else if key == Key::Char('6') {
            self.current_tab = Tab::Log;
            one_event(AppEvent::RequestLogLines)
        } else if key == Key::Char('p') && comps && self.can_use_network() {
            self.input_mode = InputMode::PullPrompt(
                PullPromptState { input: String::new(), error: None, in_progress: false },
            );
            self.search_view_state.search_active = false;
            no_events()
        } else if key == Key::Char('/') && comps {
            self.input_mode = InputMode::FilterInput;
            self.search_view_state.search_active = false;
            self.packages_view_state.filter_active = true;
            no_events()
        } else if up && comps {
            let n = self.filtered_packages().len();
            self.packages_view_state.select_prev(n);
            no_events()
        } else if down && comps {
            let n = self.filtered_packages().len();
            self.packages_view_state.select_next(n);
            no_events()
        } else if key == Key::Enter && comps {
            let filtered = self.filtered_packages();
            match self.packages_view_state.selected {
                Some(s) => {
                    if s < filtered.len() {
                        let idx = filtered[s];
                        proof {
                            let ps = self.packages@;
                            assert(filtered@[s as int] < ps.len()) by {
                                assert(ps.len() == self.packages.len());
                                lemma_filtered_in_bounds(ps, lowercase(self.packages_view_state.filter_query@));
                            }
                        }
                        let actual = self.first_same_index(idx);
                        self.input_mode = InputMode::PackageDetail(actual);
                        self.search_view_state.search_active = false;
                    }
                },
                None => {},
            }
            no_events()
        } else if key == Key::Char('d') && comps && self.is_manager_ready() {
            let filtered = self.filtered_packages();
            match self.packages_view_state.selected {
                Some(s) => {
                    if s < filtered.len() {
                        let idx = filtered[s];
                        proof {
                            assert(self.packages@.len() == self.packages.len());
                            lemma_filtered_in_bounds(self.packages@, lowercase(self.packages_view_state.filter_query@));
                        }
                        let reference = self.packages[idx].reference();
                        if s > 0 && s >= filtered.len() - 1 {
                            self.packages_view_state.selected = Some(s - 1);
                        }
                        one_event(AppEvent::Delete(reference))
                    } else {
                        no_events()
                    }
                },
                None => no_events(),
            }
        } else if up && search {
            let n = self.known_packages.len();
            self.search_view_state.select_prev(n);
            no_events()
        } else if down && search {
            let n = self.known_packages.len();
            self.search_view_state.select_next(n);
            no_events()
        } else if key == Key::Char('/') && search {
            self.input_mode = InputMode::SearchInput;
            self.search_view_state.search_active = true;
            no_events()
        } else if up && ifaces {
            let n = self.wit_interfaces.len();
            self.types_view_state.select_prev(n);
            no_events()
        } else if down && ifaces {
            let n = self.wit_interfaces.len();
            self.types_view_state.select_next(n);
            no_events()
        } else if key == Key::Enter && ifaces {
            if self.wit_interfaces.len() > 0 {
                self.types_view_state.viewing_detail = true;
                self.types_view_state.detail_scroll = 0;
                self.input_mode = InputMode::TypeDetail;
                self.search_view_state.search_active = false;
            }
            no_events()
        } else if key == Key::Char('p') && search && self.can_use_network() {
            match self.search_view_state.selected {
                Some(s) => {
                    if s < self.known_packages.len() {
                        let reference = self.known_packages[s].reference_with_tag();
                        one_event(AppEvent::Pull(reference))
                    } else {
                        no_events()
                    }
                },
                None => no_events(),
            }
        } else if key == Key::Char('r') && search && self.can_use_network() {
            match self.search_view_state.selected {
                Some(s) => {
                    if s < self.known_packages.len() {
                        let p = &self.known_packages[s];
                        one_event(AppEvent::RefreshTags(p.registry.clone(), p.repository.clone()))
                    } else {
                        no_events()
                    }
                },
                None => no_events(),
            }
        } else if up && log {
            self.log_scroll = self.log_scroll.saturating_sub(1);
            no_events()
        } else if down && log {
            if self.log_scroll < self.log_lines.len().saturating_sub(1) {
                self.log_scroll = self.log_scroll + 1;
            }
            no_events()
        } else if key == Key::Char('G') && mods == KeyMods::Shift && log {
            self.log_scroll = self.log_lines.len().saturating_sub(1);
            no_events()
        } else {
            no_events()
        }
    }

    /// Handle a key press while a package detail is shown.
    pub fn handle_package_detail_key(&mut self, key: Key, mods: KeyMods)
        requires
            old(self).wf(),
        ensures
            final(self).wf(),
            final(self)@ == package_detail_key(old(self)@, key, mods),
    {
        if key == Key::Esc || key == Key::Backspace {
            self.input_mode = InputMode::Normal;
            self.search_view_state.search_active = false;
        } else if key == Key::Char('q') || (key == Key::Char('c') && mods == KeyMods::Control) {
            self.running = false;
        }
    }

    /// Handle a key press while an interface detail is shown.
    pub fn handle_type_detail_key(&mut self, key: Key, mods: KeyMods)
        requires
            old(self).wf(),
        ensures
            final(self).wf(),
            final(self)@ == type_detail_key(old(self)@, key, mods),
    {
        if key == Key::Esc || key == Key::Backspace {
            self.types_view_state.viewing_detail = false;
            self.input_mode = InputMode::Normal;
            self.search_view_state.search_active = false;
        } else if key == Key::Up || key == Key::Char('k') {
            self.types_view_state.scroll_up();
        } else if key == Key::Down || key == Key::Char('j') {
            self.types_view_state.scroll_down();
        } else if key == Key::Char('q') || (key == Key::Char('c') && mods == KeyMods::Control) {
            self.running = false;
        }
    }

    /// Handle a key press while the packages filter is typed.
    pub fn handle_filter_key(&mut self, key: Key, mods: KeyMods)
        requires
            old(self).wf(),
        ensures
            final(self).wf(),
            final(self)@ == filter_key(old(self)@, key, mods),
    {
        match key {
            Key::Esc | Key::Enter => {
                self.input_mode = InputMode::Normal;
                self.search_view_state.search_active = false;
                self.packages_view_state.filter_active = false;
            },
            Key::Backspace => {
                string_pop(&mut self.packages_view_state.filter_query);
                self.packages_view_state.selected = Some(0);
            },
            Key::Char(c) => {
                if mods == KeyMods::Control && c == 'c' {
                    self.running = false;
                } else {
                    string_push(&mut self.packages_view_state.filter_query, c);
                    self.packages_view_state.selected = Some(0);
                }
            },
            _ => {},
        }
    }

    /// Handle a key press while the search query is typed.
    pub fn handle_search_key(&mut self, key: Key, mods: KeyMods) -> (ev: Vec<AppEvent>)
        requires
            old(self).wf(),
        ensures
            final(self).wf(),
            final(self)@ == search_key(old(self)@, key, mods).0,
            event_views(ev@) == search_key(old(self)@, key, mods).1,
    {
        match key {
            Key::Esc => {
                self.input_mode = InputMode::Normal;
                self.search_view_state.search_active = false;
                no_events()
            },
            Key::Enter => {
                self.input_mode = InputMode::Normal;
                self.search_view_state.search_active = false;
                if self.search_view_state.search_query.as_str().is_empty() {
                    one_event(AppEvent::RequestKnownPackages)
                } else {
                    one_event(AppEvent::SearchPackages(self.search_view_state.search_query.clone()))
                }
            },
            Key::Backspace => {
                string_pop(&mut self.search_view_state.search_query);
                no_events()
            },
            Key::Char(c) => {
                if mods == KeyMods::Control && c == 'c' {
                    self.running = false;
                } else {
                    string_push(&mut self.search_view_state.search_query, c);
                }
                no_events()
            },
            _ => no_events(),
        }
    }

    /// Handle a key press while the pull prompt is open.
    pub fn handle_pull_prompt_key(&mut self, key: Key, mods: KeyMods) -> (ev: Vec<AppEvent>)
        requires
            old(self).wf(),
        ensures
            final(self).wf(),
            old(self)@.mode is PullPrompt ==> final(self)@ == key_step(old(self)@, key, mods).0,
            old(self)@.mode is PullPrompt ==> event_views(ev@) == key_step(old(self)@, key, mods).1,
            !(old(self)@.mode is PullPrompt) ==> final(self)@ == old(self)@ && ev@.len() == 0,
    {
        let (input, busy) = match &self.input_mode {
            InputMode::PullPrompt(st) => (st.input.clone(), st.in_progress),
            _ => (String::new(), true),
        };
        if busy {
            return no_events();
        }
        match key {
            Key::Esc => {
                self.input_mode = InputMode::Normal;
                self.search_view_state.search_active = false;
                no_events()
            },
            Key::Enter => {
                if input.as_str().is_empty() {
                    no_events()
                } else {
                    let sent = input.clone();
                    self.input_mode = InputMode::PullPrompt(
                        PullPromptState { input, error: None, in_progress: true },
                    );
                    self.search_view_state.search_active = false;
                    one_event(AppEvent::Pull(sent))
                }
            },
            Key::Backspace => {
                let mut shorter = input;
                string_pop(&mut shorter);
                self.input_mode = InputMode::PullPrompt(
                    PullPromptState { input: shorter, error: None, in_progress: false },
                );
                self.search_view_state.search_active = false;
                no_events()
            },
            Key::Char(c) => {
                if mods == KeyMods::Control && c == 'c' {
                    self.running = false;
                } else {
                    let mut longer = input;
                    string_push(&mut longer, c);
                    self.input_mode = InputMode::PullPrompt(
                        PullPromptState { input: longer, error: None, in_progress: false },
                    );
                    self.search_view_state.search_active = false;
                }
                no_events()
            },
            _ => no_events(),
        }
    }

    /// Handle a key press in whatever input mode is current; returns the
    /// requests for the package manager.
    pub fn handle_key(&mut self, key: Key, mods: KeyMods) -> (ev: Vec<AppEvent>)
        requires
            old(self).wf(),
        ensures
            final(self).wf(),
            final(self)@ == key_step(old(self)@, key, mods).0,
            event_views(ev@) == key_step(old(self)@, key, mods).1,
    {
        match &self.input_mode {
            InputMode::PullPrompt(_) => self.handle_pull_prompt_key(key, mods),
            InputMode::SearchInput => self.handle_search_key(key, mods),
            InputMode::FilterInput => {
                self.handle_filter_key(key, mods);
                no_events()
            },
            InputMode::PackageDetail(_) => {
                self.handle_package_detail_key(key, mods);
                no_events()
            },
            InputMode::TypeDetail => {
                self.handle_type_detail_key(key, mods);
                no_events()
            },
            InputMode::Normal => self.handle_normal_key(key, mods),
        }
    }

    /// Apply a reply of the package manager; returns the requests it leads to.
    pub fn handle_manager_event(&mut self, event: ManagerEvent) -> (ev: Vec<AppEvent>)
        requires
            old(self).wf(),
        ensures
            final(self).wf(),
            final(self)@ == manager_step(old(self)@, event).0,
            event_views(ev@) == manager_step(old(self)@, event).1,
    {
        match event {
            ManagerEvent::Ready => {
                self.manager_state = ManagerState::Ready;
                let mut r: Vec<AppEvent> = Vec::new();
                r.push(AppEvent::RequestPackages);
                r.push(AppEvent::RequestStateInfo);
                r.push(AppEvent::RequestKnownPackages);
                r.push(AppEvent::RequestWitInterfaces);
                r.push(AppEvent::DetectLocalWasm);
                assert(event_views(r@) =~= manager_step(old(self)@, ManagerEvent::Ready).1);
                r
            },
            ManagerEvent::PackagesList(ps) => {
                self.packages = ps;
                no_events()
            },
            ManagerEvent::PullResult(result) => self.handle_pull_result(result),
            ManagerEvent::DeleteResult(_) => no_events(),
            ManagerEvent::SearchResults(k) => {
                self.known_packages = k;
                no_events()
            },
            ManagerEvent::KnownPackagesList(k) => {
                self.known_packages = k;
                no_events()
            },
            ManagerEvent::RefreshTagsResult(_) => no_events(),
            ManagerEvent::WitInterfacesList(w) => {
                self.wit_interfaces = w;
                no_events()
            },
            ManagerEvent::LogLines(l) => {
                self.log_lines = l;
                no_events()
            },
        }
    }

    /// Apply the result of a pull: close the prompt on success (keeping it
    /// open with a warning when the package was already stored) and ask for
    /// fresh lists; on failure show the error in the prompt.
    pub fn handle_pull_result(&mut self, result: Result<InsertResult, String>) -> (ev: Vec<AppEvent>)
        requires
            old(self).wf(),
        ensures
            final(self).wf(),
            final(self)@ == manager_step(old(self)@, ManagerEvent::PullResult(result)).0,
            event_views(ev@) == manager_step(old(self)@, ManagerEvent::PullResult(result)).1,
    {
        match result {
            Ok(r) => {
                if r == InsertResult::AlreadyExists {
                    let warning = to_owned("Warning: package already exists in local store");
                    self.input_mode = InputMode::PullPrompt(
                        PullPromptState { input: String::new(), error: Some(warning), in_progress: false },
                    );
                    self.search_view_state.search_active = false;
                } else {
                    self.input_mode = InputMode::Normal;
                    self.search_view_state.search_active = false;
                }
                let mut ev: Vec<AppEvent> = Vec::new();
                ev.push(AppEvent::RequestKnownPackages);
                ev.push(AppEvent::RequestWitInterfaces);
                assert(event_views(ev@) =~= seq![AppEventView::RequestKnownPackages, AppEventView::RequestWitInterfaces]);
                ev
            },
            Err(e) => {
                let input = match &self.input_mode {
                    InputMode::PullPrompt(st) => Some(st.input.clone()),
                    _ => None,
                };
                match input {
                    Some(i) => {
                        self.input_mode = InputMode::PullPrompt(
                            PullPromptState { input: i, error: Some(e), in_progress: false },
                        );
                        self.search_view_state.search_active = false;
                    },
                    None => {},
                }
                no_events()
            },
        }
    }
}

/// Every index that the filter shows is an index of the packages, and the
/// shown indices are strictly increasing.
pub proof fn lemma_filtered_in_bounds(ps: Seq<ImageEntry>, q: Seq<char>)
    requires
        ps.len() <= usize::MAX,
    ensures
        forall|k: int| 0 <= k < filtered(ps, q).len() ==> (#[trigger] filtered(ps, q)[k]) < ps.len(),
        forall|a: int, b: int| 0 <= a < b < filtered(ps, q).len() ==> filtered(ps, q)[a] < filtered(ps, q)[b],
        filtered(ps, q).len() <= ps.len(),
    decreases ps.len(),
{
    if ps.len() > 0 {
        let rest = filtered(ps.drop_last(), q);
        lemma_filtered_in_bounds(ps.drop_last(), q);
        assert forall|k: int| 0 <= k < rest.len() implies #[trigger] rest[k] < ps.len() - 1 by {}
        let f = filtered(ps, q);
        if q.len() == 0 || package_matches(ps.last(), q) {
            assert(f == rest.push((ps.len() - 1) as usize));
            assert forall|a: int, b: int| 0 <= a < b < f.len() implies f[a] < f[b] by {
                if b < rest.len() {
                    assert(f[a] == rest[a] && f[b] == rest[b]);
                } else {
                    assert(f[a] == rest[a]);
                    assert(rest[a] < ps.len() - 1);
                }
            }
        } else {
            assert(f == rest);
        }
    }
}

} // verus!
