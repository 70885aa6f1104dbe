use wasm_tools::image_entry::{ImageEntry, InsertResult};
use wasm_tools::known_package::KnownPackage;
use wasm_tools::tui_app::{filter_packages, lowered_fields_match, App, InputMode, Key, KeyMods, ManagerEvent};
use wasm_tools::tui_manager::{
    invalid_reference_message, manager_step, plan_request, ManagerAction, ManagerInput, ManagerPhase, ManagerRequest, Refresh,
};
use wasm_tools::tui_views::{AppEvent, InterfacesViewState, PackagesViewState, SearchViewState, Tab};
use wasm_tools::wit_interface::WitInterface;

fn ready_app() -> App {
    let mut app = App::new(false);
    let requests = app.handle_manager_event(ManagerEvent::Ready);
    assert_eq!(requests.len(), 5);
    app
}

fn image(repo: &str, tag: &str) -> ImageEntry {
    ImageEntry::new_for_testing("ghcr.io".into(), repo.into(), Some(tag.into()), None, 10)
}

fn press(app: &mut App, key: Key) -> Vec<AppEvent> {
    app.handle_key(key, KeyMods::NoMods)
}

#[test]
fn tabs_cycle_both_ways() {
    assert_eq!(Tab::all().len(), 6);
    for t in Tab::all() {
        assert_eq!(t.next().prev(), t);
        assert_eq!(t.prev().next(), t);
    }
    assert_eq!(Tab::Log.next(), Tab::Local);
    assert_eq!(Tab::Local.title(), "Local [1]");
}

#[test]
fn quit_keys_stop_the_app() {
    let mut app = App::new(false);
    press(&mut app, Key::Char('q'));
    assert!(!app.is_running());
    let mut app = App::new(false);
    app.handle_key(Key::Char('c'), KeyMods::Control);
    assert!(!app.is_running());
}

#[test]
fn number_keys_pick_tabs_and_six_asks_for_the_log() {
    let mut app = App::new(false);
    press(&mut app, Key::Char('3'));
    assert_eq!(app.current_tab(), Tab::Interfaces);
    let ev = press(&mut app, Key::Char('6'));
    assert_eq!(app.current_tab(), Tab::Log);
    assert!(matches!(ev.as_slice(), [AppEvent::RequestLogLines]));
}

#[test]
fn pull_prompt_needs_a_ready_online_manager() {
    let mut app = App::new(false);
    press(&mut app, Key::Char('2'));
    press(&mut app, Key::Char('p'));
    assert!(matches!(app.input_mode(), InputMode::Normal));

    let mut app = ready_app();
    press(&mut app, Key::Char('2'));
    press(&mut app, Key::Char('p'));
    assert!(matches!(app.input_mode(), InputMode::PullPrompt(_)));
    for c in "ghcr.io/a/b:1".chars() {
        press(&mut app, Key::Char(c));
    }
    press(&mut app, Key::Backspace);
    let ev = press(&mut app, Key::Enter);
    assert!(matches!(ev.as_slice(), [AppEvent::Pull(r)] if r == "ghcr.io/a/b:"));
    match app.input_mode() {
        InputMode::PullPrompt(s) => assert!(s.in_progress),
        _ => panic!("prompt should stay open while pulling"),
    }
    // Keys are ignored while the pull runs.
    assert!(press(&mut app, Key::Esc).is_empty());
    assert!(matches!(app.input_mode(), InputMode::PullPrompt(_)));

    let ev = app.handle_manager_event(ManagerEvent::PullResult(Err("boom".into())));
    assert!(ev.is_empty());
    match app.input_mode() {
        InputMode::PullPrompt(s) => {
            assert_eq!(s.error.as_deref(), Some("boom"));
            assert!(!s.in_progress);
            assert_eq!(s.input, "ghcr.io/a/b:");
        }
        _ => panic!("prompt should show the error"),
    }
}

#[test]
fn offline_mode_blocks_network_keys() {
    let mut app = App::new(true);
    app.handle_manager_event(ManagerEvent::Ready);
    assert!(!app.can_use_network());
    press(&mut app, Key::Char('2'));
    press(&mut app, Key::Char('p'));
    assert!(matches!(app.input_mode(), InputMode::Normal));
}

#[test]
fn pull_results_close_or_warn() {
    let mut app = ready_app();
    let ev = app.handle_manager_event(ManagerEvent::PullResult(Ok(InsertResult::Inserted)));
    assert!(matches!(app.input_mode(), InputMode::Normal));
    assert!(matches!(ev.as_slice(), [AppEvent::RequestKnownPackages, AppEvent::RequestWitInterfaces]));
    app.handle_manager_event(ManagerEvent::PullResult(Ok(InsertResult::AlreadyExists)));
    match app.input_mode() {
        InputMode::PullPrompt(s) => {
            assert_eq!(s.error.as_deref(), Some("Warning: package already exists in local store"));
            assert!(s.input.is_empty());
        }
        _ => panic!("expected a warning in the prompt"),
    }
}

#[test]
fn filter_narrows_the_packages_list() {
    let mut app = ready_app();
    app.handle_manager_event(ManagerEvent::PackagesList(vec![
        image("user/alpha", "v1"),
        image("user/beta", "v2"),
        image("user/alphabet", "v3"),
    ]));
    press(&mut app, Key::Char('2'));
    press(&mut app, Key::Char('/'));
    assert!(matches!(app.input_mode(), InputMode::FilterInput));
    for c in "ALPHA".chars() {
        press(&mut app, Key::Char(c));
    }
    assert_eq!(app.filtered_packages(), vec![0, 2]);
    press(&mut app, Key::Enter);
    assert!(matches!(app.input_mode(), InputMode::Normal));
    press(&mut app, Key::Down);
    press(&mut app, Key::Enter);
    assert!(matches!(app.input_mode(), InputMode::PackageDetail(2)));
    press(&mut app, Key::Esc);
    assert!(matches!(app.input_mode(), InputMode::Normal));
}

#[test]
fn deleting_the_last_row_moves_the_selection_up() {
    let mut app = ready_app();
    app.handle_manager_event(ManagerEvent::PackagesList(vec![image("a/x", "1"), image("a/y", "2")]));
    press(&mut app, Key::Char('2'));
    press(&mut app, Key::Down);
    let ev = press(&mut app, Key::Char('d'));
    assert!(matches!(ev.as_slice(), [AppEvent::Delete(r)] if r == "ghcr.io/a/y:2"));
    assert_eq!(app.packages_view_state().selected(), Some(0));
}

#[test]
fn search_sends_the_query_or_lists_everything() {
    let mut app = ready_app();
    press(&mut app, Key::Char('4'));
    press(&mut app, Key::Char('/'));
    let ev = press(&mut app, Key::Enter);
    assert!(matches!(ev.as_slice(), [AppEvent::RequestKnownPackages]));
    press(&mut app, Key::Char('/'));
    press(&mut app, Key::Char('w'));
    let ev = press(&mut app, Key::Enter);
    assert!(matches!(ev.as_slice(), [AppEvent::SearchPackages(q)] if q == "w"));
}

#[test]
fn search_results_can_be_pulled_and_refreshed() {
    let mut app = ready_app();
    let p = KnownPackage::new_for_testing(
        "ghcr.io".into(),
        "user/repo".into(),
        None,
        vec!["v1.0.0".into()],
        vec![],
        vec![],
        "now".into(),
        "now".into(),
    );
    app.handle_manager_event(ManagerEvent::KnownPackagesList(vec![p]));
    press(&mut app, Key::Char('4'));
    let ev = press(&mut app, Key::Char('p'));
    assert!(matches!(ev.as_slice(), [AppEvent::Pull(r)] if r == "ghcr.io/user/repo:v1.0.0"));
    let ev = press(&mut app, Key::Char('r'));
    assert!(matches!(ev.as_slice(), [AppEvent::RefreshTags(a, b)] if a == "ghcr.io" && b == "user/repo"));
}

#[test]
fn interface_detail_scrolls_and_closes() {
    let mut app = ready_app();
    let w = WitInterface::new_for_testing(1, Some("a:b".into()), "package a:b;".into(), None, 0, 0, "now".into());
    app.handle_manager_event(ManagerEvent::WitInterfacesList(vec![(w, "ghcr.io/a/b:1".into())]));
    press(&mut app, Key::Char('3'));
    press(&mut app, Key::Enter);
    assert!(matches!(app.input_mode(), InputMode::TypeDetail));
    press(&mut app, Key::Down);
    press(&mut app, Key::Down);
    press(&mut app, Key::Up);
    assert_eq!(app.types_view_state().detail_scroll, 1);
    press(&mut app, Key::Backspace);
    assert!(!app.types_view_state().viewing_detail);
}

#[test]
fn log_view_scrolls_within_the_lines() {
    let mut app = ready_app();
    app.handle_manager_event(ManagerEvent::LogLines(vec!["a".into(), "b".into(), "c".into()]));
    press(&mut app, Key::Char('6'));
    press(&mut app, Key::Down);
    press(&mut app, Key::Down);
    press(&mut app, Key::Down);
    assert_eq!(app.log_scroll(), 2);
    press(&mut app, Key::Up);
    assert_eq!(app.log_scroll(), 1);
    app.handle_key(Key::Char('G'), KeyMods::Shift);
    assert_eq!(app.log_scroll(), 2);
}

#[test]
fn view_states_wrap_around() {
    let mut s = PackagesViewState::new();
    s.select_prev(3);
    assert_eq!(s.selected(), Some(2));
    s.select_next(3);
    assert_eq!(s.selected(), Some(0));
    let mut s = SearchViewState::new();
    s.select_next(0);
    assert_eq!(s.selected(), Some(0));
    let mut s = InterfacesViewState::new();
    s.select_next(2);
    s.select_next(2);
    assert_eq!(s.selected(), Some(0));
}

#[test]
fn manager_requests_follow_the_events() {
    let (req, refresh) = plan_request(AppEvent::RefreshTags("ghcr.io".into(), "user/repo".into()));
    match req {
        ManagerRequest::RefreshTags { reference, .. } => assert_eq!(reference, "ghcr.io/user/repo:latest"),
        other => panic!("unexpected: {other:?}"),
    }
    assert_eq!(refresh, Refresh::KnownPackages);
    assert!(matches!(plan_request(AppEvent::Pull("x".into())), (ManagerRequest::Pull(_), Refresh::Packages)));
    assert!(matches!(plan_request(AppEvent::SearchPackages("q".into())).0, ManagerRequest::Search(_, 0, 100)));
    assert!(matches!(plan_request(AppEvent::Quit).0, ManagerRequest::Stop));
    assert_eq!(invalid_reference_message("bad"), "Invalid reference: bad");
}

#[test]
fn filter_matches_lowercased_fields() {
    assert!(lowered_fields_match("user/wasi-http", "ghcr.io", None, "wasi"));
    assert!(lowered_fields_match("user/app", "ghcr.io", Some("v1.0"), "v1"));
    assert!(!lowered_fields_match("user/app", "ghcr.io", None, "docker"));
    let packages = vec![
        wasm_tools::image_entry::ImageEntry::new_for_testing("ghcr.io".into(), "User/WASI-Http".into(), None, None, 0),
        wasm_tools::image_entry::ImageEntry::new_for_testing("docker.io".into(), "x/y".into(), Some("Latest".into()), None, 0),
    ];
    assert_eq!(filter_packages(&packages, "wasi"), vec![0]);
    assert_eq!(filter_packages(&packages, "latest"), vec![1]);
    assert_eq!(filter_packages(&packages, ""), vec![0, 1]);
    assert_eq!(filter_packages(&packages, "io"), vec![0, 1]);
    assert!(filter_packages(&packages, "nothing").is_empty());
}

#[test]
fn manager_reports_ready_first_and_stops_at_quit() {
    let (phase, action) = manager_step(ManagerPhase::Opening, ManagerInput::Event(AppEvent::RequestPackages));
    assert_eq!(phase, ManagerPhase::Opening);
    assert!(matches!(action, ManagerAction::Ignore));
    let (phase, action) = manager_step(phase, ManagerInput::Opened);
    assert_eq!(phase, ManagerPhase::Serving);
    assert!(matches!(action, ManagerAction::SendReady));
    let (phase, action) = manager_step(phase, ManagerInput::Event(AppEvent::RequestPackages));
    assert_eq!(phase, ManagerPhase::Serving);
    assert!(matches!(action, ManagerAction::Serve(AppEvent::RequestPackages)));
    let (phase, action) = manager_step(phase, ManagerInput::Event(AppEvent::Quit));
    assert_eq!(phase, ManagerPhase::Stopped);
    assert!(matches!(action, ManagerAction::Stop));
    let (phase, action) = manager_step(phase, ManagerInput::Event(AppEvent::RequestPackages));
    assert_eq!(phase, ManagerPhase::Stopped);
    assert!(matches!(action, ManagerAction::Ignore));
}

#[test]
fn search_input_is_shown_active_while_typing() {
    let mut app = ready_app();
    press(&mut app, Key::Char('4'));
    assert!(!app.search_view_state().search_active);
    press(&mut app, Key::Char('/'));
    assert!(app.search_view_state().search_active);
    press(&mut app, Key::Char('w'));
    assert!(app.search_view_state().search_active);
    press(&mut app, Key::Esc);
    assert!(!app.search_view_state().search_active);
    press(&mut app, Key::Char('/'));
    press(&mut app, Key::Enter);
    assert!(!app.search_view_state().search_active);
}

#[test]
fn pull_prompt_keys_do_nothing_outside_the_prompt() {
    let mut app = ready_app();
    let ev = app.handle_pull_prompt_key(Key::Char('x'), KeyMods::NoMods);
    assert!(ev.is_empty());
    assert!(matches!(app.input_mode(), InputMode::Normal));
    let ev = app.handle_pull_prompt_key(Key::Esc, KeyMods::NoMods);
    assert!(ev.is_empty());
    assert!(matches!(app.input_mode(), InputMode::Normal));
}
