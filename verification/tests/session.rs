use taphouse::app::{App, AppEvent, BrewAction, Effect, Key, Mode, Tab};
use taphouse::app::{action_args, list_args, non_empty_lines};
use taphouse::text::{name_matches, usize_to_dec};
use taphouse::types::{PackageKind, RemoteData};

fn strs(v: &[&str]) -> Vec<String> {
    v.iter().map(|s| s.to_string()).collect()
}

fn installed(app: &mut App, formulae: &[&str], casks: &[&str]) {
    let eff = app.handle(AppEvent::InstalledLoaded {
        formulae: strs(formulae),
        casks: strs(casks),
    });
    assert!(eff.is_none());
}

#[test]
fn tab_cycle_wraps_both_ways() {
    assert_eq!(Tab::InstalledFormulae.next(), Tab::InstalledCasks);
    assert_eq!(Tab::InstalledCasks.next(), Tab::BrowseFormulae);
    assert_eq!(Tab::BrowseFormulae.next(), Tab::BrowseCasks);
    assert_eq!(Tab::BrowseCasks.next(), Tab::InstalledFormulae);
    assert_eq!(Tab::InstalledFormulae.prev(), Tab::BrowseCasks);
    assert_eq!(Tab::BrowseCasks.prev(), Tab::BrowseFormulae);
    assert_eq!(Tab::BrowseFormulae.prev(), Tab::InstalledCasks);
    assert_eq!(Tab::InstalledCasks.prev(), Tab::InstalledFormulae);
}

#[test]
fn action_accessors() {
    let a = BrewAction::Install { name: "wget".to_string(), kind: PackageKind::Formula };
    assert_eq!(a.verb(), "install");
    assert_eq!(a.name(), "wget");
    assert_eq!(a.kind(), PackageKind::Formula);
    let u = BrewAction::Uninstall { name: "firefox".to_string(), kind: PackageKind::Cask };
    assert_eq!(u.verb(), "uninstall");
    assert_eq!(u.kind(), PackageKind::Cask);
    let g = BrewAction::Upgrade { name: "git".to_string(), kind: PackageKind::Formula };
    assert_eq!(g.verb(), "upgrade");
    assert_eq!(g.name(), "git");
}

#[test]
fn action_args_include_cask_flag_only_for_casks() {
    let f = BrewAction::Install { name: "wget".to_string(), kind: PackageKind::Formula };
    assert_eq!(action_args(&f), strs(&["install", "wget"]));
    let c = BrewAction::Uninstall { name: "firefox".to_string(), kind: PackageKind::Cask };
    assert_eq!(action_args(&c), strs(&["uninstall", "--cask", "firefox"]));
}

#[test]
fn list_args_per_kind() {
    assert_eq!(list_args(PackageKind::Formula), strs(&["list", "--formula", "-1"]));
    assert_eq!(list_args(PackageKind::Cask), strs(&["list", "--cask", "-1"]));
}

#[test]
fn non_empty_lines_drops_blanks() {
    let lines = strs(&["git", "", "wget", ""]);
    assert_eq!(non_empty_lines(&lines), strs(&["git", "wget"]));
    assert_eq!(non_empty_lines(&strs(&[])), strs(&[]));
}

#[test]
fn decimal_rendering() {
    assert_eq!(usize_to_dec(0), "0");
    assert_eq!(usize_to_dec(7), "7");
    assert_eq!(usize_to_dec(42), "42");
    assert_eq!(usize_to_dec(100907), "100907");
}

#[test]
fn matching_is_case_insensitive_substring() {
    assert!(name_matches(&"GitHub".to_string(), &"hub".to_string()));
    assert!(name_matches(&"git".to_string(), &"GIT".to_string()));
    assert!(name_matches(&"hello".to_string(), &"ell".to_string()));
    assert!(!name_matches(&"hello".to_string(), &"xyz".to_string()));
    assert!(name_matches(&"anything".to_string(), &"".to_string()));
}

#[test]
fn empty_probe_shows_nothing() {
    let mut app = App::new(false);
    installed(&mut app, &[], &[]);
    assert!(app.installed_formulae.is_empty());
    assert!(app.installed_casks.is_empty());
    assert!(app.visible_items().is_empty());
    assert!(app.selected_name().is_none());
    assert_eq!(app.selection, None);
    let eff = app.handle(AppEvent::Key(Key::Tab));
    assert!(eff.is_none());
    assert!(app.visible_items().is_empty());
}

#[test]
fn three_tab_presses_trigger_one_cask_fetch() {
    let mut app = App::new(false);
    let e1 = app.handle(AppEvent::Key(Key::Tab));
    assert!(e1.is_none());
    let e2 = app.handle(AppEvent::Key(Key::Tab));
    assert_eq!(e2, Some(Effect::FetchBrowseFormulae));
    let e3 = app.handle(AppEvent::Key(Key::Tab));
    assert_eq!(e3, Some(Effect::FetchBrowseCasks));
    assert_eq!(app.tab, Tab::BrowseCasks);
    assert!(matches!(app.browse_casks, RemoteData::Loading));
    assert!(matches!(app.browse_formulae, RemoteData::Loading));
    // Re-entering the tab must not fetch again: the slot is no longer
    // NotLoaded.
    let e4 = app.handle(AppEvent::Key(Key::Tab));
    assert!(e4.is_none());
    let e5 = app.handle(AppEvent::Key(Key::BackTab));
    assert!(e5.is_none());
    assert_eq!(app.tab, Tab::BrowseCasks);
}

#[test]
fn search_filters_and_selects_first_match() {
    let mut app = App::new(false);
    installed(&mut app, &["git", "wget", "gitk"], &[]);
    assert_eq!(app.visible_items(), strs(&["git", "wget", "gitk"]));
    app.handle(AppEvent::Key(Key::Char('/')));
    assert!(matches!(app.mode, Mode::Search));
    app.handle(AppEvent::Key(Key::Char('g')));
    app.handle(AppEvent::Key(Key::Char('i')));
    app.handle(AppEvent::Key(Key::Char('t')));
    assert_eq!(app.search, "git");
    assert_eq!(app.visible_items(), strs(&["git", "gitk"]));
    assert_eq!(app.selection, Some(0));
    assert_eq!(app.selected_name(), Some("git".to_string()));
    // Enter commits the filter and returns to Normal.
    app.handle(AppEvent::Key(Key::Enter));
    assert!(matches!(app.mode, Mode::Normal));
    assert_eq!(app.visible_items(), strs(&["git", "gitk"]));
}

#[test]
fn search_backspace_and_escape() {
    let mut app = App::new(false);
    installed(&mut app, &["git", "wget"], &[]);
    app.handle(AppEvent::Key(Key::Char('/')));
    app.handle(AppEvent::Key(Key::Char('w')));
    app.handle(AppEvent::Key(Key::Char('x')));
    assert_eq!(app.search, "wx");
    assert!(app.visible_items().is_empty());
    assert_eq!(app.selection, None);
    app.handle(AppEvent::Key(Key::Backspace));
    assert_eq!(app.search, "w");
    assert_eq!(app.visible_items(), strs(&["wget"]));
    assert_eq!(app.selection, Some(0));
    // Escape cancels and clears the filter.
    app.handle(AppEvent::Key(Key::Esc));
    assert!(matches!(app.mode, Mode::Normal));
    assert_eq!(app.search, "");
    assert_eq!(app.visible_items(), strs(&["git", "wget"]));
}

#[test]
fn selection_moves_and_clamps() {
    let mut app = App::new(false);
    installed(&mut app, &["a", "b", "c"], &[]);
    assert_eq!(app.selection, Some(0));
    app.handle(AppEvent::Key(Key::Down));
    assert_eq!(app.selection, Some(1));
    app.handle(AppEvent::Key(Key::Char('j')));
    assert_eq!(app.selection, Some(2));
    app.handle(AppEvent::Key(Key::Down));
    assert_eq!(app.selection, Some(2));
    app.handle(AppEvent::Key(Key::Up));
    assert_eq!(app.selection, Some(1));
    app.handle(AppEvent::Key(Key::Char('k')));
    assert_eq!(app.selection, Some(0));
    app.handle(AppEvent::Key(Key::Up));
    assert_eq!(app.selection, Some(0));
}

#[test]
fn selection_noop_on_empty_list() {
    let mut app = App::new(false);
    app.handle(AppEvent::Key(Key::Down));
    assert_eq!(app.selection, None);
    app.handle(AppEvent::Key(Key::Up));
    assert_eq!(app.selection, None);
}

#[test]
fn tab_away_and_back_resets_selection() {
    let mut app = App::new(false);
    installed(&mut app, &["a", "b"], &[]);
    app.handle(AppEvent::Key(Key::Down));
    assert_eq!(app.selection, Some(1));
    app.handle(AppEvent::Key(Key::Tab));
    app.handle(AppEvent::Key(Key::BackTab));
    assert_eq!(app.tab, Tab::InstalledFormulae);
    assert_eq!(app.installed_formulae, strs(&["a", "b"]));
    assert_eq!(app.selection, Some(0));
    assert_eq!(app.search, "");
}

#[test]
fn quit_keys() {
    let mut app = App::new(false);
    app.handle(AppEvent::Key(Key::Char('q')));
    assert!(app.should_quit);
    let mut app2 = App::new(false);
    app2.handle(AppEvent::Key(Key::CtrlChar('c')));
    assert!(app2.should_quit);
    // The interrupt combination quits even from Search mode.
    let mut app3 = App::new(false);
    app3.handle(AppEvent::Key(Key::Char('/')));
    app3.handle(AppEvent::Key(Key::CtrlChar('c')));
    assert!(app3.should_quit);
}

#[test]
fn refresh_key_triggers_reprobe() {
    let mut app = App::new(false);
    let eff = app.handle(AppEvent::Key(Key::Char('r')));
    assert_eq!(eff, Some(Effect::RefreshInstalled));
}

#[test]
fn debug_toggle_only_in_debug_mode() {
    let mut app = App::new(true);
    assert!(!app.show_debug);
    app.handle(AppEvent::Key(Key::Char('?')));
    assert!(app.show_debug);
    app.handle(AppEvent::Key(Key::Char('?')));
    assert!(!app.show_debug);
    let mut plain = App::new(false);
    plain.handle(AppEvent::Key(Key::Char('?')));
    assert!(!plain.show_debug);
}

#[test]
fn installed_loaded_logs_counts() {
    let mut app = App::new(true);
    installed(&mut app, &["git"], &["firefox", "zoom"]);
    assert_eq!(
        app.debug_logs.last().map(String::as_str),
        Some("[INFO] Loaded 1 formulae, 2 casks")
    );
}

#[test]
fn uninstall_requires_confirmation() {
    let mut app = App::new(false);
    installed(&mut app, &["git", "wget"], &[]);
    app.handle(AppEvent::Key(Key::Char('j')));
    assert_eq!(app.selected_name(), Some("wget".to_string()));
    let eff = app.handle(AppEvent::Key(Key::Char('u')));
    assert!(eff.is_none());
    match &app.mode {
        Mode::Confirm { action } => {
            assert_eq!(action.verb(), "uninstall");
            assert_eq!(action.name(), "wget");
            assert_eq!(action.kind(), PackageKind::Formula);
        }
        other => panic!("expected Confirm, got {:?}", other),
    }
    // 'n' discards the pending action.
    let eff = app.handle(AppEvent::Key(Key::Char('n')));
    assert!(eff.is_none());
    assert!(matches!(app.mode, Mode::Normal));
}

#[test]
fn yes_outside_confirm_has_no_effect() {
    let mut app = App::new(false);
    installed(&mut app, &["git"], &[]);
    let eff = app.handle(AppEvent::Key(Key::Char('y')));
    assert!(eff.is_none());
    assert!(matches!(app.mode, Mode::Normal));
    assert_eq!(app.tab, Tab::InstalledFormulae);
    assert_eq!(app.selection, Some(0));
}

#[test]
fn install_only_on_browse_tabs() {
    let mut app = App::new(false);
    installed(&mut app, &["git"], &[]);
    let eff = app.handle(AppEvent::Key(Key::Char('i')));
    assert!(eff.is_none());
    assert!(matches!(app.mode, Mode::Normal));
}

#[test]
fn failed_uninstall_logs_and_reprobes() {
    let mut app = App::new(false);
    installed(&mut app, &["git", "wget"], &[]);
    app.handle(AppEvent::Key(Key::Char('j')));
    app.handle(AppEvent::Key(Key::Char('u')));
    let eff = app.handle(AppEvent::Key(Key::Char('y')));
    assert_eq!(
        eff,
        Some(Effect::RunAction(BrewAction::Uninstall {
            name: "wget".to_string(),
            kind: PackageKind::Formula,
        }))
    );
    match &app.mode {
        Mode::Running { output, done, .. } => {
            assert!(output.is_empty());
            assert!(!done);
        }
        other => panic!("expected Running, got {:?}", other),
    }
    let eff = app.handle(AppEvent::ActionOutput("Error: no such keg".to_string()));
    assert!(eff.is_none());
    let eff = app.handle(AppEvent::ActionDone(false));
    assert_eq!(eff, Some(Effect::RefreshInstalled));
    match &app.mode {
        Mode::Running { output, done, .. } => {
            assert_eq!(output[0], "Error: no such keg");
            assert_eq!(output.last().map(String::as_str), Some("✗ Failed. Press any key to continue."));
            assert!(*done);
        }
        other => panic!("expected Running, got {:?}", other),
    }
    // The re-probe still succeeds and updates the installed tab.
    installed(&mut app, &["git"], &[]);
    assert_eq!(app.installed_formulae, strs(&["git"]));
    // Any closing key returns to Normal once done.
    app.handle(AppEvent::Key(Key::Enter));
    assert!(matches!(app.mode, Mode::Normal));
    assert_eq!(app.visible_items(), strs(&["git"]));
}

#[test]
fn running_ignores_keys_until_done() {
    let mut app = App::new(false);
    installed(&mut app, &["wget"], &[]);
    app.handle(AppEvent::Key(Key::Char('u')));
    app.handle(AppEvent::Key(Key::Char('y')));
    // Not done yet: neither quit nor navigation reacts.
    app.handle(AppEvent::Key(Key::Char('q')));
    assert!(!app.should_quit);
    app.handle(AppEvent::Key(Key::Esc));
    assert!(matches!(app.mode, Mode::Running { .. }));
    app.handle(AppEvent::Key(Key::Tab));
    assert_eq!(app.tab, Tab::InstalledFormulae);
    // A second confirmation cannot start while one action runs.
    let eff = app.handle(AppEvent::Key(Key::Char('y')));
    assert!(eff.is_none());
    app.handle(AppEvent::ActionDone(true));
    match &app.mode {
        Mode::Running { output, done, .. } => {
            assert_eq!(output.last().map(String::as_str), Some("✓ Done. Press any key to continue."));
            assert!(*done);
        }
        other => panic!("expected Running, got {:?}", other),
    }
    app.handle(AppEvent::Key(Key::Esc));
    assert!(matches!(app.mode, Mode::Normal));
}

#[test]
fn install_from_browse_tab() {
    let mut app = App::new(false);
    app.handle(AppEvent::Key(Key::Tab));
    app.handle(AppEvent::Key(Key::Tab));
    app.handle(AppEvent::Key(Key::Tab));
    assert_eq!(app.tab, Tab::BrowseCasks);
    let cask = taphouse::types::CaskInfo {
        token: "firefox".to_string(),
        name: vec!["Firefox".to_string()],
        desc: "Web browser".to_string(),
        homepage: "https://www.mozilla.org/firefox/".to_string(),
        version: "140.0".to_string(),
        auto_updates: Some(true),
    };
    app.handle(AppEvent::BrowseCasksLoaded(vec![cask]));
    assert_eq!(app.visible_items(), strs(&["firefox"]));
    assert_eq!(app.selection, Some(0));
    let info = app.selected_cask_info().expect("selected cask");
    assert_eq!(info.desc, "Web browser");
    let eff = app.handle(AppEvent::Key(Key::Char('i')));
    assert!(eff.is_none());
    match &app.mode {
        Mode::Confirm { action } => {
            assert_eq!(action.verb(), "install");
            assert_eq!(action.name(), "firefox");
            assert_eq!(action.kind(), PackageKind::Cask);
        }
        other => panic!("expected Confirm, got {:?}", other),
    }
}

#[test]
fn browse_fetch_failure_is_not_fatal() {
    let mut app = App::new(false);
    app.handle(AppEvent::Key(Key::Tab));
    app.handle(AppEvent::Key(Key::Tab));
    assert_eq!(app.tab, Tab::BrowseFormulae);
    assert!(matches!(app.browse_formulae, RemoteData::Loading));
    let eff = app.handle(AppEvent::BrowseFormulaeFailed("connection refused".to_string()));
    assert!(eff.is_none());
    assert!(!app.should_quit);
    // The failure is stored on the slot, in place of the list.
    match &app.browse_formulae {
        RemoteData::Failed(reason) => assert_eq!(reason, "connection refused"),
        other => panic!("expected Failed, got {:?}", other),
    }
    assert!(matches!(app.browse_casks, RemoteData::NotLoaded));
    assert_eq!(app.debug_logs.last().map(String::as_str), Some("[ERROR] connection refused"));
    assert!(app.visible_items().is_empty());
    // Other tabs keep working; re-entering the failed tab does not retry.
    app.handle(AppEvent::Key(Key::BackTab));
    assert_eq!(app.tab, Tab::InstalledCasks);
    let eff = app.handle(AppEvent::Key(Key::Tab));
    assert!(eff.is_none());
    assert!(matches!(app.browse_formulae, RemoteData::Failed(_)));
}

#[test]
fn cask_fetch_failure_marks_its_own_slot() {
    let mut app = App::new(false);
    app.handle(AppEvent::Key(Key::Tab));
    app.handle(AppEvent::Key(Key::Tab));
    app.handle(AppEvent::Key(Key::Tab));
    assert_eq!(app.tab, Tab::BrowseCasks);
    let eff = app.handle(AppEvent::BrowseCasksFailed("timed out".to_string()));
    assert!(eff.is_none());
    match &app.browse_casks {
        RemoteData::Failed(reason) => assert_eq!(reason, "timed out"),
        other => panic!("expected Failed, got {:?}", other),
    }
    // The formula slot is untouched by the cask failure.
    assert!(matches!(app.browse_formulae, RemoteData::Loading));
    assert!(app.visible_items().is_empty());
}

#[test]
fn error_event_surfaces_in_running_log() {
    let mut app = App::new(false);
    installed(&mut app, &["wget"], &[]);
    app.handle(AppEvent::Key(Key::Char('u')));
    app.handle(AppEvent::Key(Key::Char('y')));
    let eff = app.handle(AppEvent::Error("channel closed".to_string()));
    assert!(eff.is_none());
    assert_eq!(app.debug_logs.last().map(String::as_str), Some("[ERROR] channel closed"));
    match &app.mode {
        Mode::Running { output, done, .. } => {
            assert_eq!(output.last().map(String::as_str), Some("Error: channel closed"));
            assert!(*done);
        }
        other => panic!("expected Running, got {:?}", other),
    }
}

#[test]
fn selected_formula_info_finds_record() {
    let mut app = App::new(false);
    app.handle(AppEvent::Key(Key::Tab));
    app.handle(AppEvent::Key(Key::Tab));
    let f = taphouse::types::FormulaInfo {
        name: "git".to_string(),
        full_name: "git".to_string(),
        desc: "Distributed revision control system".to_string(),
        homepage: "https://git-scm.com".to_string(),
        versions: taphouse::types::Versions {
            stable: Some("2.49.0".to_string()),
            head: Some("HEAD".to_string()),
        },
        license: Some("GPL-2.0-only".to_string()),
        dependencies: vec!["gettext".to_string()],
        tap: "homebrew/core".to_string(),
    };
    app.handle(AppEvent::BrowseFormulaeLoaded(vec![f]));
    assert_eq!(app.visible_items(), strs(&["git"]));
    let info = app.selected_formula_info().expect("selected formula");
    assert_eq!(info.versions.stable.as_deref(), Some("2.49.0"));
    assert_eq!(info.dependencies, strs(&["gettext"]));
    // On an installed tab the browse record is not offered.
    app.handle(AppEvent::Key(Key::BackTab));
    app.handle(AppEvent::Key(Key::BackTab));
    assert!(app.selected_formula_info().is_none());
}

#[test]
fn duplicate_keys_select_first_record() {
    let mut app = App::new(false);
    app.handle(AppEvent::Key(Key::Tab));
    app.handle(AppEvent::Key(Key::Tab));
    let mk = |desc: &str| taphouse::types::FormulaInfo {
        name: "dup".to_string(),
        full_name: "dup".to_string(),
        desc: desc.to_string(),
        homepage: String::new(),
        versions: taphouse::types::Versions { stable: None, head: None },
        license: None,
        dependencies: vec![],
        tap: String::new(),
    };
    app.handle(AppEvent::BrowseFormulaeLoaded(vec![mk("first"), mk("second")]));
    assert_eq!(app.visible_items(), strs(&["dup", "dup"]));
    let info = app.selected_formula_info().expect("selected");
    assert_eq!(info.desc, "first");
}
