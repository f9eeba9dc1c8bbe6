use omp_manager::app::{
    theme_name_from_theme_path, App, ConfirmAction, DashboardItem, Focus, LayoutRegions, SetupFocus, StatusMessage, Tab,
};
use omp_manager::detect::{DetectionReport, FontStatus, OmpInfo, OsInfo};
use omp_manager::events::{
    ensure_scroll_visible, handle_key, handle_mouse, hit_test, tab_at, Effect, Key, MouseKind,
};
use omp_manager::install::{OpResult, StepStatus};
use omp_manager::shell::{Shell, ShellInfo};
use omp_manager::themes::ThemeCategory;

fn report(omp: bool, font: bool) -> DetectionReport {
    DetectionReport {
        os: OsInfo { name: "Linux".to_string(), version: "Test 1".to_string(), is_wsl: false },
        omp: if omp {
            Some(OmpInfo {
                version: "19.0.0".to_string(),
                executable: "/usr/bin/oh-my-posh".to_string(),
                themes_path: Some("/t".to_string()),
                cache_path: None,
            })
        } else {
            None
        },
        fonts: FontStatus {
            installed_fonts: if font { vec!["Meslo Nerd Font".to_string()] } else { Vec::new() },
            has_nerd_font: font,
        },
    }
}

fn shell(s: Shell, available: bool, configured: bool, theme: Option<&str>) -> ShellInfo {
    ShellInfo {
        shell: s,
        available,
        profile_path: format!("/h/{}", s.omp_name()),
        omp_configured: configured,
        current_theme: theme.map(|t| t.to_string()),
    }
}

fn sample_shells() -> Vec<ShellInfo> {
    vec![
        shell(Shell::Pwsh, false, false, None),
        shell(Shell::Bash, true, true, Some("/t/themes/dracula.omp.json")),
        shell(Shell::Zsh, true, false, None),
        shell(Shell::Fish, true, false, None),
    ]
}

fn new_app() -> App {
    App::new(report(true, false), sample_shells(), &Vec::new())
}

#[test]
fn tab_labels_and_order() {
    assert_eq!(Tab::Dashboard.label(), "Dashboard");
    assert_eq!(Tab::Themes.index(), 2);
    assert_eq!(Tab::all(), vec![Tab::Dashboard, Tab::Setup, Tab::Themes]);
}

#[test]
fn dashboard_item_texts() {
    assert_eq!(DashboardItem::QuickSetup.label(), "Quick Setup");
    assert_eq!(DashboardItem::UpdateOmp.key_hint(), "U");
    assert_eq!(DashboardItem::ResetDefault.icon(), "🔄");
    assert_eq!(
        DashboardItem::BrowseThemes.description(),
        "Find your perfect prompt theme from 100+ options"
    );
    assert_eq!(DashboardItem::all().len(), 5);
}

#[test]
fn new_app_state() {
    let app = new_app();
    assert!(app.running);
    assert_eq!(app.tab, Tab::Dashboard);
    assert_eq!(app.focus, Focus::List);
    assert_eq!(app.active_theme_name, Some("dracula".to_string()));
    assert_eq!(app.setup_shell_toggles, vec![false, false, true, true]);
    assert_eq!(app.setup_steps.len(), 4);
    assert_eq!(app.setup_steps[0].status, StepStatus::Done);
    assert_eq!(app.setup_steps[1].status, StepStatus::Pending);
    assert_eq!(app.theme_filtered.len(), app.theme_list.len());
    assert_eq!(app.theme_visible_height, 20);
    assert_eq!(app.theme_category, ThemeCategory::All);
    assert!(app.confirm.is_none());
    assert_eq!(app.status.tick, 0);
    assert!(app.layout.tab_bar.is_none());
}

#[test]
fn status_messages() {
    let mut app = new_app();
    app.set_status("hello");
    assert_eq!(app.status.text, "hello");
    assert!(!app.status.is_error);
    assert_eq!(app.status.tick, 120);
    app.set_status_err("bad");
    assert!(app.status.is_error);
    assert_eq!(app.status.tick, 160);
    app.tick_status();
    assert_eq!(app.status.tick, 159);
    let e = StatusMessage::default();
    assert_eq!(e.tick, 0);
    assert!(e.text.is_empty());
}

#[test]
fn tab_navigation_wraps() {
    let mut app = new_app();
    app.next_tab();
    assert_eq!(app.tab, Tab::Setup);
    app.next_tab();
    app.next_tab();
    assert_eq!(app.tab, Tab::Dashboard);
    app.prev_tab();
    assert_eq!(app.tab, Tab::Themes);
    app.next_tab();
    assert_eq!(app.tab, Tab::Dashboard);
}

#[test]
fn clamp_keeps_selection_visible() {
    let (mut sel, mut scroll) = (15usize, 0usize);
    App::clamp_selection(&mut sel, &mut scroll, 10, 4);
    assert_eq!((sel, scroll), (9, 6));
    let (mut sel, mut scroll) = (2usize, 5usize);
    App::clamp_selection(&mut sel, &mut scroll, 10, 4);
    assert_eq!((sel, scroll), (2, 2));
    let (mut sel, mut scroll) = (3usize, 3usize);
    App::clamp_selection(&mut sel, &mut scroll, 0, 4);
    assert_eq!((sel, scroll), (0, 0));
}

#[test]
fn scroll_follows_selection() {
    let mut scroll = 0usize;
    ensure_scroll_visible(12, &mut scroll, 20, 2);
    assert_eq!(scroll, 3);
    ensure_scroll_visible(1, &mut scroll, 20, 2);
    assert_eq!(scroll, 1);
    ensure_scroll_visible(5, &mut scroll, 20, 2);
    assert_eq!(scroll, 1);
    let mut s2 = 4usize;
    ensure_scroll_visible(0, &mut s2, 1, 2);
    assert_eq!(s2, 4);
    ensure_scroll_visible(7, &mut s2, 3, 0);
    assert_eq!(s2, 5);
}

#[test]
fn hit_testing() {
    let r = Some((10u16, 5u16, 4u16, 2u16));
    assert!(hit_test(10, 5, &r));
    assert!(hit_test(13, 6, &r));
    assert!(!hit_test(14, 6, &r));
    assert!(!hit_test(9, 5, &r));
    assert!(!hit_test(10, 7, &r));
    assert!(!hit_test(0, 0, &None));
}

#[test]
fn tab_bar_positions() {
    assert_eq!(tab_at(2, 2), Some(Tab::Dashboard));
    assert_eq!(tab_at(2, 15), Some(Tab::Dashboard));
    assert_eq!(tab_at(2, 16), Some(Tab::Setup));
    assert_eq!(tab_at(2, 26), Some(Tab::Themes));
    assert_eq!(tab_at(2, 33), Some(Tab::Themes));
    assert_eq!(tab_at(2, 34), None);
}

#[test]
fn quit_key() {
    let mut app = new_app();
    let eff = handle_key(&mut app, Key::Char('q'));
    assert!(matches!(eff, Effect::Nothing));
    assert!(!app.running);
}

#[test]
fn number_keys_switch_tabs() {
    let mut app = new_app();
    assert!(matches!(handle_key(&mut app, Key::Char('3')), Effect::LoadTheme));
    assert_eq!(app.tab, Tab::Themes);
    assert!(matches!(handle_key(&mut app, Key::Char('2')), Effect::Nothing));
    assert_eq!(app.tab, Tab::Setup);
    assert!(matches!(handle_key(&mut app, Key::Tab), Effect::LoadTheme));
    assert_eq!(app.tab, Tab::Themes);
    assert!(matches!(handle_key(&mut app, Key::BackTab), Effect::Nothing));
    assert_eq!(app.tab, Tab::Setup);
}

#[test]
fn dashboard_navigation() {
    let mut app = new_app();
    handle_key(&mut app, Key::Up);
    assert_eq!(app.dashboard_selected, 0);
    for _ in 0..10 {
        handle_key(&mut app, Key::Down);
    }
    assert_eq!(app.dashboard_selected, 4);
    handle_key(&mut app, Key::Enter);
    let d = app.confirm.as_ref().unwrap();
    assert_eq!(d.title, "Reset to Default");
    assert_eq!(d.action, ConfirmAction::ResetToDefault);
    assert!(!d.confirm_selected);
}

#[test]
fn dashboard_update_needs_omp() {
    let mut app = App::new(report(false, false), sample_shells(), &Vec::new());
    app.dashboard_selected = 3;
    assert!(matches!(handle_key(&mut app, Key::Enter), Effect::Nothing));
    assert_eq!(app.status.text, "Install Oh My Posh first (use Quick Setup)");
    assert!(app.status.is_error);
    let mut app2 = new_app();
    app2.dashboard_selected = 3;
    assert!(matches!(handle_key(&mut app2, Key::Enter), Effect::UpdateOmp));
    assert!(matches!(handle_key(&mut app2, Key::Char('u')), Effect::UpdateOmp));
}

#[test]
fn dashboard_shortcuts() {
    let mut app = new_app();
    handle_key(&mut app, Key::Char('f'));
    assert_eq!(app.tab, Tab::Setup);
    assert_eq!(app.setup_current, 1);
}

#[test]
fn confirm_dialog_keys() {
    let mut app = new_app();
    handle_key(&mut app, Key::Char('r'));
    assert!(app.confirm.is_some());
    handle_key(&mut app, Key::Left);
    assert!(app.confirm.as_ref().unwrap().confirm_selected);
    match handle_key(&mut app, Key::Enter) {
        Effect::Run(d) => assert_eq!(d.action, ConfirmAction::ResetToDefault),
        _ => panic!("expected the dialog to run"),
    }
    assert!(app.confirm.is_none());
    handle_key(&mut app, Key::Char('r'));
    assert!(matches!(handle_key(&mut app, Key::Enter), Effect::Nothing));
    assert!(app.confirm.is_none());
    handle_key(&mut app, Key::Char('r'));
    assert!(matches!(handle_key(&mut app, Key::Char('N')), Effect::Nothing));
    assert!(app.confirm.is_none());
    handle_key(&mut app, Key::Char('r'));
    assert!(matches!(handle_key(&mut app, Key::Char('y')), Effect::Run(_)));
}

#[test]
fn setup_steps_open_dialogs() {
    let mut app = App::new(report(false, false), sample_shells(), &Vec::new());
    handle_key(&mut app, Key::Char('2'));
    handle_key(&mut app, Key::Enter);
    let d = app.confirm.take().unwrap();
    assert_eq!(d.title, "Install Oh My Posh");
    assert_eq!(d.action, ConfirmAction::InstallOmp);
    handle_key(&mut app, Key::Down);
    assert_eq!(app.setup_current, 1);
    handle_key(&mut app, Key::Right);
    assert_eq!(app.setup_focus, SetupFocus::Detail);
    handle_key(&mut app, Key::Down);
    handle_key(&mut app, Key::Enter);
    let d = app.confirm.take().unwrap();
    assert_eq!(d.message, "Install FiraCode Nerd Font on your system?");
    assert_eq!(d.context, "FiraCode");
    app.setup_current = 2;
    app.setup_theme_selected = 7;
    handle_key(&mut app, Key::Down);
    assert_eq!(app.setup_theme_selected, 7);
    handle_key(&mut app, Key::Enter);
    let d = app.confirm.take().unwrap();
    assert_eq!(d.context, "tokyonight_storm");
    assert_eq!(d.message, "Set 'tokyonight_storm' as your active prompt theme?");
}

#[test]
fn setup_with_omp_installed_moves_on() {
    let mut app = new_app();
    handle_key(&mut app, Key::Char('2'));
    handle_key(&mut app, Key::Enter);
    assert!(app.confirm.is_none());
    assert_eq!(app.status.text, "Oh My Posh is already installed!");
    assert_eq!(app.setup_current, 1);
}

#[test]
fn setup_shell_selection_and_toggle() {
    let mut app = new_app();
    handle_key(&mut app, Key::Char('2'));
    app.setup_current = 3;
    app.setup_focus = SetupFocus::Detail;
    app.setup_shell_selected = 0;
    handle_key(&mut app, Key::Down);
    assert_eq!(app.setup_shell_selected, 1);
    handle_key(&mut app, Key::Char('j'));
    assert_eq!(app.setup_shell_selected, 2);
    handle_key(&mut app, Key::Char(' '));
    assert_eq!(app.setup_shell_toggles, vec![false, false, false, true]);
    handle_key(&mut app, Key::Char('k'));
    assert_eq!(app.setup_shell_selected, 1);
    handle_key(&mut app, Key::Char(' '));
    assert_eq!(app.setup_shell_toggles, vec![false, false, false, true]);
    handle_key(&mut app, Key::Enter);
    assert_eq!(app.confirm.as_ref().unwrap().action, ConfirmAction::ConfigureAllShells);
}

#[test]
fn theme_browser_keys() {
    let mut app = new_app();
    handle_key(&mut app, Key::Char('3'));
    assert!(matches!(handle_key(&mut app, Key::Down), Effect::LoadTheme));
    assert_eq!(app.theme_selected, 1);
    assert!(matches!(handle_key(&mut app, Key::Up), Effect::LoadTheme));
    assert!(matches!(handle_key(&mut app, Key::Up), Effect::Nothing));
    handle_key(&mut app, Key::Left);
    assert_eq!(app.focus, Focus::Sidebar);
    handle_key(&mut app, Key::Down);
    assert_eq!(app.theme_category_index, 1);
    assert_eq!(app.theme_category, ThemeCategory::Popular);
    assert!(app.theme_filtered.len() < app.theme_list.len());
    handle_key(&mut app, Key::Right);
    assert_eq!(app.focus, Focus::List);
    handle_key(&mut app, Key::Enter);
    let d = app.confirm.take().unwrap();
    let name = app.theme_list[app.theme_filtered[0]].name.clone();
    assert_eq!(d.context, name);
}

#[test]
fn theme_search_editing() {
    let mut app = new_app();
    handle_key(&mut app, Key::Char('3'));
    handle_key(&mut app, Key::Char('/'));
    assert!(app.theme_search_editing);
    for c in "dracx".chars() {
        handle_key(&mut app, Key::Char(c));
    }
    assert!(app.theme_filtered.is_empty());
    handle_key(&mut app, Key::Backspace);
    assert_eq!(app.theme_search, "drac");
    assert_eq!(app.theme_filtered.len(), 1);
    handle_key(&mut app, Key::Char('q'));
    assert!(app.running);
    assert_eq!(app.theme_search, "dracq");
    handle_key(&mut app, Key::Esc);
    assert!(!app.theme_search_editing);
}

#[test]
fn scrolling_the_theme_list() {
    let mut app = new_app();
    handle_key(&mut app, Key::Char('3'));
    app.theme_visible_height = 6;
    for _ in 0..5 {
        handle_key(&mut app, Key::Down);
    }
    assert_eq!(app.theme_selected, 5);
    assert_eq!(app.theme_scroll, 3);
}

fn layout_for_themes() -> LayoutRegions {
    let mut l = LayoutRegions::default();
    l.tab_bar = Some((2, 1, 60, 1));
    l.sidebar = Some((0, 4, 20, 12));
    l.list = Some((20, 4, 30, 30));
    l.detail = Some((50, 4, 30, 20));
    l
}

#[test]
fn mouse_on_tab_bar() {
    let mut app = new_app();
    app.layout = layout_for_themes();
    assert!(matches!(handle_mouse(&mut app, MouseKind::LeftDown, 28, 1), Effect::LoadTheme));
    assert_eq!(app.tab, Tab::Themes);
    handle_mouse(&mut app, MouseKind::LeftDown, 18, 1);
    assert_eq!(app.tab, Tab::Setup);
    handle_mouse(&mut app, MouseKind::LeftDown, 50, 1);
    assert_eq!(app.tab, Tab::Setup);
}

#[test]
fn mouse_in_theme_browser() {
    let mut app = new_app();
    app.layout = layout_for_themes();
    app.tab = Tab::Themes;
    handle_mouse(&mut app, MouseKind::LeftDown, 5, 7);
    assert_eq!(app.theme_category_index, 2);
    assert_eq!(app.theme_category, ThemeCategory::Minimal);
    assert_eq!(app.focus, Focus::Sidebar);
    app.theme_category_index = 0;
    app.theme_category = ThemeCategory::All;
    app.apply_theme_filter();
    assert!(matches!(handle_mouse(&mut app, MouseKind::LeftDown, 25, 11), Effect::LoadTheme));
    assert_eq!(app.theme_selected, 2);
    assert_eq!(app.focus, Focus::List);
    handle_mouse(&mut app, MouseKind::LeftDown, 25, 5);
    assert!(app.theme_search_editing);
    app.theme_search_editing = false;
    assert!(matches!(handle_mouse(&mut app, MouseKind::ScrollDown, 25, 20), Effect::LoadTheme));
    assert_eq!(app.theme_selected, 3);
    handle_mouse(&mut app, MouseKind::RightDown, 25, 20);
    assert_eq!(app.confirm.as_ref().unwrap().action, ConfirmAction::ApplyTheme);
    assert!(matches!(handle_mouse(&mut app, MouseKind::ScrollUp, 25, 20), Effect::Nothing));
    assert_eq!(app.theme_selected, 3);
}

#[test]
fn mouse_on_confirm_buttons() {
    let mut app = new_app();
    handle_key(&mut app, Key::Char('r'));
    app.layout.confirm_area = Some((10, 10, 40, 10));
    handle_mouse(&mut app, MouseKind::LeftDown, 40, 18);
    assert!(app.confirm.as_ref().unwrap().confirm_selected);
    handle_mouse(&mut app, MouseKind::LeftDown, 20, 18);
    assert!(!app.confirm.as_ref().unwrap().confirm_selected);
    handle_mouse(&mut app, MouseKind::LeftDown, 40, 12);
    assert!(!app.confirm.as_ref().unwrap().confirm_selected);
}

#[test]
fn mouse_on_dashboard_enters_item() {
    let mut app = new_app();
    app.layout.dashboard_area = Some((0, 5, 40, 12));
    assert!(matches!(handle_mouse(&mut app, MouseKind::LeftDown, 3, 7), Effect::LoadTheme));
    assert_eq!(app.dashboard_selected, 1);
    assert_eq!(app.tab, Tab::Themes);
}

#[test]
fn mouse_in_setup_detail_toggles_shell() {
    let mut app = new_app();
    app.tab = Tab::Setup;
    app.setup_current = 3;
    app.layout.setup_steps = Some((0, 4, 20, 10));
    app.layout.setup_detail = Some((20, 4, 40, 20));
    handle_mouse(&mut app, MouseKind::LeftDown, 30, 12);
    assert_eq!(app.setup_focus, SetupFocus::Detail);
    assert_eq!(app.setup_shell_selected, 2);
    assert_eq!(app.setup_shell_toggles, vec![false, false, false, true]);
    handle_mouse(&mut app, MouseKind::LeftDown, 5, 9);
    assert_eq!(app.setup_current, 2);
    assert_eq!(app.setup_focus, SetupFocus::Steps);
}

fn ok(msg: &str) -> OpResult {
    OpResult { success: true, message: msg.to_string() }
}

fn failed(msg: &str) -> OpResult {
    OpResult { success: false, message: msg.to_string() }
}

#[test]
fn install_finishes() {
    let mut app = App::new(report(false, false), sample_shells(), &Vec::new());
    app.tab = Tab::Setup;
    app.finish_install_omp(&failed("Install failed: x"), None, &Vec::new());
    assert!(app.status.is_error);
    assert_eq!(app.setup_current, 0);
    let disk = vec![("mine.omp.json".to_string(), "/t/mine.omp.json".to_string())];
    app.finish_install_omp(&ok("Oh My Posh installed via install script"), report(true, false).omp, &disk);
    assert_eq!(app.status.text, "Oh My Posh installed via install script");
    assert!(app.omp.is_some());
    assert_eq!(app.setup_steps[0].status, StepStatus::Done);
    assert_eq!(app.setup_current, 1);
    assert_eq!(app.theme_list.len(), 109);
}

#[test]
fn apply_theme_finishes() {
    let mut app = new_app();
    app.tab = Tab::Setup;
    app.setup_current = 2;
    let idx = app.theme_index("pure").unwrap();
    assert!(app.theme_list[idx].path.is_none());
    app.finish_apply_theme("pure", Some("/c/pure.omp.json".to_string()), 1, sample_shells());
    assert_eq!(app.theme_list[idx].path, Some("/c/pure.omp.json".to_string()));
    assert_eq!(app.active_theme_name, Some("pure".to_string()));
    assert_eq!(
        app.status.text,
        "Theme 'pure' applied to 1 shell(s) — restart shells to see changes"
    );
    assert_eq!(app.setup_steps[2].status, StepStatus::Done);
    assert_eq!(app.setup_current, 3);
    app.finish_apply_theme("nowhere", None, 0, Vec::new());
    assert!(app.status.is_error);
    assert_eq!(
        app.status.text,
        "Could not find or download theme 'nowhere' — check your internet connection"
    );
    assert_eq!(app.shells.len(), 4);
}

#[test]
fn configure_and_reset_finish() {
    let mut app = new_app();
    assert_eq!(app.shells_to_configure(), vec![2, 3]);
    assert_eq!(app.configured_shell_indices(), vec![1]);
    app.finish_configure_all(2, sample_shells());
    assert_eq!(
        app.status.text,
        "✓ Setup complete! Configured 2 shell(s) — restart them to see your new prompt"
    );
    assert_eq!(app.setup_steps[3].status, StepStatus::Done);
    app.finish_reset(1, sample_shells());
    assert_eq!(app.active_theme_name, None);
    assert_eq!(app.setup_steps[2].status, StepStatus::Pending);
    assert_eq!(app.setup_steps[3].status, StepStatus::Pending);
    assert_eq!(
        app.status.text,
        "Reset complete — removed Oh My Posh from 1 shell(s). Restart your shells to see the default prompt."
    );
    app.finish_reset(0, sample_shells());
    assert_eq!(app.status.text, "No configured shells found — already at default");
    app.finish_configure_all(0, sample_shells());
    assert_eq!(app.status.text, "No shells were toggled for configuration");
}

#[test]
fn shell_targets_and_paths() {
    let app = new_app();
    assert_eq!(app.shell_target("2"), Some(2));
    assert_eq!(app.shell_target("junk"), Some(0));
    assert_eq!(app.shell_target("9"), None);
    let p = app.shell_theme_path().unwrap();
    assert!(p.ends_with("dracula.omp.json"));
    assert!(p.starts_with("/t"));
    assert_eq!(app.wizard_theme_path(), Some(p));
}

#[test]
fn theme_loading_requests() {
    let mut app = new_app();
    let (idx, path) = app.theme_load_request().unwrap();
    assert_eq!(idx, app.theme_filtered[0]);
    assert_eq!(path, None);
    assert_eq!(app.begin_theme_download(idx), Some(app.theme_list[idx].name.clone()));
    assert_eq!(app.begin_theme_download(idx), None);
    let mut b = omp_manager::config::Block::new_prompt("left");
    b.segments.push(omp_manager::config::Segment::new("path"));
    let cfg = omp_manager::config::OmpConfig {
        schema: None,
        final_space: None,
        console_title_template: None,
        blocks: vec![b],
        transient_prompt: None,
        secondary_prompt: None,
        tooltips: Vec::new(),
        palette: Vec::new(),
        palettes: Vec::new(),
        extra: Vec::new(),
    };
    app.finish_theme_download(idx, "/c/x.omp.json".to_string(), cfg);
    assert!(app.theme_downloading.is_empty());
    assert!(app.theme_list[idx].config.is_some());
    assert!(app.theme_load_request().is_none());
}

#[test]
fn active_name_strips_omp_endings() {
    assert_eq!(
        theme_name_from_theme_path("/t/themes/dracula.omp.json"),
        Some("dracula".to_string())
    );
    assert_eq!(theme_name_from_theme_path("/t/a.omp.omp.json"), Some("a".to_string()));
    assert_eq!(theme_name_from_theme_path("/t/mine.json"), Some("mine".to_string()));
}
