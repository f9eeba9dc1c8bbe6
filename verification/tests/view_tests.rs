use omp_manager::app::{App, SetupFocus, Tab};
use omp_manager::detect::{DetectionReport, FontStatus, OsInfo};
use omp_manager::events::quick_themes;
use omp_manager::shell::{Shell, ShellInfo};
use omp_manager::install::StepStatus;
use omp_manager::platform::Platform;
use omp_manager::view::{
    category_rows, confirm_rect, dashboard_cards, description_text, footer_keys, header_padding,
    selected_is_active, setup_detail_lines, shell_names, shell_rows, step_rows, system_info,
    theme_list_title, theme_rows, ShellMark, Tone,
};

fn shells() -> Vec<ShellInfo> {
    let mk = |s: Shell, available: bool, configured: bool| ShellInfo {
        shell: s,
        available,
        profile_path: String::new(),
        omp_configured: configured,
        current_theme: None,
    };
    vec![
        mk(Shell::Pwsh, false, false),
        mk(Shell::Bash, true, true),
        mk(Shell::Zsh, true, false),
        mk(Shell::Fish, true, false),
    ]
}

fn app() -> App {
    let report = DetectionReport {
        os: OsInfo { name: "Linux".to_string(), version: String::new(), is_wsl: false },
        omp: None,
        fonts: FontStatus { installed_fonts: Vec::new(), has_nerd_font: false },
    };
    App::new(report, shells(), &Vec::new())
}

#[test]
fn header_gap() {
    assert_eq!(header_padding(80, "19.2.0"), 80 - 30 - 7);
    assert_eq!(header_padding(20, "19.2.0"), 0);
}

#[test]
fn description_cut_to_width() {
    assert_eq!(description_text("short", 40), " short");
    assert_eq!(description_text("abcdefghij", 10), " abcde…");
    assert_eq!(description_text("abcdef", 10), " abcdef");
    assert_eq!(description_text("éééé", 10), " éééé…");
    assert_eq!(description_text("xyz", 2), " …");
}

#[test]
fn theme_list_rows() {
    let mut a = app();
    a.theme_scroll = 1;
    a.theme_selected = 2;
    let rows = theme_rows(&a, 6, 40);
    assert_eq!(rows.len(), 3);
    assert_eq!(rows[0].index, a.theme_filtered[1]);
    assert_eq!(rows[0].name, a.theme_list[a.theme_filtered[1]].name);
    assert!(rows[0].remote);
    assert!(!rows[0].selected);
    assert!(rows[1].selected);
    assert!(rows.iter().all(|r| !r.active));
    let end = theme_rows(&a, 1000, 40);
    assert_eq!(end.len(), a.theme_filtered.len() - 1);
}

#[test]
fn shell_summaries() {
    assert_eq!(shell_names(&shells(), true), "Bash");
    assert_eq!(shell_names(&shells(), false), "Zsh, Fish");
}

#[test]
fn wizard_shell_rows() {
    let mut a = app();
    a.setup_focus = SetupFocus::Detail;
    a.setup_shell_selected = 2;
    let rows = shell_rows(&a);
    assert_eq!(rows.len(), 3);
    assert_eq!(rows[0].text, "  ✓  Bash (already configured)");
    assert_eq!(rows[0].mark, ShellMark::Configured);
    assert_eq!(rows[1].text, "▶ ☑  Zsh");
    assert!(rows[1].selected);
    a.setup_shell_toggles[3] = false;
    let rows = shell_rows(&a);
    assert_eq!(rows[2].text, "  ☐  Fish");
    assert_eq!(rows[2].mark, ShellMark::Off);
}

#[test]
fn key_hints() {
    let k = footer_keys(Tab::Setup);
    assert_eq!(k.len(), 6);
    assert_eq!(k[3], ("Space", "Toggle"));
    assert_eq!(footer_keys(Tab::Themes)[2], ("/", "Search"));
}

#[test]
fn dialog_placement() {
    assert_eq!(confirm_rect(100, 40), (23, 15, 54, 9));
    assert_eq!(confirm_rect(30, 10), (2, 2, 26, 6));
    assert_eq!(confirm_rect(2, 2), (1, 1, 0, 0));
}

#[test]
fn wizard_theme_choices() {
    let q = quick_themes();
    assert_eq!(q.len(), 8);
    assert_eq!(q[0], "paradox");
    assert_eq!(q[7], "tokyonight_storm");
}

#[test]
fn dashboard_cards_and_info() {
    let mut a = app();
    a.dashboard_selected = 2;
    let cards = dashboard_cards(&a);
    assert_eq!(cards.len(), 5);
    assert!(cards[2].selected && !cards[0].selected);
    assert_eq!(cards[2].label, "Install Fonts");
    assert_eq!(cards[4].key_hint, "R");
    let info = system_info(&a);
    let texts: Vec<(&str, String)> = info.iter().map(|l| (l.label, l.value.clone())).collect();
    assert_eq!(texts[0], ("  Oh My Posh: ", "Not installed - use Quick Setup".to_string()));
    assert_eq!(info[0].tone, Tone::Warn);
    assert_eq!(texts[1].1, "Not detected - install one in Setup");
    assert_eq!(texts[2], ("  System: ", "Linux ".to_string()));
    assert_eq!(texts[3], ("  Configured: ", "Bash".to_string()));
    assert_eq!(texts[4], ("  Available: ", "Zsh, Fish".to_string()));
    assert_eq!(info.len(), 5);
    a.active_theme_name = Some("pure".to_string());
    a.fonts.has_nerd_font = true;
    let info = system_info(&a);
    assert_eq!(info[1].value, "detected");
    assert_eq!(info[2].value, "pure");
    assert_eq!(info[2].tone, Tone::Cyan);
}

#[test]
fn wizard_step_list() {
    let mut a = app();
    a.setup_current = 1;
    let rows = step_rows(&a);
    assert_eq!(rows.len(), 4);
    assert!(rows[1].current);
    assert_eq!(rows[0].icon, "○");
    assert_eq!(rows[0].status, StepStatus::Pending);
    assert_eq!(rows[3].label, "Configure Shell(s)");
    assert_eq!(rows[2].status_label, "Pending");
}

fn texts(lines: &[Vec<omp_manager::view::Piece>]) -> Vec<String> {
    lines.iter().map(|l| l.iter().map(|p| p.text.as_str()).collect::<String>()).collect()
}

#[test]
fn wizard_detail_panel() {
    let mut a = app();
    let l = setup_detail_lines(&a, Platform::Linux);
    let t = texts(&l);
    assert_eq!(t[0], "Step 1 of 4");
    assert_eq!(l[0][0].tone, Tone::Heading);
    assert_eq!(t[2], "Install Oh My Posh");
    assert_eq!(t[5], "  Enter  Install Oh My Posh");
    assert_eq!(t[7], "  Method: Official install script");
    assert_eq!(l[5][1].tone, Tone::Button);
    a.setup_current = 1;
    a.setup_font_selected = 1;
    let l = setup_detail_lines(&a, Platform::MacOs);
    let t = texts(&l);
    assert_eq!(t.len(), 5 + 2 + 16);
    assert_eq!(t[7], "   MesloLGS Nerd Font ★ recommended");
    assert_eq!(t[9], " ▶ FiraCode Nerd Font ★ recommended");
    assert!(l[9][1].highlight);
    assert_eq!(t[8], "     Recommended by Oh My Posh — clean and reliable");
    a.setup_current = 3;
    a.setup_focus = SetupFocus::Detail;
    a.setup_shell_selected = 3;
    let t = texts(&setup_detail_lines(&a, Platform::Linux));
    assert_eq!(t.len(), 5 + 2 + 3);
    assert_eq!(t[9], "▶ ☑  Fish");
    a.setup_current = 9;
    assert!(setup_detail_lines(&a, Platform::Linux).is_empty());
}

#[test]
fn categories_and_active_theme() {
    let mut a = app();
    a.theme_category_index = 3;
    let c = category_rows(&a);
    assert_eq!(c.len(), 7);
    assert_eq!(c[0].0, "All Themes");
    assert!(c[3].1 && !c[0].1);
    assert_eq!(selected_is_active(&a), Some(false));
    a.active_theme_name = Some(a.theme_list[a.theme_filtered[0]].name.clone());
    assert_eq!(selected_is_active(&a), Some(true));
    a.theme_filtered.clear();
    assert_eq!(selected_is_active(&a), None);
}

#[test]
fn theme_list_title_counts_shown_themes() {
    let mut a = app();
    let n = a.theme_filtered.len();
    assert_eq!(theme_list_title(&a), format!(" Themes ({}) ", n));
    a.theme_filtered = vec![0, 3];
    assert_eq!(theme_list_title(&a), " Themes (2) ");
    a.theme_filtered = Vec::new();
    assert_eq!(theme_list_title(&a), " Themes (0) ");
}
