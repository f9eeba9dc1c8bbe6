use omp_manager::config::{Block, OmpConfig, Segment, TransientPrompt};
use omp_manager::detect::{
    cache_path_from_output, detect_all, detect_fonts, detect_omp, detect_os,
    executable_from_output, FontStatus, OsInfo,
};
use omp_manager::fonts::{font_catalog, install_font, install_font_command};
use omp_manager::install::{
    configure_shell, create_setup_steps, install_omp, unconfigure_shell, update_command,
    update_omp, InstallStep, StepStatus,
};
use omp_manager::platform::{CommandOutcome, Platform};
use omp_manager::preview::{color_is_defined_exec, parse_color, render_placeholder, render_preview, Color};
use omp_manager::segments::{lookup_segment, segments_in_category, SegmentCategory};
use omp_manager::shell::{Shell, ShellInfo};
use omp_manager::text::{parse_usize, trim_str, usize_to_string};

fn ran(success: bool, stderr: &str) -> CommandOutcome {
    CommandOutcome::Ran { success, stderr: stderr.to_string() }
}

fn not_run(e: &str) -> CommandOutcome {
    CommandOutcome::NotRun { error: e.to_string() }
}

#[test]
fn os_descriptions() {
    let w = detect_os(Platform::Windows, Some("\r\nMicrosoft Windows [Version 10.0]\r\n"), None);
    assert_eq!(w.name, "Windows");
    assert_eq!(w.version, "Microsoft Windows [Version 10.0]");
    assert!(!w.is_wsl);
    let m = detect_os(Platform::MacOs, None, None);
    assert_eq!((m.name.as_str(), m.version.as_str()), ("macOS", ""));
    let l = detect_os(Platform::Linux, Some("\"Ubuntu 22.04.3 LTS\"\n"), Some("Linux 5.15 microsoft-standard-WSL2"));
    assert_eq!(l.version, "Ubuntu 22.04.3 LTS");
    assert!(l.is_wsl);
    let l2 = detect_os(Platform::Linux, None, Some("Linux 6.1 MICROSOFT"));
    assert_eq!(l2.version, "Linux");
    assert!(l2.is_wsl);
    assert!(!detect_os(Platform::Linux, None, None).is_wsl);
}

#[test]
fn omp_detection() {
    assert!(detect_omp(None, None, None, None).is_none());
    assert!(detect_omp(Some((false, "19.0")), None, None, None).is_none());
    assert!(detect_omp(Some((true, "  \n")), None, None, None).is_none());
    let i = detect_omp(Some((true, "19.2.0\n")), None, Some("/t".to_string()), None).unwrap();
    assert_eq!(i.version, "19.2.0");
    assert_eq!(i.executable, "oh-my-posh");
    assert_eq!(i.themes_path, Some("/t".to_string()));
    assert_eq!(executable_from_output(Platform::Linux, Some("/usr/bin/oh-my-posh\n")), Some("/usr/bin/oh-my-posh".to_string()));
    assert_eq!(
        executable_from_output(Platform::Windows, Some("C:\\a\\oh-my-posh.exe\r\nC:\\b\\oh-my-posh.exe\r\n")),
        Some("C:\\a\\oh-my-posh.exe".to_string())
    );
    assert_eq!(cache_path_from_output(Some("  /c/omp \n")), Some("/c/omp".to_string()));
    assert_eq!(cache_path_from_output(Some(" \n")), None);
    assert_eq!(cache_path_from_output(None), None);
}

#[test]
fn font_detection() {
    let f = detect_fonts(Platform::Linux, Some("DejaVu Sans\n MesloLGS Nerd Font \nHack NF\nArial\n"));
    assert_eq!(f.installed_fonts, vec!["MesloLGS Nerd Font".to_string(), "Hack NF".to_string()]);
    assert!(f.has_nerd_font);
    let w = detect_fonts(Platform::Windows, Some("FiraCode NF\r\n\r\n  \r\n"));
    assert_eq!(w.installed_fonts, vec!["FiraCode NF".to_string()]);
    let none = detect_fonts(Platform::MacOs, None);
    assert!(none.installed_fonts.is_empty());
    assert!(!none.has_nerd_font);
}

#[test]
fn detection_report() {
    let os = OsInfo { name: "Linux".to_string(), version: "x".to_string(), is_wsl: false };
    let fonts = FontStatus { installed_fonts: Vec::new(), has_nerd_font: false };
    let r = detect_all(os, None, fonts);
    assert!(r.omp.is_none());
    assert_eq!(r.os.name, "Linux");
}

#[test]
fn font_catalog_and_install() {
    let c = font_catalog();
    assert_eq!(c.len(), 18);
    assert_eq!(c[0].name, "Meslo");
    assert!(c[0].recommended);
    let cmd = install_font_command("Hack");
    assert_eq!(cmd.program, "oh-my-posh");
    assert_eq!(cmd.args, vec!["font", "install", "Hack"]);
    let ok = install_font("Hack", &ran(true, ""));
    assert!(ok.success);
    assert_eq!(ok.message, "Successfully installed Hack Nerd Font");
    let bad = install_font("Hack", &ran(false, " boom\n"));
    assert_eq!(bad.message, "Font install failed: boom");
    let missing = install_font("Hack", &not_run("no such file"));
    assert!(!missing.success);
    assert_eq!(missing.message, "Could not run oh-my-posh: no such file");
}

fn finish(step: InstallStep) -> (bool, String) {
    match step {
        InstallStep::Finish(r) => (r.success, r.message),
        InstallStep::Run(c) => panic!("expected a verdict, got a command {}", c.program),
    }
}

fn program(step: InstallStep) -> (String, Vec<String>) {
    match step {
        InstallStep::Run(c) => (c.program.to_string(), c.args),
        InstallStep::Finish(r) => panic!("expected a command, got {}", r.message),
    }
}

#[test]
fn install_on_windows() {
    let (p, a) = program(install_omp(Platform::Windows, &Vec::new()));
    assert_eq!(p, "winget");
    assert_eq!(a[0], "install");
    assert_eq!(finish(install_omp(Platform::Windows, &vec![ran(true, "")])), (true, "Oh My Posh installed via winget".to_string()));
    let (p, _) = program(install_omp(Platform::Windows, &vec![not_run("x")]));
    assert_eq!(p, "powershell");
    assert_eq!(
        finish(install_omp(Platform::Windows, &vec![ran(false, ""), ran(false, " denied ")])),
        (false, "Install failed: denied".to_string())
    );
}

#[test]
fn install_on_macos() {
    let (p, a) = program(install_omp(Platform::MacOs, &Vec::new()));
    assert_eq!(p, "brew");
    assert_eq!(a, vec!["install", "jandedobbeleer/oh-my-posh/oh-my-posh"]);
    assert_eq!(
        finish(install_omp(Platform::MacOs, &vec![ran(false, "tap error\n")])),
        (false, "brew install failed: tap error".to_string())
    );
    let (p, _) = program(install_omp(Platform::MacOs, &vec![not_run("no brew")]));
    assert_eq!(p, "bash");
    assert_eq!(
        finish(install_omp(Platform::MacOs, &vec![not_run("no brew"), ran(true, "")])),
        (true, "Oh My Posh installed via install script".to_string())
    );
}

#[test]
fn install_on_linux() {
    let (p, a) = program(install_omp(Platform::Linux, &Vec::new()));
    assert_eq!(p, "bash");
    assert_eq!(a, vec!["-c", "curl -s https://ohmyposh.dev/install.sh | bash -s"]);
    assert_eq!(
        finish(install_omp(Platform::Linux, &vec![not_run("no bash")])),
        (false, "Could not run installer: no bash".to_string())
    );
}

#[test]
fn update_commands_and_verdicts() {
    let c = update_command(Platform::MacOs);
    assert_eq!(c.program, "brew");
    assert_eq!(c.args, vec!["upgrade", "oh-my-posh"]);
    assert_eq!(update_omp(Platform::Linux, &ran(true, "")).message, "Oh My Posh updated");
    let r = update_omp(Platform::Windows, &not_run("x"));
    assert!(!r.success);
    assert_eq!(r.message, "Update failed - try manually: winget upgrade JanDeDobbeleer.OhMyPosh");
}

#[test]
fn shell_configuration_verdicts() {
    let info = ShellInfo {
        shell: Shell::Zsh,
        available: true,
        profile_path: "/h/.zshrc".to_string(),
        omp_configured: false,
        current_theme: None,
    };
    let r = configure_shell(&info, &Ok(()));
    assert!(r.success);
    assert_eq!(r.message, "Zsh configured - restart your shell to see the new prompt");
    let e = configure_shell(&info, &Err("permission denied".to_string()));
    assert_eq!(e.message, "Failed to update /h/.zshrc: permission denied");
    assert_eq!(unconfigure_shell(&info, &Ok(())).message, "Zsh unconfigured");
}

#[test]
fn setup_steps_and_statuses() {
    let s = create_setup_steps(true, false);
    assert_eq!(s.len(), 4);
    assert_eq!(s[0].label, "Install Oh My Posh");
    assert_eq!(s[0].status, StepStatus::Done);
    assert_eq!(s[1].status, StepStatus::Pending);
    assert_eq!(s[3].description, "Add Oh My Posh to your shell profile so it loads automatically");
    assert_eq!(StepStatus::Done.icon(), "✓");
    assert_eq!(StepStatus::InProgress.label(), "In progress…");
    assert_eq!(StepStatus::Skipped.icon(), "⊘");
}

#[test]
fn segment_catalog_lookup() {
    let git = lookup_segment("git").unwrap();
    assert_eq!(git.label, "Git");
    assert_eq!(git.category, SegmentCategory::Scm);
    assert!(lookup_segment("nope").is_none());
    let scm = segments_in_category(SegmentCategory::Scm);
    assert!(scm.iter().any(|s| s.segment_type == "git"));
    assert!(scm.iter().all(|s| s.category == SegmentCategory::Scm));
    assert_eq!(SegmentCategory::Cloud.label(), "Cloud / DevOps");
    assert_eq!(SegmentCategory::Music.icon(), "🎵");
}

#[test]
fn colour_parsing() {
    assert_eq!(parse_color(Some("#61AFEF")), Some(Color::Rgb(0x61, 0xaf, 0xef)));
    assert_eq!(parse_color(Some("##ffffff")), Some(Color::Rgb(255, 255, 255)));
    assert_eq!(parse_color(Some("Blue")), Some(Color::Blue));
    assert_eq!(parse_color(Some("#12345g")), None);
    assert_eq!(parse_color(Some("p:accent")), None);
    assert_eq!(parse_color(None), None);
    assert!(color_is_defined_exec(Some("#abcdef")));
    assert!(!color_is_defined_exec(Some("aé345")));
    assert!(color_is_defined_exec(Some("é1234")));
}

fn preview_config() -> OmpConfig {
    let mut b = Block::new_prompt("left");
    let mut p = Segment::new("path");
    p.background = Some("#000000".to_string());
    b.segments.push(p);
    let mut z = Segment::new("zzz");
    z.background = None;
    z.foreground = Some("cyan".to_string());
    b.segments.push(z);
    let nl = Block {
        block_type: "newline".to_string(),
        alignment: "left".to_string(),
        newline: None,
        segments: Vec::new(),
        extra: Vec::new(),
    };
    OmpConfig {
        schema: None,
        final_space: None,
        console_title_template: None,
        blocks: vec![b, nl],
        transient_prompt: Some(TransientPrompt { foreground: None, background: None, template: None, extra: Vec::new() }),
        secondary_prompt: None,
        tooltips: Vec::new(),
        palette: Vec::new(),
        palettes: Vec::new(),
        extra: Vec::new(),
    }
}

#[test]
fn preview_layout() {
    let bg = Color::Rgb(1, 2, 3);
    let lines = render_preview(&preview_config(), bg);
    assert_eq!(lines.len(), 7);
    assert_eq!(lines[0][0].text, "Block 1 (prompt left):");
    let spans = &lines[1];
    let path = lookup_segment("path").unwrap();
    assert_eq!(spans[0].text, format!(" {} {} ", path.icon, path.example));
    assert_eq!(spans[0].bg, Some(Color::Rgb(0, 0, 0)));
    assert_eq!(spans[0].fg, Some(Color::Rgb(255, 255, 255)));
    assert_eq!(spans[1].text, "\u{e0b0}");
    assert_eq!(spans[1].fg, Some(Color::Rgb(0, 0, 0)));
    assert_eq!(spans[2].text, " zzz ");
    assert_eq!(spans[2].bg, Some(Color::Rgb(152, 195, 121)));
    assert_eq!(spans[2].fg, Some(Color::Cyan));
    assert_eq!(spans[3].bg, Some(bg));
    assert!(lines[2].is_empty());
    assert!(lines[3].is_empty());
    assert_eq!(lines[4][0].text, "Transient: ❯ ");
    assert!(lines[5].is_empty());
    assert_eq!(lines[6][0].text, "Segments: path, zzz");
}

#[test]
fn preview_of_empty_config() {
    let mut c = preview_config();
    c.blocks.clear();
    let lines = render_preview(&c, Color::Black);
    assert_eq!(lines.len(), 1);
    assert_eq!(lines[0][0].text, "  (empty config - no blocks)");
    assert_eq!(lines[0][0].fg, Some(Color::DarkGray));
}

#[test]
fn placeholder_preview() {
    let lines = render_placeholder("pure", "Pure ultra-minimal prompt");
    assert_eq!(lines.len(), 6);
    assert_eq!(lines[1][0].text, "  pure");
    assert!(lines[1][0].bold);
    assert_eq!(lines[3][0].text, "  Pure ultra-minimal prompt");
    assert_eq!(lines[5][0].text, "  Install Oh My Posh to see a live preview");
}

#[test]
fn numbers_and_trimming() {
    assert_eq!(usize_to_string(0), "0");
    assert_eq!(usize_to_string(1234), "1234");
    assert_eq!(parse_usize("42"), Some(42));
    assert_eq!(parse_usize("+7"), Some(7));
    assert_eq!(parse_usize(""), None);
    assert_eq!(parse_usize("4x"), None);
    assert_eq!(parse_usize("99999999999999999999999999"), None);
    assert_eq!(trim_str("  a b \t\n"), "a b");
}
