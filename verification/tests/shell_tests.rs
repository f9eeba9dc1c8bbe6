use omp_manager::platform::Platform;
use omp_manager::shell::{
    detect_all_shells, extract_config_path, init_command, is_shell_available, parse_profile,
    profile_location, remove_init_from_profile, shell_binary, shells_for_platform,
    write_init_to_profile, ProfileBase, Shell, ShellProbe, OMP_MARKER,
};

#[test]
fn shell_labels() {
    assert_eq!(Shell::Pwsh.label(), "PowerShell 7+");
    assert_eq!(Shell::WindowsPowerShell.label(), "Windows PowerShell");
    assert_eq!(Shell::Bash.label(), "Bash");
    assert_eq!(Shell::Cmd.label(), "Cmd (via Clink)");
    assert_eq!(Shell::Elvish.label(), "Elvish");
}

#[test]
fn shell_icons() {
    assert_eq!(Shell::Nushell.icon(), ">");
    assert_eq!(Shell::Elvish.icon(), "λ");
    assert_eq!(Shell::Bash.icon(), "");
}

#[test]
fn shell_omp_names() {
    assert_eq!(Shell::Pwsh.omp_name(), "pwsh");
    assert_eq!(Shell::WindowsPowerShell.omp_name(), "pwsh");
    assert_eq!(Shell::Nushell.omp_name(), "nu");
    assert_eq!(Shell::Zsh.omp_name(), "zsh");
}

#[test]
fn all_shells_in_order() {
    assert_eq!(
        Shell::all(),
        vec![
            Shell::Pwsh,
            Shell::WindowsPowerShell,
            Shell::Bash,
            Shell::Zsh,
            Shell::Fish,
            Shell::Nushell,
            Shell::Cmd,
            Shell::Elvish
        ]
    );
}

#[test]
fn init_commands_without_theme() {
    assert_eq!(init_command(Shell::Pwsh, None), "oh-my-posh init pwsh | Invoke-Expression");
    assert_eq!(init_command(Shell::Bash, None), "eval \"$(oh-my-posh init bash)\"");
    assert_eq!(init_command(Shell::Fish, None), "oh-my-posh init fish | source");
    assert_eq!(init_command(Shell::Nushell, None), "oh-my-posh init nu");
    assert_eq!(init_command(Shell::Elvish, None), "eval (oh-my-posh init elvish)");
}

#[test]
fn init_commands_with_theme() {
    assert_eq!(
        init_command(Shell::Zsh, Some("/t/dracula.omp.json")),
        "eval \"$(oh-my-posh init zsh --config '/t/dracula.omp.json')\""
    );
    assert_eq!(
        init_command(Shell::Cmd, Some("C:\\t\\x.omp.json")),
        "load(io.popen('oh-my-posh init cmd --config 'C:\\t\\x.omp.json''):read(\"*a\"))()"
    );
    assert_eq!(
        init_command(Shell::WindowsPowerShell, Some("p")),
        "oh-my-posh init pwsh --config 'p' | Invoke-Expression"
    );
}

#[test]
fn config_path_single_and_double_quotes() {
    assert_eq!(
        extract_config_path("oh-my-posh init bash --config '/a/b.omp.json'"),
        Some("/a/b.omp.json".to_string())
    );
    assert_eq!(
        extract_config_path("oh-my-posh init zsh --config   \"/x y/z.json\" more"),
        Some("/x y/z.json".to_string())
    );
    assert_eq!(extract_config_path("oh-my-posh init zsh"), None);
}

#[test]
fn parse_profile_finds_init_line() {
    let content = "export PATH=$PATH\neval \"$(oh-my-posh init bash --config '/t/pure.omp.json')\"\nalias ll=ls\n";
    assert_eq!(parse_profile(content), (true, Some("/t/pure.omp.json".to_string())));
}

#[test]
fn parse_profile_without_config() {
    assert_eq!(parse_profile("oh-my-posh init fish | source\n"), (true, None));
}

#[test]
fn parse_profile_unconfigured() {
    assert_eq!(parse_profile("alias oh-my-posh=true\n# init stuff later\n"), (false, None));
    assert_eq!(parse_profile(""), (false, None));
}

#[test]
fn write_init_replaces_old_line() {
    let before = "alias ll=ls\noh-my-posh init bash\nexport A=1\n";
    let after = write_init_to_profile(Shell::Bash, before, Some("/t/x.omp.json"));
    assert_eq!(
        after,
        format!(
            "alias ll=ls\nexport A=1\neval \"$(oh-my-posh init bash --config '/t/x.omp.json')\"  {}\n",
            OMP_MARKER
        )
    );
}

#[test]
fn write_init_into_empty_profile() {
    let after = write_init_to_profile(Shell::Fish, "", None);
    assert_eq!(after, "oh-my-posh init fish | source  # [omp-manager]\n");
}

#[test]
fn written_profile_reports_configured() {
    let after = write_init_to_profile(Shell::Zsh, "setopt x\n", Some("/t/a.omp.json"));
    assert_eq!(parse_profile(&after), (true, Some("/t/a.omp.json".to_string())));
}

#[test]
fn remove_init_drops_only_init_lines() {
    let content = "a\neval \"$(oh-my-posh init zsh)\"\nb\n";
    assert_eq!(remove_init_from_profile(content), "a\nb\n");
}

#[test]
fn removed_profile_reports_unconfigured() {
    let content = write_init_to_profile(Shell::Bash, "x=1\n", Some("/t/a.json"));
    let removed = remove_init_from_profile(&content);
    assert_eq!(removed, "x=1\n");
    assert_eq!(parse_profile(&removed), (false, None));
}

#[test]
fn remove_is_idempotent_on_example() {
    let once = remove_init_from_profile("oh-my-posh init nu\nuse x\n");
    let twice = remove_init_from_profile(&once);
    assert_eq!(once, twice);
}

#[test]
fn writing_twice_equals_writing_once() {
    let once = write_init_to_profile(Shell::Bash, "a\n", Some("/p"));
    let twice = write_init_to_profile(Shell::Bash, &once, Some("/p"));
    assert_eq!(once, twice);
}

#[test]
fn profile_locations() {
    let (base, parts) = profile_location(Shell::Bash, Platform::Linux);
    assert_eq!(base, ProfileBase::Home);
    assert_eq!(parts, vec![".bashrc"]);
    let (base, parts) = profile_location(Shell::Pwsh, Platform::Windows);
    assert_eq!(base, ProfileBase::Documents);
    assert_eq!(parts, vec!["PowerShell", "Microsoft.PowerShell_profile.ps1"]);
    let (_, parts) = profile_location(Shell::Nushell, Platform::MacOs);
    assert_eq!(parts, vec![".config", "nushell", "config.nu"]);
}

#[test]
fn availability_rules() {
    assert!(is_shell_available(Shell::Bash, Platform::Linux, true));
    assert!(!is_shell_available(Shell::Bash, Platform::Linux, false));
    assert!(is_shell_available(Shell::Cmd, Platform::Windows, false));
    assert!(!is_shell_available(Shell::Cmd, Platform::Linux, true));
    assert_eq!(shell_binary(Shell::WindowsPowerShell), Some("powershell"));
    assert_eq!(shell_binary(Shell::Cmd), None);
}

#[test]
fn shells_looked_for() {
    assert_eq!(shells_for_platform(Platform::Windows).len(), 8);
    assert_eq!(
        shells_for_platform(Platform::Linux),
        vec![Shell::Pwsh, Shell::Bash, Shell::Zsh, Shell::Fish, Shell::Nushell, Shell::Elvish]
    );
}

#[test]
fn detect_shells_from_probes() {
    let probe = |found: bool, path: &str, content: Option<&str>| ShellProbe {
        binary_found: found,
        profile_path: path.to_string(),
        profile_content: content.map(|c| c.to_string()),
    };
    let probes = vec![
        probe(false, "/h/.config/powershell/p.ps1", None),
        probe(true, "/h/.bashrc", Some("eval \"$(oh-my-posh init bash --config '/t/a.json')\"\n")),
        probe(true, "/h/.zshrc", Some("plain\n")),
        probe(false, "/h/.config/fish/config.fish", None),
        probe(false, "/h/.config/nushell/config.nu", None),
        probe(false, "/h/.config/elvish/rc.elv", None),
    ];
    let shells = detect_all_shells(Platform::Linux, &probes);
    assert_eq!(shells.len(), 6);
    assert_eq!(shells[1].shell, Shell::Bash);
    assert!(shells[1].available);
    assert!(shells[1].omp_configured);
    assert_eq!(shells[1].current_theme, Some("/t/a.json".to_string()));
    assert_eq!(shells[2].shell, Shell::Zsh);
    assert!(!shells[2].omp_configured);
    assert!(!shells[0].available);
    assert_eq!(shells[5].profile_path, "/h/.config/elvish/rc.elv");
}

#[test]
fn init_line_shape_for_every_shell() {
    let all = [
        Shell::Pwsh,
        Shell::WindowsPowerShell,
        Shell::Bash,
        Shell::Zsh,
        Shell::Fish,
        Shell::Nushell,
        Shell::Cmd,
        Shell::Elvish,
    ];
    for s in all {
        let plain = init_command(s, None);
        assert!(plain.contains(&format!("oh-my-posh init {}", s.omp_name())));
        assert!(!plain.contains("--config"));
        let themed = init_command(s, Some("/t/my theme.omp.json"));
        assert!(themed.contains(&format!("oh-my-posh init {}", s.omp_name())));
        assert!(themed.contains(" --config '/t/my theme.omp.json'"));
    }
    assert_eq!(
        init_command(Shell::WindowsPowerShell, Some("/x.omp.json")),
        init_command(Shell::Pwsh, Some("/x.omp.json"))
    );
}
