use omp_manager::platform::{CommandOutcome, Platform};
use omp_manager::themes::{
    builtin_themes, discover_themes, download_all_themes, download_command, download_result,
    filter_themes, lookup_builtin, search_themes, theme_download_url, theme_file_name,
    theme_file_candidates, theme_name_from_file, theme_name_from_path, ThemeCategory, ThemeFetch,
};

#[test]
fn names_from_file_names() {
    assert_eq!(theme_name_from_file("paradox.omp.json"), Some("paradox".to_string()));
    assert_eq!(theme_name_from_file("mine.omp.yaml"), Some("mine".to_string()));
    assert_eq!(theme_name_from_file("mine.omp.toml"), Some("mine".to_string()));
    assert_eq!(theme_name_from_file("x.omp.omp.json"), Some("x.omp".to_string()));
    assert_eq!(theme_name_from_file("a.omp.json.omp.json"), Some("a".to_string()));
    assert_eq!(theme_name_from_file("x.omp.omp.yaml"), Some("x".to_string()));
    assert_eq!(theme_name_from_file("readme.md"), None);
    assert_eq!(theme_name_from_file("schema.json"), None);
}

#[test]
fn names_from_paths() {
    assert_eq!(theme_name_from_path("/t/themes/dracula.omp.json"), Some("dracula".to_string()));
    assert_eq!(theme_name_from_path("/t/themes/notes.txt"), None);
    assert_eq!(theme_name_from_path("/foo/paradox.omp.json"), Some("paradox".to_string()));
    assert_eq!(theme_name_from_path("/foo/x.omp.yaml"), Some("x".to_string()));
    assert_eq!(theme_name_from_path("/foo/x.omp.toml"), Some("x".to_string()));
    assert_eq!(theme_name_from_path("/foo/notes.json"), None);
    assert_eq!(
        theme_name_from_path("/foo/a.omp.json.omp.json"),
        Some("a".to_string())
    );
}

#[test]
fn name_and_file_name_round_trip() {
    for f in ["paradox.omp.json", "x.omp.omp.json", "a.json.omp.json"] {
        let name = theme_name_from_file(f).unwrap();
        assert_eq!(theme_file_name(&name), f);
    }
}

#[test]
fn builtin_lookup() {
    let defs = builtin_themes();
    assert_eq!(defs.len(), 108);
    let i = lookup_builtin(&defs, "dracula").unwrap();
    assert_eq!(defs[i].name, "dracula");
    assert_eq!(defs[i].description, "Dracula color scheme");
    assert_eq!(lookup_builtin(&defs, "no-such-theme"), None);
}

#[test]
fn category_labels() {
    assert_eq!(ThemeCategory::All.label(), "All Themes");
    assert_eq!(ThemeCategory::all().len(), 7);
}

fn disk(entries: &[(&str, &str)]) -> Vec<(String, String)> {
    entries.iter().map(|(f, p)| (f.to_string(), p.to_string())).collect()
}

#[test]
fn discovery_without_disk_lists_builtins_sorted() {
    let themes = discover_themes(&Vec::new());
    assert_eq!(themes.len(), 108);
    for w in themes.windows(2) {
        assert!(w[0].name.to_lowercase() <= w[1].name.to_lowercase());
    }
    assert!(themes.iter().all(|t| t.path.is_none() && t.config.is_none()));
}

#[test]
fn discovery_merges_disk_themes() {
    let themes = discover_themes(&disk(&[
        ("dracula.omp.json", "/t/dracula.omp.json"),
        ("zzmine.omp.yaml", "/t/zzmine.omp.yaml"),
        ("README.md", "/t/README.md"),
    ]));
    assert_eq!(themes.len(), 109);
    let d = themes.iter().find(|t| t.name == "dracula").unwrap();
    assert_eq!(d.path, Some("/t/dracula.omp.json".to_string()));
    assert_eq!(d.description, "Dracula color scheme");
    let mine = themes.iter().find(|t| t.name == "zzmine").unwrap();
    assert_eq!(mine.description, "zzmine theme");
    assert_eq!(mine.categories, vec![ThemeCategory::All]);
    assert_eq!(themes.last().unwrap().name, "zzmine");
    assert_eq!(themes.iter().filter(|t| t.name == "dracula").count(), 1);
}

#[test]
fn filter_by_category() {
    let themes = discover_themes(&Vec::new());
    let all = filter_themes(&themes, ThemeCategory::All);
    assert_eq!(all, (0..themes.len()).collect::<Vec<usize>>());
    let light = filter_themes(&themes, ThemeCategory::Light);
    assert!(!light.is_empty());
    assert!(light.iter().all(|&i| themes[i].categories.contains(&ThemeCategory::Light)));
    assert!(light.windows(2).all(|w| w[0] < w[1]));
}

#[test]
fn search_ignores_case() {
    let themes = discover_themes(&Vec::new());
    let hits = search_themes(&themes, "DRAC");
    assert_eq!(hits.len(), 1);
    assert_eq!(themes[hits[0]].name, "dracula");
    let by_desc = search_themes(&themes, "dracula color");
    assert!(by_desc.contains(&hits[0]));
    assert!(search_themes(&themes, "zzzz-nothing").is_empty());
}

#[test]
fn download_locations() {
    assert_eq!(theme_file_name("pure"), "pure.omp.json");
    assert_eq!(
        theme_download_url("pure"),
        "https://raw.githubusercontent.com/JanDeDobbeleer/oh-my-posh/main/themes/pure.omp.json"
    );
}

#[test]
fn download_commands() {
    let c = download_command(Platform::Linux, "https://u", "/d/x.omp.json");
    assert_eq!(c.program, "curl");
    assert_eq!(c.args, vec!["-fsSL", "-o", "/d/x.omp.json", "https://u"]);
    let w = download_command(Platform::Windows, "https://u", "C:\\d");
    assert_eq!(w.program, "powershell");
    assert_eq!(w.args.len(), 5);
    assert_eq!(
        w.args[4],
        "[Net.ServicePointManager]::SecurityProtocol = [Net.SecurityProtocolType]::Tls12; Invoke-WebRequest -Uri 'https://u' -OutFile 'C:\\d' -UseBasicParsing"
    );
}

#[test]
fn download_verdicts() {
    let ok = CommandOutcome::Ran { success: true, stderr: String::new() };
    assert_eq!(download_result(Platform::Linux, "pure", &ok, Some(2048)), Ok(()));
    assert_eq!(
        download_result(Platform::Linux, "pure", &ok, Some(10)),
        Err("Downloaded file is missing or empty for 'pure'".to_string())
    );
    assert_eq!(
        download_result(Platform::Linux, "pure", &ok, None),
        Err("Downloaded file is missing or empty for 'pure'".to_string())
    );
    let failed = CommandOutcome::Ran { success: false, stderr: "  404 \n".to_string() };
    assert_eq!(
        download_result(Platform::MacOs, "pure", &failed, None),
        Err("Download failed: 404".to_string())
    );
    let missing = CommandOutcome::NotRun { error: "not found".to_string() };
    assert_eq!(
        download_result(Platform::Linux, "pure", &missing, None),
        Err("Failed to run curl: not found".to_string())
    );
    assert_eq!(
        download_result(Platform::Windows, "pure", &missing, None),
        Err("Failed to run PowerShell: not found".to_string())
    );
}

#[test]
fn bulk_download_tally() {
    let fetches = vec![
        ThemeFetch::Downloaded,
        ThemeFetch::AlreadyPresent,
        ThemeFetch::Failed,
        ThemeFetch::Downloaded,
    ];
    assert_eq!(download_all_themes(&fetches), (2, 1));
    assert_eq!(download_all_themes(&Vec::new()), (0, 0));
}

#[test]
fn file_candidates_in_order() {
    let themes = discover_themes(&disk(&[("pure.omp.json", "/d/pure.omp.json")]));
    let pure = themes.iter().find(|t| t.name == "pure").unwrap();
    let c = theme_file_candidates(pure, Some("/t"));
    assert_eq!(c.len(), 2);
    assert_eq!(c[0], "/d/pure.omp.json");
    assert!(c[1].starts_with("/t") && c[1].ends_with("pure.omp.json"));
    let other = themes.iter().find(|t| t.name == "dracula").unwrap();
    assert!(theme_file_candidates(other, None).is_empty());
}
