//! Shells, where their profiles live, the `oh-my-posh init` line each one
//! needs, and the editing of profile contents that adds or removes that line.

use vstd::prelude::*;

use crate::platform::Platform;
use crate::text::{
    chars_of, concat2, concat3, join_lines, join_nl, lines_spec, lines_vec, seq_contains, string_of,
    vec_contains,
};

verus! {

broadcast use vstd::string::group_string_axioms;

// ── Shell enum ───────────────────────────────────────────────────────────────

#[derive(Debug, Clone, Copy, PartialEq, Eq, Hash, Structural)]
pub enum Shell {
    Pwsh,
    WindowsPowerShell,
    Bash,
    Zsh,
    Fish,
    Nushell,
    Cmd,
    Elvish,
}

pub open spec fn all_shells_spec() -> Seq<Shell> {
    seq![
        Shell::Pwsh,
        Shell::WindowsPowerShell,
        Shell::Bash,
        Shell::Zsh,
        Shell::Fish,
        Shell::Nushell,
        Shell::Cmd,
        Shell::Elvish,
    ]
}

pub open spec fn shell_label_spec(s: Shell) -> Seq<char> {
    match s {
        Shell::Pwsh => "PowerShell 7+"@,
        Shell::WindowsPowerShell => "Windows PowerShell"@,
        Shell::Bash => "Bash"@,
        Shell::Zsh => "Zsh"@,
        Shell::Fish => "Fish"@,
        Shell::Nushell => "Nushell"@,
        Shell::Cmd => "Cmd (via Clink)"@,
        Shell::Elvish => "Elvish"@,
    }
}

pub open spec fn shell_icon_spec(s: Shell) -> Seq<char> {
    match s {
        Shell::Pwsh | Shell::WindowsPowerShell => ""@,
        Shell::Bash => ""@,
        Shell::Zsh => ""@,
        Shell::Fish => ""@,
        Shell::Nushell => ">"@,
        Shell::Cmd => ""@,
        Shell::Elvish => "λ"@,
    }
}

pub open spec fn shell_omp_name_spec(s: Shell) -> Seq<char> {
    match s {
        Shell::Pwsh | Shell::WindowsPowerShell => "pwsh"@,
        Shell::Bash => "bash"@,
        Shell::Zsh => "zsh"@,
        Shell::Fish => "fish"@,
        Shell::Nushell => "nu"@,
        Shell::Cmd => "cmd"@,
        Shell::Elvish => "elvish"@,
    }
}

/// Every shell has a non-empty label.
pub proof fn lemma_shell_labels_nonempty()
    ensures
        forall|s: Shell| #[trigger] shell_label_spec(s).len() > 0,
{
    reveal_strlit("PowerShell 7+");
    reveal_strlit("Windows PowerShell");
    reveal_strlit("Bash");
    reveal_strlit("Zsh");
    reveal_strlit("Fish");
    reveal_strlit("Nushell");
    reveal_strlit("Cmd (via Clink)");
    reveal_strlit("Elvish");
    assert forall|s: Shell| #[trigger] shell_label_spec(s).len() > 0 by {
        match s {
            Shell::Pwsh => {},
            Shell::WindowsPowerShell => {},
            Shell::Bash => {},
            Shell::Zsh => {},
            Shell::Fish => {},
            Shell::Nushell => {},
            Shell::Cmd => {},
            Shell::Elvish => {},
        }
    }
}

impl Shell {
    /// Every shell, in display order.
    pub fn all() -> (v: Vec<Shell>)
        ensures
            v@ == all_shells_spec(),
    {
        vec![
            Shell::Pwsh,
            Shell::WindowsPowerShell,
            Shell::Bash,
            Shell::Zsh,
            Shell::Fish,
            Shell::Nushell,
            Shell::Cmd,
            Shell::Elvish,
        ]
    }

    pub fn label(&self) -> (s: &'static str)
        ensures
            s@ == shell_label_spec(*self),
    {
        match self {
            Shell::Pwsh => "PowerShell 7+",
            Shell::WindowsPowerShell => "Windows PowerShell",
            Shell::Bash => "Bash",
            Shell::Zsh => "Zsh",
            Shell::Fish => "Fish",
            Shell::Nushell => "Nushell",
            Shell::Cmd => "Cmd (via Clink)",
            Shell::Elvish => "Elvish",
        }
    }

    pub fn icon(&self) -> (s: &'static str)
        ensures
            s@ == shell_icon_spec(*self),
    {
        match self {
            Shell::Pwsh | Shell::WindowsPowerShell => "",
            Shell::Bash => "",
            Shell::Zsh => "",
            Shell::Fish => "",
            Shell::Nushell => ">",
            Shell::Cmd => "",
            Shell::Elvish => "λ",
        }
    }

    /// The shell name as `oh-my-posh init <shell>` expects it.
    pub fn omp_name(&self) -> (s: &'static str)
        ensures
            s@ == shell_omp_name_spec(*self),
    {
        match self {
            Shell::Pwsh | Shell::WindowsPowerShell => "pwsh",
            Shell::Bash => "bash",
            Shell::Zsh => "zsh",
            Shell::Fish => "fish",
            Shell::Nushell => "nu",
            Shell::Cmd => "cmd",
            Shell::Elvish => "elvish",
        }
    }
}

// ── Shell info ───────────────────────────────────────────────────────────────

/// A shell as detected on this system.
#[derive(Debug, Clone)]
pub struct ShellInfo {
    pub shell: Shell,
    /// Whether the shell binary was found.
    pub available: bool,
    /// Path to the profile / RC file (it may not exist yet).
    pub profile_path: String,
    /// Whether the profile already holds an oh-my-posh init line.
    pub omp_configured: bool,
    /// The theme path named by that init line, if any.
    pub current_theme: Option<String>,
}

// ── Profile location ─────────────────────────────────────────────────────────

/// The directory a profile path starts from.
#[derive(Debug, Clone, Copy, PartialEq, Eq, Structural)]
pub enum ProfileBase {
    /// The user's home directory.
    Home,
    /// The user's documents directory (home/`Documents` when unknown).
    Documents,
}

/// The default profile of `shell`: its base directory and the path
/// components below it.
pub open spec fn profile_location_spec(shell: Shell, platform: Platform) -> (
    ProfileBase,
    Seq<Seq<char>>,
) {
    let win = platform == Platform::Windows;
    match shell {
        Shell::Pwsh => if win {
            (ProfileBase::Documents, seq!["PowerShell"@, "Microsoft.PowerShell_profile.ps1"@])
        } else {
            (
                ProfileBase::Home,
                seq![".config"@, "powershell"@, "Microsoft.PowerShell_profile.ps1"@],
            )
        },
        Shell::WindowsPowerShell => (
            ProfileBase::Documents,
            seq!["WindowsPowerShell"@, "Microsoft.PowerShell_profile.ps1"@],
        ),
        Shell::Bash => (ProfileBase::Home, seq![".bashrc"@]),
        Shell::Zsh => (ProfileBase::Home, seq![".zshrc"@]),
        Shell::Fish => (ProfileBase::Home, seq![".config"@, "fish"@, "config.fish"@]),
        Shell::Nushell => if win {
            (ProfileBase::Home, seq!["AppData"@, "Roaming"@, "nushell"@, "config.nu"@])
        } else {
            (ProfileBase::Home, seq![".config"@, "nushell"@, "config.nu"@])
        },
        Shell::Cmd => (ProfileBase::Home, seq![".config"@, "clink"@, "oh-my-posh.lua"@]),
        Shell::Elvish => (ProfileBase::Home, seq![".config"@, "elvish"@, "rc.elv"@]),
    }
}

pub open spec fn parts_view(v: Seq<&'static str>) -> Seq<Seq<char>> {
    v.map_values(|s: &'static str| s@)
}

/// Where the default profile of `shell` lives on `platform`.
pub fn profile_location(shell: Shell, platform: Platform) -> (r: (ProfileBase, Vec<&'static str>))
    ensures
        r.0 == profile_location_spec(shell, platform).0,
        parts_view(r.1@) == profile_location_spec(shell, platform).1,
{
    let win = platform == Platform::Windows;
    let r: (ProfileBase, Vec<&'static str>) = match shell {
        Shell::Pwsh => if win {
            (ProfileBase::Documents, vec!["PowerShell", "Microsoft.PowerShell_profile.ps1"])
        } else {
            (ProfileBase::Home, vec![".config", "powershell", "Microsoft.PowerShell_profile.ps1"])
        },
        Shell::WindowsPowerShell => (
            ProfileBase::Documents,
            vec!["WindowsPowerShell", "Microsoft.PowerShell_profile.ps1"],
        ),
        Shell::Bash => (ProfileBase::Home, vec![".bashrc"]),
        Shell::Zsh => (ProfileBase::Home, vec![".zshrc"]),
        Shell::Fish => (ProfileBase::Home, vec![".config", "fish", "config.fish"]),
        Shell::Nushell => if win {
            (ProfileBase::Home, vec!["AppData", "Roaming", "nushell", "config.nu"])
        } else {
            (ProfileBase::Home, vec![".config", "nushell", "config.nu"])
        },
        Shell::Cmd => (ProfileBase::Home, vec![".config", "clink", "oh-my-posh.lua"]),
        Shell::Elvish => (ProfileBase::Home, vec![".config", "elvish", "rc.elv"]),
    };
    assert(parts_view(r.1@) =~= profile_location_spec(shell, platform).1);
    r
}

// ── Init command ─────────────────────────────────────────────────────────────

pub open spec fn opt_str_view(o: Option<&str>) -> Option<Seq<char>> {
    match o {
        Some(s) => Some(s@),
        None => None,
    }
}

pub open spec fn opt_string_view(o: Option<String>) -> Option<Seq<char>> {
    match o {
        Some(s) => Some(s@),
        None => None,
    }
}

/// ` --config '<path>'`, or nothing for the default theme.
pub open spec fn config_flag_spec(theme_path: Option<Seq<char>>) -> Seq<char> {
    match theme_path {
        Some(p) => " --config '"@ + p + "'"@,
        None => Seq::empty(),
    }
}

/// The line that loads Oh My Posh in `shell`'s profile.
pub open spec fn init_command_spec(shell: Shell, theme_path: Option<Seq<char>>) -> Seq<char> {
    let f = config_flag_spec(theme_path);
    match shell {
        Shell::Pwsh | Shell::WindowsPowerShell => "oh-my-posh init pwsh"@ + f
            + " | Invoke-Expression"@,
        Shell::Bash => "eval \"$(oh-my-posh init bash"@ + f + ")\""@,
        Shell::Zsh => "eval \"$(oh-my-posh init zsh"@ + f + ")\""@,
        Shell::Fish => "oh-my-posh init fish"@ + f + " | source"@,
        Shell::Nushell => "oh-my-posh init nu"@ + f,
        Shell::Cmd => "load(io.popen('oh-my-posh init cmd"@ + f + "'):read(\"*a\"))()"@,
        Shell::Elvish => "eval (oh-my-posh init elvish"@ + f + ")"@,
    }
}

fn config_flag(theme_path: Option<&str>) -> (r: String)
    ensures
        r@ == config_flag_spec(opt_str_view(theme_path)),
{
    match theme_path {
        Some(p) => concat3(" --config '", p, "'"),
        None => String::new(),
    }
}

/// Build the init line for `shell`; `theme_path` is the theme file to load,
/// or `None` for the default theme.
pub fn init_command(shell: Shell, theme_path: Option<&str>) -> (r: String)
    ensures
        r@ == init_command_spec(shell, opt_str_view(theme_path)),
{
    let f = config_flag(theme_path);
    let fs = f.as_str();
    match shell {
        Shell::Pwsh | Shell::WindowsPowerShell => concat3(
            "oh-my-posh init pwsh",
            fs,
            " | Invoke-Expression",
        ),
        Shell::Bash => concat3("eval \"$(oh-my-posh init bash", fs, ")\""),
        Shell::Zsh => concat3("eval \"$(oh-my-posh init zsh", fs, ")\""),
        Shell::Fish => concat3("oh-my-posh init fish", fs, " | source"),
        Shell::Nushell => concat2("oh-my-posh init nu", fs),
        Shell::Cmd => concat3("load(io.popen('oh-my-posh init cmd", fs, "'):read(\"*a\"))()"),
        Shell::Elvish => concat3("eval (oh-my-posh init elvish", fs, ")"),
    }
}

// ── Profile contents ─────────────────────────────────────────────────────────

/// Marker appended to the line this program writes.
pub const OMP_MARKER: &'static str = "# [omp-manager]";

/// The pattern that finds the `--config '<path>'` (or `"<path>"`) value.
pub const CONFIG_PATTERN: &'static str = r#"--config\s+['"](.*?)['"]"#;

/// A profile line that loads Oh My Posh: it mentions both `oh-my-posh` and `init`.
pub open spec fn is_init_line(l: Seq<char>) -> bool {
    seq_contains(l, "oh-my-posh"@) && seq_contains(l, "init"@)
}

fn is_init_line_exec(l: &Vec<char>) -> (b: bool)
    ensures
        b == is_init_line(l@),
{
    let a = chars_of("oh-my-posh");
    let b = chars_of("init");
    vec_contains(l, &a) && vec_contains(l, &b)
}

/// The lines that do not load Oh My Posh, in order.
pub open spec fn drop_init_lines(ls: Seq<Seq<char>>) -> Seq<Seq<char>>
    decreases ls.len(),
{
    if ls.len() == 0 {
        ls
    } else {
        let r = drop_init_lines(ls.drop_last());
        if is_init_line(ls.last()) {
            r
        } else {
            r.push(ls.last())
        }
    }
}

/// The first line that loads Oh My Posh, if any.
pub open spec fn first_init_line(ls: Seq<Seq<char>>) -> Option<Seq<char>>
    decreases ls.len(),
{
    if ls.len() == 0 {
        None
    } else if is_init_line(ls[0]) {
        Some(ls[0])
    } else {
        first_init_line(ls.drop_first())
    }
}

/// What the regex crate returns for the first capture group of the first
/// match of `pattern` in `haystack` (`None` when the pattern does not
/// compile, nothing matches, or the group does not take part).
pub uninterp spec fn regex_group1(pattern: Seq<char>, haystack: Seq<char>) -> Option<Seq<char>>;

/// A theme path that the config pattern captures whole: no quote of either
/// kind and no line break.
pub open spec fn plain_path(p: Seq<char>) -> bool {
    forall|i: int| 0 <= i < p.len() ==> p[i] != '\'' && p[i] != '"' && p[i] != '\n'
}

/// `regex::Regex::new(pattern)` then `captures(haystack)` and group 1 of
/// the match. The result is named (`regex_group1`); for the config pattern
/// two facts of the regex crate's documented semantics (leftmost-first
/// matching, lazy `*?`, `.` not matching a line break) are stated: without
/// the literal `--config` nothing matches, and when the first `--config` is
/// followed by one space and a quoted plain path, group 1 is that path.
/// Everything else about regular expressions is left unsaid.
#[verifier::external_body]
fn regex_first_group(pattern: &str, haystack: &str) -> (r: Option<String>)
    ensures
        opt_string_view(r) == regex_group1(pattern@, haystack@),
        pattern@ == CONFIG_PATTERN@ && !seq_contains(haystack@, "--config"@) ==> r is None,
        forall|a: Seq<char>, p: Seq<char>, b: Seq<char>|
            pattern@ == CONFIG_PATTERN@ && haystack@ == #[trigger] (a + " --config '"@ + p + "'"@
                + b) && !seq_contains(a + " "@, "--config"@) && plain_path(p) ==> opt_string_view(r)
                == Some(p),
{
    match regex::Regex::new(pattern) {
        Ok(re) => match re.captures(haystack) {
            Some(caps) => match caps.get(1) {
                Some(m) => Some(m.as_str().to_string()),
                None => None,
            },
            None => None,
        },
        Err(_) => None,
    }
}

/// The theme path that an init line passes with `--config`.
pub open spec fn config_path_of(line: Seq<char>) -> Option<Seq<char>> {
    regex_group1(CONFIG_PATTERN@, line)
}

/// Extract the `--config '...'` or `--config "..."` value from an init line:
/// the text after the first `--config`, its spaces and an opening quote of
/// either kind, up to the next quote of either kind (so an apostrophe ends
/// a double-quoted value too).
pub fn extract_config_path(line: &str) -> (r: Option<String>)
    ensures
        opt_string_view(r) == config_path_of(line@),
        !seq_contains(line@, "--config"@) ==> r is None,
        forall|a: Seq<char>, p: Seq<char>, b: Seq<char>|
            line@ == #[trigger] (a + " --config '"@ + p + "'"@ + b) && !seq_contains(
                a + " "@,
                "--config"@,
            ) && plain_path(p) ==> opt_string_view(r) == Some(p),
{
    regex_first_group(CONFIG_PATTERN, line)
}

/// What a profile says about Oh My Posh: whether it loads it, and with
/// which theme path.
pub open spec fn profile_status_spec(content: Seq<char>) -> (bool, Option<Seq<char>>) {
    match first_init_line(lines_spec(content)) {
        Some(l) => (true, config_path_of(l)),
        None => (false, None),
    }
}

proof fn lemma_first_init_skip(ls: Seq<Seq<char>>, i: int)
    requires
        0 <= i < ls.len(),
        !is_init_line(ls[i]),
    ensures
        first_init_line(ls.skip(i)) == first_init_line(ls.skip(i + 1)),
{
    assert(ls.skip(i).drop_first() =~= ls.skip(i + 1));
}

fn lines_of_str(s: &str) -> (r: Vec<Vec<char>>)
    ensures
        r@.len() == lines_spec(s@).len(),
        forall|i: int| 0 <= i < r@.len() ==> #[trigger] r@[i]@ == lines_spec(s@)[i],
{
    let v = chars_of(s);
    lines_vec(&v)
}

/// Read a profile's contents and tell whether it already loads Oh My Posh,
/// and the theme path of the first such line.
pub fn parse_profile(content: &str) -> (r: (bool, Option<String>))
    ensures
        (r.0, opt_string_view(r.1)) == profile_status_spec(content@),
        forall|before: Seq<char>, sh: Shell, p: Seq<char>|
            content@ == #[trigger] profile_with_init(before, sh, Some(p)) && plain_path(p) ==> r.0
                && opt_string_view(r.1) == Some(p),
        forall|before: Seq<char>, sh: Shell|
            content@ == #[trigger] profile_with_init(before, sh, None) ==> r.0 && r.1 is None,
{
    let ls = lines_of_str(content);
    let ghost sl = lines_spec(content@);
    let mut i: usize = 0;
    proof {
        assert(sl.skip(0) =~= sl);
    }
    while i < ls.len()
        invariant
            i <= ls.len(),
            ls@.len() == sl.len(),
            forall|k: int| 0 <= k < ls@.len() ==> #[trigger] ls@[k]@ == sl[k],
            sl == lines_spec(content@),
            first_init_line(sl) == first_init_line(sl.skip(i as int)),
        decreases ls.len() - i,
    {
        let line = &ls[i];
        if is_init_line_exec(line) {
            let s = string_of(line);
            let theme = extract_config_path(s.as_str());
            assert(sl.skip(i as int)[0] == sl[i as int]);
            proof {
                assert forall|before: Seq<char>, sh: Shell, p: Seq<char>|
                    content@ == #[trigger] profile_with_init(before, sh, Some(p)) && plain_path(
                        p,
                    ) implies opt_string_view(theme) == Some(p) by {
                    assert(crate::profile_laws::no_nl(p));
                    crate::profile_laws::law_written_profile_is_configured(before, sh, Some(p));
                    crate::profile_laws::lemma_tagged_with_theme(sh, p);
                    assert(s@ == crate::profile_laws::init_head(sh) + " --config '"@ + p + "'"@ + (
                    crate::profile_laws::init_tail(sh) + "  "@ + OMP_MARKER@));
                }
                assert forall|before: Seq<char>, sh: Shell|
                    content@ == #[trigger] profile_with_init(before, sh, None) implies theme is None by {
                    crate::profile_laws::law_written_profile_is_configured(before, sh, None);
                    crate::profile_laws::lemma_tagged_without_theme(sh);
                }
            }
            return (true, theme);
        }
        proof {
            lemma_first_init_skip(sl, i as int);
        }
        i = i + 1;
    }
    assert(sl.skip(i as int) =~= Seq::<Seq<char>>::empty());
    proof {
        assert forall|before: Seq<char>, sh: Shell, p: Seq<char>|
            content@ == #[trigger] profile_with_init(before, sh, Some(p)) && plain_path(p) implies false by {
            assert(crate::profile_laws::no_nl(p));
            crate::profile_laws::law_written_profile_is_configured(before, sh, Some(p));
        }
        assert forall|before: Seq<char>, sh: Shell|
            content@ == #[trigger] profile_with_init(before, sh, None) implies false by {
            crate::profile_laws::law_written_profile_is_configured(before, sh, None);
        }
    }
    (false, None)
}

/// The line written into a profile: the init command and the marker.
pub open spec fn tagged_init_line(shell: Shell, theme_path: Option<Seq<char>>) -> Seq<char> {
    init_command_spec(shell, theme_path) + "  "@ + OMP_MARKER@
}

/// A profile's contents with every Oh My Posh line replaced by one new init line at the end.
pub open spec fn profile_with_init(
    content: Seq<char>,
    shell: Shell,
    theme_path: Option<Seq<char>>,
) -> Seq<char> {
    join_nl(drop_init_lines(lines_spec(content)).push(tagged_init_line(shell, theme_path)))
        + seq!['\n']
}

/// A profile's contents without its Oh My Posh lines.
pub open spec fn profile_without_init(content: Seq<char>) -> Seq<char> {
    join_nl(drop_init_lines(lines_spec(content))) + seq!['\n']
}

pub open spec fn char_vecs_view(v: Seq<Vec<char>>) -> Seq<Seq<char>> {
    v.map_values(|l: Vec<char>| l@)
}

/// The profile's lines without those that load Oh My Posh.
fn kept_lines(content: &str) -> (r: Vec<Vec<char>>)
    ensures
        char_vecs_view(r@) == drop_init_lines(lines_spec(content@)),
{
    let ls = lines_of_str(content);
    let ghost sl = lines_spec(content@);
    let mut kept: Vec<Vec<char>> = Vec::new();
    let mut i: usize = 0;
    proof {
        assert(char_vecs_view(kept@) =~= drop_init_lines(sl.take(0)));
    }
    while i < ls.len()
        invariant
            i <= ls.len(),
            ls@.len() == sl.len(),
            forall|k: int| 0 <= k < ls@.len() ==> #[trigger] ls@[k]@ == sl[k],
            sl == lines_spec(content@),
            char_vecs_view(kept@) == drop_init_lines(sl.take(i as int)),
        decreases ls.len() - i,
    {
        let line = &ls[i];
        proof {
            assert(sl.take(i + 1).drop_last() =~= sl.take(i as int));
            assert(sl.take(i + 1).last() == sl[i as int]);
        }
        if !is_init_line_exec(line) {
            kept.push(line.clone());
            assert(char_vecs_view(kept@) =~= drop_init_lines(sl.take(i as int)).push(
                sl[i as int],
            ));
        }
        i = i + 1;
    }
    assert(sl.take(ls.len() as int) =~= sl);
    kept
}

fn finish_profile(lines: &Vec<Vec<char>>) -> (r: String)
    ensures
        r@ == join_nl(char_vecs_view(lines@)) + seq!['\n'],
{
    let mut j = join_lines(lines);
    j.push('\n');
    string_of(&j)
}

/// The new contents of a profile after adding or updating the Oh My Posh
/// init line: every existing init line is dropped, and the tagged init line
/// for `shell` (with `theme_path`) is appended as the last line.
pub fn write_init_to_profile(shell: Shell, content: &str, theme_path: Option<&str>) -> (r: String)
    ensures
        r@ == profile_with_init(content@, shell, opt_str_view(theme_path)),
{
    let init_line = init_command(shell, theme_path);
    let tagged = concat3(init_line.as_str(), "  ", OMP_MARKER);
    let mut kept = kept_lines(content);
    let ghost before = kept@;
    kept.push(chars_of(tagged.as_str()));
    assert(char_vecs_view(kept@) =~= char_vecs_view(before).push(tagged@));
    finish_profile(&kept)
}

/// The new contents of a profile after removing the Oh My Posh init line(s).
pub fn remove_init_from_profile(content: &str) -> (r: String)
    ensures
        r@ == profile_without_init(content@),
{
    let kept = kept_lines(content);
    finish_profile(&kept)
}

// ── Availability ─────────────────────────────────────────────────────────────

/// The binary that tells whether `shell` is installed, or `None` where no
/// lookup is made (Cmd: present exactly on Windows).
pub open spec fn shell_binary_spec(shell: Shell) -> Option<Seq<char>> {
    match shell {
        Shell::Pwsh => Some("pwsh"@),
        Shell::WindowsPowerShell => Some("powershell"@),
        Shell::Bash => Some("bash"@),
        Shell::Zsh => Some("zsh"@),
        Shell::Fish => Some("fish"@),
        Shell::Nushell => Some("nu"@),
        Shell::Cmd => None,
        Shell::Elvish => Some("elvish"@),
    }
}

pub fn shell_binary(shell: Shell) -> (r: Option<&'static str>)
    ensures
        opt_str_view(r) == shell_binary_spec(shell),
{
    match shell {
        Shell::Pwsh => Some("pwsh"),
        Shell::WindowsPowerShell => Some("powershell"),
        Shell::Bash => Some("bash"),
        Shell::Zsh => Some("zsh"),
        Shell::Fish => Some("fish"),
        Shell::Nushell => Some("nu"),
        Shell::Cmd => None,
        Shell::Elvish => Some("elvish"),
    }
}

pub open spec fn is_shell_available_spec(shell: Shell, platform: Platform, binary_found: bool) -> bool {
    match shell_binary_spec(shell) {
        Some(_) => binary_found,
        None => platform == Platform::Windows,
    }
}

/// Whether `shell` is installed, given whether its binary (see
/// [`shell_binary`]) was found on the `PATH`.
pub fn is_shell_available(shell: Shell, platform: Platform, binary_found: bool) -> (b: bool)
    ensures
        b == is_shell_available_spec(shell, platform, binary_found),
{
    match shell_binary(shell) {
        Some(_) => binary_found,
        None => platform == Platform::Windows,
    }
}

// ── Detection ────────────────────────────────────────────────────────────────

/// The shells that are looked for: all of them on Windows; elsewhere all but
/// Windows PowerShell and Cmd.
pub open spec fn shells_for_platform_spec(platform: Platform) -> Seq<Shell> {
    if platform == Platform::Windows {
        all_shells_spec()
    } else {
        seq![Shell::Pwsh, Shell::Bash, Shell::Zsh, Shell::Fish, Shell::Nushell, Shell::Elvish]
    }
}

pub fn shells_for_platform(platform: Platform) -> (v: Vec<Shell>)
    ensures
        v@ == shells_for_platform_spec(platform),
{
    let all = Shell::all();
    let mut v: Vec<Shell> = Vec::new();
    let mut i: usize = 0;
    let ghost mut picked: Seq<Shell> = Seq::empty();
    while i < all.len()
        invariant
            i <= all.len(),
            all@ == all_shells_spec(),
            v@ == all_shells_spec().take(i as int).filter(
                |s: Shell| platform == Platform::Windows || (s != Shell::WindowsPowerShell && s
                    != Shell::Cmd),
            ),
        decreases all.len() - i,
    {
        let s = all[i];
        proof {
            assert(all_shells_spec().take(i + 1) =~= all_shells_spec().take(i as int).push(s));
            all_shells_spec().take(i as int).lemma_filter_push(
                s,
                |s: Shell| platform == Platform::Windows || (s != Shell::WindowsPowerShell && s
                    != Shell::Cmd),
            );
        }
        if platform == Platform::Windows || (s != Shell::WindowsPowerShell && s != Shell::Cmd) {
            v.push(s);
        }
        i = i + 1;
    }
    proof {
        let p = |s: Shell| platform == Platform::Windows || (s != Shell::WindowsPowerShell && s
            != Shell::Cmd);
        assert(all_shells_spec().take(8) =~= all_shells_spec());
        reveal_with_fuel(Seq::filter, 9);
        assert(all_shells_spec().filter(p) =~= shells_for_platform_spec(platform));
    }
    v
}

/// What was found out about one shell on this system.
#[derive(Debug, Clone)]
pub struct ShellProbe {
    /// Whether the shell's binary was found (see [`shell_binary`]).
    pub binary_found: bool,
    /// Where its profile lives.
    pub profile_path: String,
    /// The profile's contents, when the file exists and could be read.
    pub profile_content: Option<String>,
}

/// The detection result for `shell` from what was probed.
pub open spec fn shell_info_matches(
    info: ShellInfo,
    shell: Shell,
    platform: Platform,
    probe: ShellProbe,
) -> bool {
    &&& info.shell == shell
    &&& info.available == is_shell_available_spec(shell, platform, probe.binary_found)
    &&& info.profile_path@ == probe.profile_path@
    &&& match probe.profile_content {
        Some(c) => (info.omp_configured, opt_string_view(info.current_theme))
            == profile_status_spec(c@),
        None => !info.omp_configured && info.current_theme is None,
    }
}

/// Build the list of detected shells, one per entry of
/// [`shells_for_platform`], from the matching probes.
pub fn detect_all_shells(platform: Platform, probes: &Vec<ShellProbe>) -> (r: Vec<ShellInfo>)
    requires
        probes.len() == shells_for_platform_spec(platform).len(),
    ensures
        r.len() == probes.len(),
        forall|i: int|
            0 <= i < r.len() ==> shell_info_matches(
                #[trigger] r@[i],
                shells_for_platform_spec(platform)[i],
                platform,
                probes@[i],
            ),
{
    let shells = shells_for_platform(platform);
    let mut out: Vec<ShellInfo> = Vec::new();
    let mut i: usize = 0;
    while i < shells.len()
        invariant
            i <= shells.len(),
            shells@ == shells_for_platform_spec(platform),
            probes.len() == shells.len(),
            out.len() == i,
            forall|k: int|
                0 <= k < i ==> shell_info_matches(
                    #[trigger] out@[k],
                    shells_for_platform_spec(platform)[k],
                    platform,
                    probes@[k],
                ),
        decreases shells.len() - i,
    {
        let s = shells[i];
        let p = &probes[i];
        let available = is_shell_available(s, platform, p.binary_found);
        let (configured, theme) = match &p.profile_content {
            Some(c) => parse_profile(c.as_str()),
            None => (false, None),
        };
        out.push(
            ShellInfo {
                shell: s,
                available,
                profile_path: p.profile_path.clone(),
                omp_configured: configured,
                current_theme: theme,
            },
        );
        i = i + 1;
    }
    out
}

} // verus!
