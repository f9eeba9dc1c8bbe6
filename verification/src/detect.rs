//! What the system probes mean: the OS description, the Oh My Posh binary,
//! and the Nerd Fonts found.  The probes themselves (commands, files,
//! environment) are run by the caller and handed in as text.

use vstd::prelude::*;

use crate::platform::Platform;
use crate::shell::opt_string_view;
use crate::text::{
    chars_of, lines_spec, lines_vec, lowercase, owned, seq_contains, string_of, to_lowercase,
    trim_spec, trim_vec, vec_contains,
};

verus! {

broadcast use vstd::string::group_string_axioms;

// ── OS ───────────────────────────────────────────────────────────────────────

#[derive(Debug, Clone)]
pub struct OsInfo {
    /// "Windows", "macOS" or "Linux".
    pub name: String,
    pub version: String,
    pub is_wsl: bool,
}

/// `s` without its leading and trailing `'"'` characters (`trim_matches('"')`).
pub open spec fn trim_quotes(s: Seq<char>) -> Seq<char>
    decreases s.len(),
{
    if s.len() > 0 && s[0] == '"' {
        trim_quotes(s.drop_first())
    } else if s.len() > 0 && s.last() == '"' {
        trim_quotes(s.drop_last())
    } else {
        s
    }
}

fn trim_quotes_vec(s: &Vec<char>) -> (r: Vec<char>)
    ensures
        r@ == trim_quotes(s@),
{
    let mut lo: usize = 0;
    let mut hi: usize = s.len();
    assert(s@.subrange(0, s.len() as int) =~= s@);
    while lo < hi && (s[lo] == '"' || s[hi - 1] == '"')
        invariant
            lo <= hi <= s.len(),
            trim_quotes(s@) == trim_quotes(s@.subrange(lo as int, hi as int)),
        decreases hi - lo,
    {
        let ghost cur = s@.subrange(lo as int, hi as int);
        if s[lo] == '"' {
            assert(cur[0] == s@[lo as int]);
            assert(cur.drop_first() =~= s@.subrange(lo + 1, hi as int));
            lo = lo + 1;
        } else {
            assert(cur[0] == s@[lo as int]);
            assert(cur.last() == s@[hi - 1]);
            assert(cur.drop_last() =~= s@.subrange(lo as int, hi - 1));
            hi = hi - 1;
        }
    }
    let mut r: Vec<char> = Vec::new();
    let mut k: usize = lo;
    while k < hi
        invariant
            lo <= k <= hi,
            hi <= s.len(),
            r@ == s@.subrange(lo as int, k as int),
        decreases hi - k,
    {
        r.push(s[k]);
        k = k + 1;
        assert(r@ =~= s@.subrange(lo as int, k as int));
    }
    proof {
        let cur = s@.subrange(lo as int, hi as int);
        if lo < hi {
            assert(cur[0] == s@[lo as int]);
            assert(cur.last() == s@[hi - 1]);
        }
    }
    r
}

pub open spec fn os_info_spec(
    platform: Platform,
    version_output: Option<Seq<char>>,
    proc_version: Option<Seq<char>>,
) -> (Seq<char>, Seq<char>, bool) {
    match platform {
        Platform::Windows => (
            "Windows"@,
            trim_spec(
                match version_output {
                    Some(v) => v,
                    None => Seq::empty(),
                },
            ),
            false,
        ),
        Platform::MacOs => (
            "macOS"@,
            trim_spec(
                match version_output {
                    Some(v) => v,
                    None => Seq::empty(),
                },
            ),
            false,
        ),
        Platform::Linux => (
            "Linux"@,
            trim_quotes(
                trim_spec(
                    match version_output {
                        Some(v) => v,
                        None => "Linux"@,
                    },
                ),
            ),
            match proc_version {
                Some(p) => seq_contains(lowercase(p), "microsoft"@),
                None => false,
            },
        ),
    }
}

/// Describe the OS from the output of its version command (`cmd /c ver`,
/// `sw_vers -productVersion`, `lsb_release -ds`; `None` when it could not be
/// run or was not UTF-8) and, on Linux, the contents of `/proc/version`.
pub fn detect_os(platform: Platform, version_output: Option<&str>, proc_version: Option<&str>) -> (r: OsInfo)
    ensures
        (r.name@, r.version@, r.is_wsl) == os_info_spec(
            platform,
            crate::shell::opt_str_view(version_output),
            crate::shell::opt_str_view(proc_version),
        ),
{
    let raw = match version_output {
        Some(v) => chars_of(v),
        None => match platform {
            Platform::Linux => chars_of("Linux"),
            _ => Vec::new(),
        },
    };
    let t = trim_vec(&raw);
    match platform {
        Platform::Windows => OsInfo { name: owned("Windows"), version: string_of(&t), is_wsl: false },
        Platform::MacOs => OsInfo { name: owned("macOS"), version: string_of(&t), is_wsl: false },
        Platform::Linux => {
            let is_wsl = match proc_version {
                Some(p) => {
                    let low = to_lowercase(p);
                    let lv = chars_of(low.as_str());
                    let m = chars_of("microsoft");
                    vec_contains(&lv, &m)
                },
                None => false,
            };
            let q = trim_quotes_vec(&t);
            OsInfo { name: owned("Linux"), version: string_of(&q), is_wsl }
        },
    }
}

// ── Oh My Posh binary ────────────────────────────────────────────────────────

#[derive(Debug, Clone)]
pub struct OmpInfo {
    pub version: String,
    pub executable: String,
    pub themes_path: Option<String>,
    pub cache_path: Option<String>,
}

/// Whether `oh-my-posh version` reports a version, and which.
pub open spec fn omp_version_spec(version_run: Option<(bool, Seq<char>)>) -> Option<Seq<char>> {
    match version_run {
        Some((ok, out)) => if ok && trim_spec(out).len() > 0 {
            Some(trim_spec(out))
        } else {
            None
        },
        None => None,
    }
}

/// Recognise an installed Oh My Posh from the run of `oh-my-posh version`
/// (`None` when it could not be started; else its exit status and output),
/// the resolved executable (`None` when unknown), and its themes and cache
/// directories.
pub fn detect_omp(
    version_run: Option<(bool, &str)>,
    executable: Option<String>,
    themes_path: Option<String>,
    cache_path: Option<String>,
) -> (r: Option<OmpInfo>)
    ensures
        match omp_version_spec(
            match version_run {
                Some((ok, out)) => Some((ok, out@)),
                None => None,
            },
        ) {
            Some(v) => r matches Some(info) && info.version@ == v && info.executable@ == (
            match executable {
                Some(e) => e@,
                None => "oh-my-posh"@,
            }) && opt_string_view(info.themes_path) == opt_string_view(themes_path)
                && opt_string_view(info.cache_path) == opt_string_view(cache_path),
            None => r is None,
        },
{
    match version_run {
        Some((ok, out)) => {
            if !ok {
                return None;
            }
            let t = trim_vec(&chars_of(out));
            if t.len() == 0 {
                return None;
            }
            let exe = match executable {
                Some(e) => e,
                None => owned("oh-my-posh"),
            };
            Some(
                OmpInfo {
                    version: string_of(&t),
                    executable: exe,
                    themes_path,
                    cache_path,
                },
            )
        },
        None => None,
    }
}

pub open spec fn executable_spec(platform: Platform, output: Option<Seq<char>>) -> Option<Seq<char>> {
    match output {
        Some(o) => if platform == Platform::Windows {
            if lines_spec(o).len() > 0 {
                Some(trim_spec(lines_spec(o)[0]))
            } else {
                None
            }
        } else {
            Some(trim_spec(o))
        },
        None => None,
    }
}

/// The executable path from the output of `where` (first line, Windows) or
/// `which` (all of it) for `oh-my-posh`.
pub fn executable_from_output(platform: Platform, output: Option<&str>) -> (r: Option<String>)
    ensures
        opt_string_view(r) == executable_spec(platform, crate::shell::opt_str_view(output)),
{
    match output {
        Some(o) => {
            let v = chars_of(o);
            if platform == Platform::Windows {
                let ls = lines_vec(&v);
                if ls.len() > 0 {
                    let t = trim_vec(&ls[0]);
                    Some(string_of(&t))
                } else {
                    None
                }
            } else {
                let t = trim_vec(&v);
                Some(string_of(&t))
            }
        },
        None => None,
    }
}

pub open spec fn cache_path_spec(output: Option<Seq<char>>) -> Option<Seq<char>> {
    match output {
        Some(o) => if trim_spec(o).len() > 0 {
            Some(trim_spec(o))
        } else {
            None
        },
        None => None,
    }
}

/// The cache path from the output of `oh-my-posh config get cache-path`.
pub fn cache_path_from_output(output: Option<&str>) -> (r: Option<String>)
    ensures
        opt_string_view(r) == cache_path_spec(crate::shell::opt_str_view(output)),
{
    match output {
        Some(o) => {
            let t = trim_vec(&chars_of(o));
            if t.len() > 0 {
                Some(string_of(&t))
            } else {
                None
            }
        },
        None => None,
    }
}

// ── Nerd Fonts ───────────────────────────────────────────────────────────────

#[derive(Debug, Clone)]
pub struct FontStatus {
    /// Nerd Font family names found on the system.
    pub installed_fonts: Vec<String>,
    /// At least one Nerd Font is installed.
    pub has_nerd_font: bool,
}

/// A font family line names a Nerd Font (fc-list output).
pub open spec fn is_nerd_font_line(l: Seq<char>) -> bool {
    seq_contains(lowercase(l), "nerd"@) || seq_contains(lowercase(l), " nf"@)
}

/// The Nerd Fonts listed in the output of the platform's font query: every
/// non-empty trimmed line of PowerShell's (already filtered) answer on
/// Windows; the trimmed lines that mention "nerd" or " nf" in fc-list's.
pub open spec fn nerd_fonts_spec(platform: Platform, ls: Seq<Seq<char>>) -> Seq<Seq<char>>
    decreases ls.len(),
{
    if ls.len() == 0 {
        Seq::empty()
    } else {
        let r = nerd_fonts_spec(platform, ls.drop_last());
        let l = ls.last();
        if platform == Platform::Windows {
            if trim_spec(l).len() > 0 {
                r.push(trim_spec(l))
            } else {
                r
            }
        } else if is_nerd_font_line(l) {
            r.push(trim_spec(l))
        } else {
            r
        }
    }
}

pub open spec fn font_list_spec(platform: Platform, output: Option<Seq<char>>) -> Seq<Seq<char>> {
    match output {
        Some(o) => nerd_fonts_spec(platform, lines_spec(o)),
        None => Seq::empty(),
    }
}

/// Detect installed Nerd Fonts from the output of the font query
/// (`None` when it could not be run).
pub fn detect_fonts(platform: Platform, output: Option<&str>) -> (r: FontStatus)
    ensures
        r.installed_fonts@.map_values(|s: String| s@) == font_list_spec(
            platform,
            crate::shell::opt_str_view(output),
        ),
        r.has_nerd_font == (r.installed_fonts.len() > 0),
{
    let mut fonts: Vec<String> = Vec::new();
    match output {
        Some(o) => {
            let v = chars_of(o);
            let ls = lines_vec(&v);
            let ghost sl = lines_spec(o@);
            let mut i: usize = 0;
            while i < ls.len()
                invariant
                    i <= ls.len(),
                    ls@.len() == sl.len(),
                    forall|k: int| 0 <= k < ls@.len() ==> #[trigger] ls@[k]@ == sl[k],
                    fonts@.map_values(|s: String| s@) == nerd_fonts_spec(
                        platform,
                        sl.take(i as int),
                    ),
                decreases ls.len() - i,
            {
                let line = &ls[i];
                proof {
                    assert(sl.take(i + 1).drop_last() =~= sl.take(i as int));
                    assert(sl.take(i + 1).last() == line@);
                }
                let t = trim_vec(line);
                let keep = if platform == Platform::Windows {
                    t.len() > 0
                } else {
                    let s = string_of(line);
                    let low = to_lowercase(s.as_str());
                    let lv = chars_of(low.as_str());
                    let a = chars_of("nerd");
                    let b = chars_of(" nf");
                    vec_contains(&lv, &a) || vec_contains(&lv, &b)
                };
                if keep {
                    let ghost f0 = fonts@;
                    fonts.push(string_of(&t));
                    assert(fonts@.map_values(|s: String| s@) =~= f0.map_values(|s: String| s@).push(
                        t@,
                    ));
                }
                i = i + 1;
            }
            assert(sl.take(i as int) =~= sl);
        },
        None => {
            assert(fonts@.map_values(|s: String| s@) =~= Seq::<Seq<char>>::empty());
        },
    }
    let has = fonts.len() > 0;
    FontStatus { installed_fonts: fonts, has_nerd_font: has }
}

// ── Report ───────────────────────────────────────────────────────────────────

#[derive(Debug, Clone)]
pub struct DetectionReport {
    pub os: OsInfo,
    pub omp: Option<OmpInfo>,
    pub fonts: FontStatus,
}

/// Gather the three detection results into a report.
pub fn detect_all(os: OsInfo, omp: Option<OmpInfo>, fonts: FontStatus) -> (r: DetectionReport)
    ensures
        r.os == os,
        r.omp == omp,
        r.fonts == fonts,
{
    DetectionReport { os, omp, fonts }
}

} // verus!
