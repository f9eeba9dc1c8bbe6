//! The catalog of Oh My Posh segment types, grouped into categories, with
//! lookups by type name and by category.

use vstd::prelude::*;

use crate::text::str_eq;

verus! {

#[derive(Debug, Clone, Copy, PartialEq, Eq, Hash, Structural)]
pub enum SegmentCategory {
    System, Scm, Language, Cloud, Shell, Music, Other,
}

pub open spec fn segment_categories_spec() -> Seq<SegmentCategory> {
    seq![SegmentCategory::System, SegmentCategory::Scm, SegmentCategory::Language, SegmentCategory::Cloud, SegmentCategory::Shell, SegmentCategory::Music, SegmentCategory::Other]
}

pub open spec fn segment_category_label_spec(c: SegmentCategory) -> Seq<char> {
    match c {
        SegmentCategory::System => "System"@,
        SegmentCategory::Scm => "Source Control"@,
        SegmentCategory::Language => "Languages"@,
        SegmentCategory::Cloud => "Cloud / DevOps"@,
        SegmentCategory::Shell => "Shell"@,
        SegmentCategory::Music => "Music / Activity"@,
        SegmentCategory::Other => "Other"@,
    }
}

pub open spec fn segment_category_icon_spec(c: SegmentCategory) -> Seq<char> {
    match c {
        SegmentCategory::System => "🖥"@,
        SegmentCategory::Scm => "🔀"@,
        SegmentCategory::Language => "🗂"@,
        SegmentCategory::Cloud => "☁"@,
        SegmentCategory::Shell => "⌨"@,
        SegmentCategory::Music => "🎵"@,
        SegmentCategory::Other => "📋"@,
    }
}

impl SegmentCategory {
    /// Every category, in display order.
    pub fn all() -> (v: Vec<SegmentCategory>)
        ensures
            v@ == segment_categories_spec(),
    {
        vec![SegmentCategory::System, SegmentCategory::Scm, SegmentCategory::Language, SegmentCategory::Cloud, SegmentCategory::Shell, SegmentCategory::Music, SegmentCategory::Other]
    }

    pub fn label(&self) -> (s: &'static str)
        ensures
            s@ == segment_category_label_spec(*self),
    {
        match self {
            SegmentCategory::System => "System",
            SegmentCategory::Scm => "Source Control",
            SegmentCategory::Language => "Languages",
            SegmentCategory::Cloud => "Cloud / DevOps",
            SegmentCategory::Shell => "Shell",
            SegmentCategory::Music => "Music / Activity",
            SegmentCategory::Other => "Other",
        }
    }

    pub fn icon(&self) -> (s: &'static str)
        ensures
            s@ == segment_category_icon_spec(*self),
    {
        match self {
            SegmentCategory::System => "🖥",
            SegmentCategory::Scm => "🔀",
            SegmentCategory::Language => "🗂",
            SegmentCategory::Cloud => "☁",
            SegmentCategory::Shell => "⌨",
            SegmentCategory::Music => "🎵",
            SegmentCategory::Other => "📋",
        }
    }
}

/// One segment type of the catalog.
#[derive(Debug, Clone, Copy)]
pub struct SegmentInfo {
    /// Oh My Posh segment `type` string (e.g. `"git"`, `"path"`).
    pub segment_type: &'static str,
    /// Human-readable label.
    pub label: &'static str,
    /// One-line description.
    pub description: &'static str,
    /// Category for grouping.
    pub category: SegmentCategory,
    /// Representative icon.
    pub icon: &'static str,
    /// Example text shown in theme previews.
    pub example: &'static str,
}

/// Every segment type Oh My Posh supports, in catalog order.
pub open spec fn segment_catalog_spec() -> Seq<SegmentInfo> {
    seq![
        SegmentInfo { segment_type: "os", label: "OS", description: "Operating system icon", category: SegmentCategory::System, icon: "", example: "" },
        SegmentInfo { segment_type: "path", label: "Path", description: "Current working directory", category: SegmentCategory::System, icon: "", example: "~/projects/app" },
        SegmentInfo { segment_type: "session", label: "Session", description: "User@host session info", category: SegmentCategory::System, icon: "", example: "user@host" },
        SegmentInfo { segment_type: "time", label: "Time", description: "Current time", category: SegmentCategory::System, icon: "", example: "14:32" },
        SegmentInfo { segment_type: "executiontime", label: "Exec Time", description: "Duration of last command", category: SegmentCategory::System, icon: "", example: "3s" },
        SegmentInfo { segment_type: "battery", label: "Battery", description: "Battery percentage & status", category: SegmentCategory::System, icon: "", example: "85%" },
        SegmentInfo { segment_type: "sysinfo", label: "Sysinfo", description: "CPU / memory usage", category: SegmentCategory::System, icon: "", example: "45%" },
        SegmentInfo { segment_type: "text", label: "Text", description: "Custom static text", category: SegmentCategory::System, icon: "", example: "hello" },
        SegmentInfo { segment_type: "exit", label: "Exit Code", description: "Previous command exit status", category: SegmentCategory::System, icon: "✓", example: "✓" },
        SegmentInfo { segment_type: "root", label: "Root", description: "Root / admin indicator", category: SegmentCategory::System, icon: "⚡", example: "⚡" },
        SegmentInfo { segment_type: "status", label: "Status", description: "Command status indicator", category: SegmentCategory::System, icon: "✓", example: "✓" },
        SegmentInfo { segment_type: "upgrade", label: "Upgrade", description: "Oh My Posh update available", category: SegmentCategory::System, icon: "⬆", example: "⬆" },
        SegmentInfo { segment_type: "project", label: "Project", description: "Current project name & version", category: SegmentCategory::System, icon: "", example: "myapp v1.2" },
        SegmentInfo { segment_type: "ipify", label: "Public IP", description: "Public IP address via ipify", category: SegmentCategory::System, icon: "", example: "1.2.3.4" },
        SegmentInfo { segment_type: "connection", label: "Connection", description: "Network connection type & SSID", category: SegmentCategory::System, icon: "直", example: "WiFi" },
        SegmentInfo { segment_type: "winreg", label: "Win Registry", description: "Windows Registry value", category: SegmentCategory::System, icon: "", example: "value" },
        SegmentInfo { segment_type: "owm", label: "Weather (OWM)", description: "OpenWeatherMap current weather", category: SegmentCategory::System, icon: "", example: "22°C" },
        SegmentInfo { segment_type: "git", label: "Git", description: "Branch, status, stash, upstream", category: SegmentCategory::Scm, icon: "", example: " main" },
        SegmentInfo { segment_type: "mercurial", label: "Mercurial", description: "Mercurial branch & status", category: SegmentCategory::Scm, icon: "", example: "default" },
        SegmentInfo { segment_type: "svn", label: "SVN", description: "Subversion status", category: SegmentCategory::Scm, icon: "", example: "trunk" },
        SegmentInfo { segment_type: "plastic", label: "Plastic SCM", description: "Plastic SCM info", category: SegmentCategory::Scm, icon: "", example: "main" },
        SegmentInfo { segment_type: "fossil", label: "Fossil", description: "Fossil SCM info", category: SegmentCategory::Scm, icon: "", example: "trunk" },
        SegmentInfo { segment_type: "sapling", label: "Sapling", description: "Sapling SCM info", category: SegmentCategory::Scm, icon: "", example: "main" },
        SegmentInfo { segment_type: "angular", label: "Angular", description: "Angular CLI version", category: SegmentCategory::Language, icon: "", example: "17.0" },
        SegmentInfo { segment_type: "bun", label: "Bun", description: "Bun runtime version", category: SegmentCategory::Language, icon: "🥟", example: "1.0" },
        SegmentInfo { segment_type: "crystal", label: "Crystal", description: "Crystal language version", category: SegmentCategory::Language, icon: "", example: "1.10" },
        SegmentInfo { segment_type: "dart", label: "Dart", description: "Dart SDK version", category: SegmentCategory::Language, icon: "", example: "3.2" },
        SegmentInfo { segment_type: "deno", label: "Deno", description: "Deno runtime version", category: SegmentCategory::Language, icon: "🦕", example: "1.38" },
        SegmentInfo { segment_type: "dotnet", label: ".NET", description: ".NET SDK version", category: SegmentCategory::Language, icon: "", example: "8.0" },
        SegmentInfo { segment_type: "elixir", label: "Elixir", description: "Elixir version", category: SegmentCategory::Language, icon: "", example: "1.15" },
        SegmentInfo { segment_type: "flutter", label: "Flutter", description: "Flutter SDK version", category: SegmentCategory::Language, icon: "", example: "3.16" },
        SegmentInfo { segment_type: "go", label: "Go", description: "Go version", category: SegmentCategory::Language, icon: "", example: "1.21" },
        SegmentInfo { segment_type: "haskell", label: "Haskell", description: "GHC / Stack version", category: SegmentCategory::Language, icon: "", example: "9.6" },
        SegmentInfo { segment_type: "java", label: "Java", description: "Java / JDK version", category: SegmentCategory::Language, icon: "", example: "21" },
        SegmentInfo { segment_type: "julia", label: "Julia", description: "Julia language version", category: SegmentCategory::Language, icon: "", example: "1.10" },
        SegmentInfo { segment_type: "kotlin", label: "Kotlin", description: "Kotlin version", category: SegmentCategory::Language, icon: "", example: "1.9" },
        SegmentInfo { segment_type: "lua", label: "Lua", description: "Lua version", category: SegmentCategory::Language, icon: "", example: "5.4" },
        SegmentInfo { segment_type: "node", label: "Node.js", description: "Node.js version", category: SegmentCategory::Language, icon: "", example: "20.9" },
        SegmentInfo { segment_type: "ocaml", label: "OCaml", description: "OCaml version", category: SegmentCategory::Language, icon: "", example: "5.1" },
        SegmentInfo { segment_type: "perl", label: "Perl", description: "Perl version", category: SegmentCategory::Language, icon: "", example: "5.38" },
        SegmentInfo { segment_type: "php", label: "PHP", description: "PHP version", category: SegmentCategory::Language, icon: "", example: "8.3" },
        SegmentInfo { segment_type: "python", label: "Python", description: "Python version & virtualenv", category: SegmentCategory::Language, icon: "", example: "3.12" },
        SegmentInfo { segment_type: "r", label: "R", description: "R language version", category: SegmentCategory::Language, icon: "📊", example: "4.3" },
        SegmentInfo { segment_type: "ruby", label: "Ruby", description: "Ruby version", category: SegmentCategory::Language, icon: "", example: "3.3" },
        SegmentInfo { segment_type: "rust", label: "Rust", description: "Rust toolchain version", category: SegmentCategory::Language, icon: "", example: "1.74" },
        SegmentInfo { segment_type: "scala", label: "Scala", description: "Scala version", category: SegmentCategory::Language, icon: "", example: "3.3" },
        SegmentInfo { segment_type: "swift", label: "Swift", description: "Swift version", category: SegmentCategory::Language, icon: "", example: "5.9" },
        SegmentInfo { segment_type: "zig", label: "Zig", description: "Zig version", category: SegmentCategory::Language, icon: "", example: "0.11" },
        SegmentInfo { segment_type: "cmake", label: "CMake", description: "CMake version", category: SegmentCategory::Language, icon: "△", example: "3.28" },
        SegmentInfo { segment_type: "nim", label: "Nim", description: "Nim version", category: SegmentCategory::Language, icon: "👑", example: "2.0" },
        SegmentInfo { segment_type: "mojo", label: "Mojo", description: "Mojo version", category: SegmentCategory::Language, icon: "🔥", example: "0.6" },
        SegmentInfo { segment_type: "v", label: "V", description: "V language version", category: SegmentCategory::Language, icon: "V", example: "0.4" },
        SegmentInfo { segment_type: "fortran", label: "Fortran", description: "Fortran compiler version", category: SegmentCategory::Language, icon: "F", example: "13.2" },
        SegmentInfo { segment_type: "aws", label: "AWS", description: "AWS profile & region", category: SegmentCategory::Cloud, icon: "", example: "prod" },
        SegmentInfo { segment_type: "az", label: "Azure", description: "Azure subscription info", category: SegmentCategory::Cloud, icon: "󰠅", example: "my-sub" },
        SegmentInfo { segment_type: "gcp", label: "GCP", description: "Google Cloud project", category: SegmentCategory::Cloud, icon: "", example: "my-proj" },
        SegmentInfo { segment_type: "docker", label: "Docker", description: "Docker context", category: SegmentCategory::Cloud, icon: "", example: "default" },
        SegmentInfo { segment_type: "kubectl", label: "Kubernetes", description: "K8s context & namespace", category: SegmentCategory::Cloud, icon: "󱃾", example: "prod" },
        SegmentInfo { segment_type: "helm", label: "Helm", description: "Helm version", category: SegmentCategory::Cloud, icon: "", example: "3.13" },
        SegmentInfo { segment_type: "terraform", label: "Terraform", description: "Terraform workspace & version", category: SegmentCategory::Cloud, icon: "󱁢", example: "default" },
        SegmentInfo { segment_type: "pulumi", label: "Pulumi", description: "Pulumi stack name", category: SegmentCategory::Cloud, icon: "", example: "dev" },
        SegmentInfo { segment_type: "cf", label: "Cloud F.", description: "Cloud Foundry target", category: SegmentCategory::Cloud, icon: "", example: "api" },
        SegmentInfo { segment_type: "heroku", label: "Heroku", description: "Heroku app info", category: SegmentCategory::Cloud, icon: "", example: "myapp" },
        SegmentInfo { segment_type: "firebase", label: "Firebase", description: "Firebase project", category: SegmentCategory::Cloud, icon: "", example: "proj" },
        SegmentInfo { segment_type: "argocd", label: "ArgoCD", description: "ArgoCD context", category: SegmentCategory::Cloud, icon: "", example: "prod" },
        SegmentInfo { segment_type: "buf", label: "Buf", description: "Buf version", category: SegmentCategory::Cloud, icon: "", example: "1.28" },
        SegmentInfo { segment_type: "nx", label: "Nx", description: "Nx workspace info", category: SegmentCategory::Cloud, icon: "", example: "myws" },
        SegmentInfo { segment_type: "bazel", label: "Bazel", description: "Bazel version", category: SegmentCategory::Cloud, icon: "", example: "7.0" },
        SegmentInfo { segment_type: "cds", label: "SAP CDS", description: "SAP CDS version", category: SegmentCategory::Cloud, icon: "", example: "7.4" },
        SegmentInfo { segment_type: "npm", label: "npm", description: "npm package version", category: SegmentCategory::Cloud, icon: "", example: "10.2" },
        SegmentInfo { segment_type: "shell", label: "Shell", description: "Current shell name", category: SegmentCategory::Shell, icon: "", example: "pwsh" },
        SegmentInfo { segment_type: "commander", label: "Commander", description: "Prompt character / command mode", category: SegmentCategory::Shell, icon: "❯", example: "❯" },
        SegmentInfo { segment_type: "spotify", label: "Spotify", description: "Currently playing track", category: SegmentCategory::Music, icon: "", example: "♫ Song" },
        SegmentInfo { segment_type: "lastfm", label: "Last.fm", description: "Last.fm scrobble info", category: SegmentCategory::Music, icon: "", example: "♫ Track" },
        SegmentInfo { segment_type: "strava", label: "Strava", description: "Strava activity info", category: SegmentCategory::Music, icon: "", example: "5km" },
        SegmentInfo { segment_type: "wakatime", label: "WakaTime", description: "WakaTime coding stats", category: SegmentCategory::Music, icon: "", example: "3h" },
        SegmentInfo { segment_type: "withings", label: "Withings", description: "Withings health data", category: SegmentCategory::Music, icon: "❤", example: "72bpm" },
        SegmentInfo { segment_type: "ytm", label: "YouTube Music", description: "YouTube Music now playing", category: SegmentCategory::Music, icon: "", example: "♫ Now" },
        SegmentInfo { segment_type: "nba", label: "NBA", description: "NBA game scores", category: SegmentCategory::Music, icon: "🏀", example: "LAL 110" },
        SegmentInfo { segment_type: "brewfather", label: "Brewfather", description: "Brewfather batch status", category: SegmentCategory::Other, icon: "🍺", example: "Batch" },
        SegmentInfo { segment_type: "nbgv", label: "NBGV", description: "Nerdbank.GitVersioning version", category: SegmentCategory::Other, icon: "", example: "1.0.0" },
        SegmentInfo { segment_type: "unity", label: "Unity", description: "Unity editor version", category: SegmentCategory::Other, icon: "", example: "2023.2" },
        SegmentInfo { segment_type: "xmake", label: "xmake", description: "xmake build system version", category: SegmentCategory::Other, icon: "", example: "2.8" },
        SegmentInfo { segment_type: "quasar", label: "Quasar", description: "Quasar framework version", category: SegmentCategory::Other, icon: "", example: "2.14" },
        SegmentInfo { segment_type: "react", label: "React", description: "React version", category: SegmentCategory::Other, icon: "", example: "18.2" },
        SegmentInfo { segment_type: "talosctl", label: "Talos", description: "Talos Linux context", category: SegmentCategory::Other, icon: "", example: "ctx" },
        SegmentInfo { segment_type: "vfox", label: "vfox", description: "vfox version manager", category: SegmentCategory::Other, icon: "🦊", example: "0.3" },
        SegmentInfo { segment_type: "azfunc", label: "Azure Func", description: "Azure Functions version", category: SegmentCategory::Other, icon: "󰡯", example: "4" },
        SegmentInfo { segment_type: "umbraco", label: "Umbraco", description: "Umbraco CMS version", category: SegmentCategory::Other, icon: "", example: "13" },
    ]
}

/// The segment catalog.
pub fn segment_catalog() -> (v: Vec<SegmentInfo>)
    ensures
        v@ == segment_catalog_spec(),
{
    vec![
        SegmentInfo { segment_type: "os", label: "OS", description: "Operating system icon", category: SegmentCategory::System, icon: "", example: "" },
        SegmentInfo { segment_type: "path", label: "Path", description: "Current working directory", category: SegmentCategory::System, icon: "", example: "~/projects/app" },
        SegmentInfo { segment_type: "session", label: "Session", description: "User@host session info", category: SegmentCategory::System, icon: "", example: "user@host" },
        SegmentInfo { segment_type: "time", label: "Time", description: "Current time", category: SegmentCategory::System, icon: "", example: "14:32" },
        SegmentInfo { segment_type: "executiontime", label: "Exec Time", description: "Duration of last command", category: SegmentCategory::System, icon: "", example: "3s" },
        SegmentInfo { segment_type: "battery", label: "Battery", description: "Battery percentage & status", category: SegmentCategory::System, icon: "", example: "85%" },
        SegmentInfo { segment_type: "sysinfo", label: "Sysinfo", description: "CPU / memory usage", category: SegmentCategory::System, icon: "", example: "45%" },
        SegmentInfo { segment_type: "text", label: "Text", description: "Custom static text", category: SegmentCategory::System, icon: "", example: "hello" },
        SegmentInfo { segment_type: "exit", label: "Exit Code", description: "Previous command exit status", category: SegmentCategory::System, icon: "✓", example: "✓" },
        SegmentInfo { segment_type: "root", label: "Root", description: "Root / admin indicator", category: SegmentCategory::System, icon: "⚡", example: "⚡" },
        SegmentInfo { segment_type: "status", label: "Status", description: "Command status indicator", category: SegmentCategory::System, icon: "✓", example: "✓" },
        SegmentInfo { segment_type: "upgrade", label: "Upgrade", description: "Oh My Posh update available", category: SegmentCategory::System, icon: "⬆", example: "⬆" },
        SegmentInfo { segment_type: "project", label: "Project", description: "Current project name & version", category: SegmentCategory::System, icon: "", example: "myapp v1.2" },
        SegmentInfo { segment_type: "ipify", label: "Public IP", description: "Public IP address via ipify", category: SegmentCategory::System, icon: "", example: "1.2.3.4" },
        SegmentInfo { segment_type: "connection", label: "Connection", description: "Network connection type & SSID", category: SegmentCategory::System, icon: "直", example: "WiFi" },
        SegmentInfo { segment_type: "winreg", label: "Win Registry", description: "Windows Registry value", category: SegmentCategory::System, icon: "", example: "value" },
        SegmentInfo { segment_type: "owm", label: "Weather (OWM)", description: "OpenWeatherMap current weather", category: SegmentCategory::System, icon: "", example: "22°C" },
        SegmentInfo { segment_type: "git", label: "Git", description: "Branch, status, stash, upstream", category: SegmentCategory::Scm, icon: "", example: " main" },
        SegmentInfo { segment_type: "mercurial", label: "Mercurial", description: "Mercurial branch & status", category: SegmentCategory::Scm, icon: "", example: "default" },
        SegmentInfo { segment_type: "svn", label: "SVN", description: "Subversion status", category: SegmentCategory::Scm, icon: "", example: "trunk" },
        SegmentInfo { segment_type: "plastic", label: "Plastic SCM", description: "Plastic SCM info", category: SegmentCategory::Scm, icon: "", example: "main" },
        SegmentInfo { segment_type: "fossil", label: "Fossil", description: "Fossil SCM info", category: SegmentCategory::Scm, icon: "", example: "trunk" },
        SegmentInfo { segment_type: "sapling", label: "Sapling", description: "Sapling SCM info", category: SegmentCategory::Scm, icon: "", example: "main" },
        SegmentInfo { segment_type: "angular", label: "Angular", description: "Angular CLI version", category: SegmentCategory::Language, icon: "", example: "17.0" },
        SegmentInfo { segment_type: "bun", label: "Bun", description: "Bun runtime version", category: SegmentCategory::Language, icon: "🥟", example: "1.0" },
        SegmentInfo { segment_type: "crystal", label: "Crystal", description: "Crystal language version", category: SegmentCategory::Language, icon: "", example: "1.10" },
        SegmentInfo { segment_type: "dart", label: "Dart", description: "Dart SDK version", category: SegmentCategory::Language, icon: "", example: "3.2" },
        SegmentInfo { segment_type: "deno", label: "Deno", description: "Deno runtime version", category: SegmentCategory::Language, icon: "🦕", example: "1.38" },
        SegmentInfo { segment_type: "dotnet", label: ".NET", description: ".NET SDK version", category: SegmentCategory::Language, icon: "", example: "8.0" },
        SegmentInfo { segment_type: "elixir", label: "Elixir", description: "Elixir version", category: SegmentCategory::Language, icon: "", example: "1.15" },
        SegmentInfo { segment_type: "flutter", label: "Flutter", description: "Flutter SDK version", category: SegmentCategory::Language, icon: "", example: "3.16" },
        SegmentInfo { segment_type: "go", label: "Go", description: "Go version", category: SegmentCategory::Language, icon: "", example: "1.21" },
        SegmentInfo { segment_type: "haskell", label: "Haskell", description: "GHC / Stack version", category: SegmentCategory::Language, icon: "", example: "9.6" },
        SegmentInfo { segment_type: "java", label: "Java", description: "Java / JDK version", category: SegmentCategory::Language, icon: "", example: "21" },
        SegmentInfo { segment_type: "julia", label: "Julia", description: "Julia language version", category: SegmentCategory::Language, icon: "", example: "1.10" },
        SegmentInfo { segment_type: "kotlin", label: "Kotlin", description: "Kotlin version", category: SegmentCategory::Language, icon: "", example: "1.9" },
        SegmentInfo { segment_type: "lua", label: "Lua", description: "Lua version", category: SegmentCategory::Language, icon: "", example: "5.4" },
        SegmentInfo { segment_type: "node", label: "Node.js", description: "Node.js version", category: SegmentCategory::Language, icon: "", example: "20.9" },
        SegmentInfo { segment_type: "ocaml", label: "OCaml", description: "OCaml version", category: SegmentCategory::Language, icon: "", example: "5.1" },
        SegmentInfo { segment_type: "perl", label: "Perl", description: "Perl version", category: SegmentCategory::Language, icon: "", example: "5.38" },
        SegmentInfo { segment_type: "php", label: "PHP", description: "PHP version", category: SegmentCategory::Language, icon: "", example: "8.3" },
        SegmentInfo { segment_type: "python", label: "Python", description: "Python version & virtualenv", category: SegmentCategory::Language, icon: "", example: "3.12" },
        SegmentInfo { segment_type: "r", label: "R", description: "R language version", category: SegmentCategory::Language, icon: "📊", example: "4.3" },
        SegmentInfo { segment_type: "ruby", label: "Ruby", description: "Ruby version", category: SegmentCategory::Language, icon: "", example: "3.3" },
        SegmentInfo { segment_type: "rust", label: "Rust", description: "Rust toolchain version", category: SegmentCategory::Language, icon: "", example: "1.74" },
        SegmentInfo { segment_type: "scala", label: "Scala", description: "Scala version", category: SegmentCategory::Language, icon: "", example: "3.3" },
        SegmentInfo { segment_type: "swift", label: "Swift", description: "Swift version", category: SegmentCategory::Language, icon: "", example: "5.9" },
        SegmentInfo { segment_type: "zig", label: "Zig", description: "Zig version", category: SegmentCategory::Language, icon: "", example: "0.11" },
        SegmentInfo { segment_type: "cmake", label: "CMake", description: "CMake version", category: SegmentCategory::Language, icon: "△", example: "3.28" },
        SegmentInfo { segment_type: "nim", label: "Nim", description: "Nim version", category: SegmentCategory::Language, icon: "👑", example: "2.0" },
        SegmentInfo { segment_type: "mojo", label: "Mojo", description: "Mojo version", category: SegmentCategory::Language, icon: "🔥", example: "0.6" },
        SegmentInfo { segment_type: "v", label: "V", description: "V language version", category: SegmentCategory::Language, icon: "V", example: "0.4" },
        SegmentInfo { segment_type: "fortran", label: "Fortran", description: "Fortran compiler version", category: SegmentCategory::Language, icon: "F", example: "13.2" },
        SegmentInfo { segment_type: "aws", label: "AWS", description: "AWS profile & region", category: SegmentCategory::Cloud, icon: "", example: "prod" },
        SegmentInfo { segment_type: "az", label: "Azure", description: "Azure subscription info", category: SegmentCategory::Cloud, icon: "󰠅", example: "my-sub" },
        SegmentInfo { segment_type: "gcp", label: "GCP", description: "Google Cloud project", category: SegmentCategory::Cloud, icon: "", example: "my-proj" },
        SegmentInfo { segment_type: "docker", label: "Docker", description: "Docker context", category: SegmentCategory::Cloud, icon: "", example: "default" },
        SegmentInfo { segment_type: "kubectl", label: "Kubernetes", description: "K8s context & namespace", category: SegmentCategory::Cloud, icon: "󱃾", example: "prod" },
        SegmentInfo { segment_type: "helm", label: "Helm", description: "Helm version", category: SegmentCategory::Cloud, icon: "", example: "3.13" },
        SegmentInfo { segment_type: "terraform", label: "Terraform", description: "Terraform workspace & version", category: SegmentCategory::Cloud, icon: "󱁢", example: "default" },
        SegmentInfo { segment_type: "pulumi", label: "Pulumi", description: "Pulumi stack name", category: SegmentCategory::Cloud, icon: "", example: "dev" },
        SegmentInfo { segment_type: "cf", label: "Cloud F.", description: "Cloud Foundry target", category: SegmentCategory::Cloud, icon: "", example: "api" },
        SegmentInfo { segment_type: "heroku", label: "Heroku", description: "Heroku app info", category: SegmentCategory::Cloud, icon: "", example: "myapp" },
        SegmentInfo { segment_type: "firebase", label: "Firebase", description: "Firebase project", category: SegmentCategory::Cloud, icon: "", example: "proj" },
        SegmentInfo { segment_type: "argocd", label: "ArgoCD", description: "ArgoCD context", category: SegmentCategory::Cloud, icon: "", example: "prod" },
        SegmentInfo { segment_type: "buf", label: "Buf", description: "Buf version", category: SegmentCategory::Cloud, icon: "", example: "1.28" },
        SegmentInfo { segment_type: "nx", label: "Nx", description: "Nx workspace info", category: SegmentCategory::Cloud, icon: "", example: "myws" },
        SegmentInfo { segment_type: "bazel", label: "Bazel", description: "Bazel version", category: SegmentCategory::Cloud, icon: "", example: "7.0" },
        SegmentInfo { segment_type: "cds", label: "SAP CDS", description: "SAP CDS version", category: SegmentCategory::Cloud, icon: "", example: "7.4" },
        SegmentInfo { segment_type: "npm", label: "npm", description: "npm package version", category: SegmentCategory::Cloud, icon: "", example: "10.2" },
        SegmentInfo { segment_type: "shell", label: "Shell", description: "Current shell name", category: SegmentCategory::Shell, icon: "", example: "pwsh" },
        SegmentInfo { segment_type: "commander", label: "Commander", description: "Prompt character / command mode", category: SegmentCategory::Shell, icon: "❯", example: "❯" },
        SegmentInfo { segment_type: "spotify", label: "Spotify", description: "Currently playing track", category: SegmentCategory::Music, icon: "", example: "♫ Song" },
        SegmentInfo { segment_type: "lastfm", label: "Last.fm", description: "Last.fm scrobble info", category: SegmentCategory::Music, icon: "", example: "♫ Track" },
        SegmentInfo { segment_type: "strava", label: "Strava", description: "Strava activity info", category: SegmentCategory::Music, icon: "", example: "5km" },
        SegmentInfo { segment_type: "wakatime", label: "WakaTime", description: "WakaTime coding stats", category: SegmentCategory::Music, icon: "", example: "3h" },
        SegmentInfo { segment_type: "withings", label: "Withings", description: "Withings health data", category: SegmentCategory::Music, icon: "❤", example: "72bpm" },
        SegmentInfo { segment_type: "ytm", label: "YouTube Music", description: "YouTube Music now playing", category: SegmentCategory::Music, icon: "", example: "♫ Now" },
        SegmentInfo { segment_type: "nba", label: "NBA", description: "NBA game scores", category: SegmentCategory::Music, icon: "🏀", example: "LAL 110" },
        SegmentInfo { segment_type: "brewfather", label: "Brewfather", description: "Brewfather batch status", category: SegmentCategory::Other, icon: "🍺", example: "Batch" },
        SegmentInfo { segment_type: "nbgv", label: "NBGV", description: "Nerdbank.GitVersioning version", category: SegmentCategory::Other, icon: "", example: "1.0.0" },
        SegmentInfo { segment_type: "unity", label: "Unity", description: "Unity editor version", category: SegmentCategory::Other, icon: "", example: "2023.2" },
        SegmentInfo { segment_type: "xmake", label: "xmake", description: "xmake build system version", category: SegmentCategory::Other, icon: "", example: "2.8" },
        SegmentInfo { segment_type: "quasar", label: "Quasar", description: "Quasar framework version", category: SegmentCategory::Other, icon: "", example: "2.14" },
        SegmentInfo { segment_type: "react", label: "React", description: "React version", category: SegmentCategory::Other, icon: "", example: "18.2" },
        SegmentInfo { segment_type: "talosctl", label: "Talos", description: "Talos Linux context", category: SegmentCategory::Other, icon: "", example: "ctx" },
        SegmentInfo { segment_type: "vfox", label: "vfox", description: "vfox version manager", category: SegmentCategory::Other, icon: "🦊", example: "0.3" },
        SegmentInfo { segment_type: "azfunc", label: "Azure Func", description: "Azure Functions version", category: SegmentCategory::Other, icon: "󰡯", example: "4" },
        SegmentInfo { segment_type: "umbraco", label: "Umbraco", description: "Umbraco CMS version", category: SegmentCategory::Other, icon: "", example: "13" },
    ]
}

/// The first entry of `cat` whose type name is `name`.
pub open spec fn find_segment(cat: Seq<SegmentInfo>, name: Seq<char>) -> Option<SegmentInfo>
    decreases cat.len(),
{
    if cat.len() == 0 {
        None
    } else if cat[0].segment_type@ == name {
        Some(cat[0])
    } else {
        find_segment(cat.drop_first(), name)
    }
}

/// Look up a segment by its `type` name.
pub fn lookup_segment(segment_type: &str) -> (r: Option<SegmentInfo>)
    ensures
        r == find_segment(segment_catalog_spec(), segment_type@),
{
    let cat = segment_catalog();
    let mut i: usize = 0;
    proof {
        assert(cat@.skip(0) =~= cat@);
    }
    while i < cat.len()
        invariant
            i <= cat.len(),
            cat@ == segment_catalog_spec(),
            find_segment(cat@, segment_type@) == find_segment(cat@.skip(i as int), segment_type@),
        decreases cat.len() - i,
    {
        let info = cat[i];
        assert(cat@.skip(i as int)[0] == info);
        if str_eq(info.segment_type, segment_type) {
            return Some(info);
        }
        assert(cat@.skip(i as int).drop_first() =~= cat@.skip(i + 1));
        i = i + 1;
    }
    assert(cat@.skip(i as int) =~= Seq::<SegmentInfo>::empty());
    None
}

pub open spec fn in_category(c: SegmentCategory) -> spec_fn(SegmentInfo) -> bool {
    |s: SegmentInfo| s.category == c
}

/// All segments of a category, in catalog order.
pub fn segments_in_category(cat: SegmentCategory) -> (v: Vec<SegmentInfo>)
    ensures
        v@ == segment_catalog_spec().filter(in_category(cat)),
{
    let all = segment_catalog();
    let mut v: Vec<SegmentInfo> = Vec::new();
    let mut i: usize = 0;
    while i < all.len()
        invariant
            i <= all.len(),
            all@ == segment_catalog_spec(),
            v@ == all@.take(i as int).filter(in_category(cat)),
        decreases all.len() - i,
    {
        let s = all[i];
        proof {
            assert(all@.take(i + 1) =~= all@.take(i as int).push(s));
            all@.take(i as int).lemma_filter_push(s, in_category(cat));
        }
        if s.category == cat {
            v.push(s);
        }
        i = i + 1;
    }
    assert(all@.take(all.len() as int) =~= all@);
    v
}

} // verus!
