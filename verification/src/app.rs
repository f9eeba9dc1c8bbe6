//! The application state: tabs and focus, the setup wizard, the theme
//! browser, dialogs and status messages, and what changes when outside work
//! (installing, downloading, rewriting profiles) completes.

use vstd::prelude::*;

use std::collections::HashSet;

use crate::config::OmpConfig;
use crate::detect::{DetectionReport, FontStatus, OmpInfo, OsInfo};
use crate::fonts::FontInstallResult;
use crate::install::{create_setup_steps, OpResult, SetupStep, StepStatus};
use crate::paths::{file_stem, join_path, path_file_stem, path_join};
use crate::shell::{opt_string_view, ShellInfo};
use crate::text::{concat2, concat3, decimal, owned, str_eq, usize_to_string};
use crate::themes::{
    discover_spec, discover_themes, filter_themes, filter_themes_spec, no_configs, pair_view,
    search_themes, search_themes_spec, theme_view, theme_views, ThemeCategory, ThemeEntry,
};

verus! {

broadcast use vstd::string::group_string_axioms;

// ── Tabs ─────────────────────────────────────────────────────────────────────

#[derive(Debug, Clone, Copy, PartialEq, Eq, Structural)]
pub enum Tab {
    Dashboard,
    Setup,
    Themes,
}

pub open spec fn tabs_spec() -> Seq<Tab> {
    seq![Tab::Dashboard, Tab::Setup, Tab::Themes]
}

pub open spec fn tab_index_spec(t: Tab) -> nat {
    match t {
        Tab::Dashboard => 0,
        Tab::Setup => 1,
        Tab::Themes => 2,
    }
}

pub open spec fn tab_label_spec(t: Tab) -> Seq<char> {
    match t {
        Tab::Dashboard => "Dashboard"@,
        Tab::Setup => "Setup"@,
        Tab::Themes => "Themes"@,
    }
}

/// The tab after `t`, wrapping around.
pub open spec fn next_tab_spec(t: Tab) -> Tab {
    tabs_spec()[((tab_index_spec(t) + 1) % 3) as int]
}

/// The tab before `t`, wrapping around.
pub open spec fn prev_tab_spec(t: Tab) -> Tab {
    tabs_spec()[(if tab_index_spec(t) == 0 {
        2
    } else {
        tab_index_spec(t) - 1
    }) as int]
}

impl Tab {
    /// Every tab, in order.
    pub fn all() -> (v: Vec<Tab>)
        ensures
            v@ == tabs_spec(),
    {
        vec![Tab::Dashboard, Tab::Setup, Tab::Themes]
    }

    pub fn label(&self) -> (s: &'static str)
        ensures
            s@ == tab_label_spec(*self),
    {
        match self {
            Tab::Dashboard => "Dashboard",
            Tab::Setup => "Setup",
            Tab::Themes => "Themes",
        }
    }

    /// Position of the tab in [`Tab::all`].
    pub fn index(&self) -> (i: usize)
        ensures
            i == tab_index_spec(*self),
            tabs_spec()[i as int] == *self,
    {
        match self {
            Tab::Dashboard => 0,
            Tab::Setup => 1,
            Tab::Themes => 2,
        }
    }
}

#[derive(Debug, Clone, Copy, PartialEq, Eq, Structural)]
pub enum Focus {
    Sidebar,
    List,
    Detail,
}

#[derive(Debug, Clone, Copy, PartialEq, Eq, Structural)]
pub enum SetupFocus {
    Steps,
    Detail,
}

// ── Dashboard items ──────────────────────────────────────────────────────────

#[derive(Debug, Clone, Copy, PartialEq, Eq, Structural)]
pub enum DashboardItem {
    QuickSetup,
    BrowseThemes,
    InstallFont,
    UpdateOmp,
    ResetDefault,
}

pub open spec fn dashboard_items_spec() -> Seq<DashboardItem> {
    seq![
        DashboardItem::QuickSetup,
        DashboardItem::BrowseThemes,
        DashboardItem::InstallFont,
        DashboardItem::UpdateOmp,
        DashboardItem::ResetDefault,
    ]
}

pub open spec fn dashboard_icon_spec(d: DashboardItem) -> Seq<char> {
    match d {
        DashboardItem::QuickSetup => "⚡"@,
        DashboardItem::BrowseThemes => "🎨"@,
        DashboardItem::InstallFont => "🔤"@,
        DashboardItem::UpdateOmp => "⟳"@,
        DashboardItem::ResetDefault => "🔄"@,
    }
}

pub open spec fn dashboard_label_spec(d: DashboardItem) -> Seq<char> {
    match d {
        DashboardItem::QuickSetup => "Quick Setup"@,
        DashboardItem::BrowseThemes => "Browse Themes"@,
        DashboardItem::InstallFont => "Install Fonts"@,
        DashboardItem::UpdateOmp => "Update Oh My Posh"@,
        DashboardItem::ResetDefault => "Reset to Default"@,
    }
}

pub open spec fn dashboard_description_spec(d: DashboardItem) -> Seq<char> {
    match d {
        DashboardItem::QuickSetup => "Install everything and configure shells in one go"@,
        DashboardItem::BrowseThemes => "Find your perfect prompt theme from 100+ options"@,
        DashboardItem::InstallFont => "Download and install all required Nerd Fonts for icons"@,
        DashboardItem::UpdateOmp => "Check for and install the latest Oh My Posh version"@,
        DashboardItem::ResetDefault => "Remove Oh My Posh from all shells and restore defaults"@,
    }
}

pub open spec fn dashboard_key_hint_spec(d: DashboardItem) -> Seq<char> {
    match d {
        DashboardItem::QuickSetup => "S"@,
        DashboardItem::BrowseThemes => "T"@,
        DashboardItem::InstallFont => "F"@,
        DashboardItem::UpdateOmp => "U"@,
        DashboardItem::ResetDefault => "R"@,
    }
}

impl DashboardItem {
    /// Every dashboard item, in order.
    pub fn all() -> (v: Vec<DashboardItem>)
        ensures
            v@ == dashboard_items_spec(),
    {
        vec![
            DashboardItem::QuickSetup,
            DashboardItem::BrowseThemes,
            DashboardItem::InstallFont,
            DashboardItem::UpdateOmp,
            DashboardItem::ResetDefault,
        ]
    }

    pub fn icon(&self) -> (s: &'static str)
        ensures
            s@ == dashboard_icon_spec(*self),
    {
        match self {
            DashboardItem::QuickSetup => "⚡",
            DashboardItem::BrowseThemes => "🎨",
            DashboardItem::InstallFont => "🔤",
            DashboardItem::UpdateOmp => "⟳",
            DashboardItem::ResetDefault => "🔄",
        }
    }

    pub fn label(&self) -> (s: &'static str)
        ensures
            s@ == dashboard_label_spec(*self),
    {
        match self {
            DashboardItem::QuickSetup => "Quick Setup",
            DashboardItem::BrowseThemes => "Browse Themes",
            DashboardItem::InstallFont => "Install Fonts",
            DashboardItem::UpdateOmp => "Update Oh My Posh",
            DashboardItem::ResetDefault => "Reset to Default",
        }
    }

    pub fn description(&self) -> (s: &'static str)
        ensures
            s@ == dashboard_description_spec(*self),
    {
        match self {
            DashboardItem::QuickSetup => "Install everything and configure shells in one go",
            DashboardItem::BrowseThemes => "Find your perfect prompt theme from 100+ options",
            DashboardItem::InstallFont => "Download and install all required Nerd Fonts for icons",
            DashboardItem::UpdateOmp => "Check for and install the latest Oh My Posh version",
            DashboardItem::ResetDefault => "Remove Oh My Posh from all shells and restore defaults",
        }
    }

    pub fn key_hint(&self) -> (s: &'static str)
        ensures
            s@ == dashboard_key_hint_spec(*self),
    {
        match self {
            DashboardItem::QuickSetup => "S",
            DashboardItem::BrowseThemes => "T",
            DashboardItem::InstallFont => "F",
            DashboardItem::UpdateOmp => "U",
            DashboardItem::ResetDefault => "R",
        }
    }
}

// ── Dialogs and status ───────────────────────────────────────────────────────

#[derive(Debug, Clone, Copy, PartialEq, Eq, Structural)]
pub enum ConfirmAction {
    InstallOmp,
    InstallFont,
    ApplyTheme,
    ConfigureShell,
    UnconfigureShell,
    ConfigureAllShells,
    ResetToDefault,
}

/// A confirmation dialog.
#[derive(Debug, Clone)]
pub struct ConfirmDialog {
    pub title: String,
    pub message: String,
    pub action: ConfirmAction,
    pub confirm_selected: bool,
    /// Extra context: a theme name, a font name or a shell index.
    pub context: String,
}

/// A dialog with exactly these contents.
pub open spec fn is_dialog(
    d: ConfirmDialog,
    title: Seq<char>,
    message: Seq<char>,
    action: ConfirmAction,
    confirm_selected: bool,
    context: Seq<char>,
) -> bool {
    &&& d.title@ == title
    &&& d.message@ == message
    &&& d.action == action
    &&& d.confirm_selected == confirm_selected
    &&& d.context@ == context
}

/// A status-bar message; `tick` counts down the frames it stays visible.
#[derive(Debug, Clone)]
pub struct StatusMessage {
    pub text: String,
    pub is_error: bool,
    pub tick: u16,
}

impl Default for StatusMessage {
    /// An empty, invisible message.
    fn default() -> (m: StatusMessage)
        ensures
            m.text@ == Seq::<char>::empty(),
            !m.is_error,
            m.tick == 0,
    {
        StatusMessage { text: String::new(), is_error: false, tick: 0 }
    }
}

/// Screen regions (x, y, width, height) recorded while drawing, for mouse hit tests.
#[derive(Debug, Clone, Copy)]
pub struct LayoutRegions {
    pub tab_bar: Option<(u16, u16, u16, u16)>,
    pub sidebar: Option<(u16, u16, u16, u16)>,
    pub list: Option<(u16, u16, u16, u16)>,
    pub detail: Option<(u16, u16, u16, u16)>,
    pub setup_area: Option<(u16, u16, u16, u16)>,
    pub setup_steps: Option<(u16, u16, u16, u16)>,
    pub setup_detail: Option<(u16, u16, u16, u16)>,
    pub dashboard_area: Option<(u16, u16, u16, u16)>,
    pub confirm_area: Option<(u16, u16, u16, u16)>,
}

impl LayoutRegions {
    /// No region recorded.
    pub open spec fn empty_spec() -> LayoutRegions {
        LayoutRegions {
            tab_bar: None,
            sidebar: None,
            list: None,
            detail: None,
            setup_area: None,
            setup_steps: None,
            setup_detail: None,
            dashboard_area: None,
            confirm_area: None,
        }
    }

}

impl Default for LayoutRegions {
    /// No region recorded yet.
    fn default() -> (l: LayoutRegions)
        ensures
            l == LayoutRegions::empty_spec(),
    {
        LayoutRegions {
            tab_bar: None,
            sidebar: None,
            list: None,
            detail: None,
            setup_area: None,
            setup_steps: None,
            setup_detail: None,
            dashboard_area: None,
            confirm_area: None,
        }
    }
}

// ── App ──────────────────────────────────────────────────────────────────────

/// All runtime state of the manager.
pub struct App {
    pub running: bool,
    pub tab: Tab,
    pub focus: Focus,
    pub os_info: OsInfo,
    pub omp: Option<OmpInfo>,
    pub fonts: FontStatus,
    pub shells: Vec<ShellInfo>,
    pub dashboard_selected: usize,
    pub setup_steps: Vec<SetupStep>,
    pub setup_current: usize,
    pub setup_font_selected: usize,
    pub setup_theme_selected: usize,
    pub setup_shell_toggles: Vec<bool>,
    pub setup_focus: SetupFocus,
    pub setup_shell_selected: usize,
    pub theme_list: Vec<ThemeEntry>,
    pub theme_filtered: Vec<usize>,
    pub theme_selected: usize,
    pub theme_scroll: usize,
    pub theme_visible_height: usize,
    pub theme_search: String,
    pub theme_search_editing: bool,
    pub theme_category: ThemeCategory,
    pub theme_category_index: usize,
    pub active_theme_name: Option<String>,
    pub confirm: Option<ConfirmDialog>,
    pub status: StatusMessage,
    pub layout: LayoutRegions,
    /// Indices of themes whose files are being downloaded.
    pub theme_downloading: HashSet<usize>,
}

/// The theme indices shown for a category and a search query: the
/// category's themes, narrowed to those matching the query when there is one.
pub open spec fn shown_themes(list: Seq<ThemeEntry>, cat: ThemeCategory, search: Seq<char>) -> Seq<
    usize,
> {
    let by_cat = filter_themes_spec(theme_views(list), cat);
    if search.len() == 0 {
        by_cat
    } else {
        let by_search = search_themes_spec(theme_views(list), search);
        by_cat.filter(|i: usize| by_search.contains(i))
    }
}

/// The theme path of the first shell whose profile names one.
pub open spec fn first_current_theme(shells: Seq<ShellInfo>) -> Option<Seq<char>>
    decreases shells.len(),
{
    if shells.len() == 0 {
        None
    } else {
        match shells[0].current_theme {
            Some(p) => Some(p@),
            None => first_current_theme(shells.drop_first()),
        }
    }
}

/// The active theme's name from a theme path: the file stem without any
/// `.omp` endings.
pub open spec fn theme_name_of_path(path: Seq<char>) -> Option<Seq<char>> {
    match path_file_stem(path) {
        Some(stem) => Some(crate::themes::strip_suffix_all(stem, ".omp"@)),
        None => None,
    }
}

/// The shells the wizard preselects: available and not yet configured.
pub open spec fn default_toggles(shells: Seq<ShellInfo>) -> Seq<bool> {
    shells.map_values(|s: ShellInfo| s.available && !s.omp_configured)
}

fn first_theme_path(shells: &Vec<ShellInfo>) -> (r: Option<&String>)
    ensures
        match r {
            Some(p) => first_current_theme(shells@) == Some(p@),
            None => first_current_theme(shells@) is None,
        },
{
    let mut i: usize = 0;
    assert(shells@.skip(0) =~= shells@);
    while i < shells.len()
        invariant
            i <= shells.len(),
            first_current_theme(shells@) == first_current_theme(shells@.skip(i as int)),
        decreases shells.len() - i,
    {
        assert(shells@.skip(i as int).drop_first() =~= shells@.skip(i + 1));
        if let Some(p) = &shells[i].current_theme {
            return Some(p);
        }
        i = i + 1;
    }
    None
}

/// The active theme's name for a theme path.
pub fn theme_name_from_theme_path(path: &str) -> (r: Option<String>)
    ensures
        opt_string_view(r) == theme_name_of_path(path@),
{
    match file_stem(path) {
        Some(stem) => {
            let sv = crate::text::chars_of(stem.as_str());
            let omp = crate::text::chars_of(".omp");
            let t = crate::themes::strip_suffix_all_exec(&sv, &omp);
            Some(crate::text::string_of(&t))
        },
        None => None,
    }
}

/// `i` is the first index of a theme called `name`.
pub open spec fn is_first_named(list: Seq<ThemeEntry>, name: Seq<char>, i: int) -> bool {
    &&& 0 <= i < list.len()
    &&& list[i].name@ == name
    &&& forall|k: int| 0 <= k < i ==> #[trigger] list[k].name@ != name
}

/// The first index of a theme called `name`, if there is one.
pub open spec fn first_named(list: Seq<ThemeEntry>, name: Seq<char>) -> Option<int> {
    if exists|i: int| is_first_named(list, name, i) {
        Some(choose|i: int| is_first_named(list, name, i))
    } else {
        None
    }
}

/// The path of the theme file called `<name>.omp.json` in the Oh My Posh
/// themes directory, when that directory is known.
pub open spec fn in_themes_dir(omp: Option<OmpInfo>, name: Seq<char>) -> Option<Seq<char>> {
    match omp {
        Some(o) => match o.themes_path {
            Some(tp) => Some(path_join(tp@, name + ".omp.json"@)),
            None => None,
        },
        None => None,
    }
}

fn set_step_status(steps: &mut Vec<SetupStep>, k: usize, st: StepStatus)
    ensures
        k < old(steps)@.len() ==> final(steps)@ == old(steps)@.update(
            k as int,
            SetupStep { status: st, ..old(steps)@[k as int] },
        ),
        k >= old(steps)@.len() ==> final(steps)@ == old(steps)@,
{
    if k < steps.len() {
        let mut e = steps.remove(k);
        e.status = st;
        steps.insert(k, e);
        assert(steps@ =~= old(steps)@.update(k as int, SetupStep { status: st, ..old(steps)@[k as int] }));
    }
}

/// The steps with step `k` set to `st` (unchanged when there is no step `k`).
pub open spec fn with_step_status(steps: Seq<SetupStep>, k: int, st: StepStatus) -> Seq<SetupStep> {
    if 0 <= k < steps.len() {
        steps.update(k, SetupStep { status: st, ..steps[k] })
    } else {
        steps
    }
}

/// A status message with this text, of this kind, shown for the usual time.
pub open spec fn status_is(m: StatusMessage, text: Seq<char>, is_error: bool) -> bool {
    &&& m.text@ == text
    &&& m.is_error == is_error
    &&& m.tick == (if is_error {
        160u16
    } else {
        120u16
    })
}

/// Indices of the shells whose profile already loads Oh My Posh.
pub open spec fn configured_indices(shells: Seq<ShellInfo>) -> Seq<usize> {
    crate::themes::indices_where(shells.len(), |i: int| shells[i].omp_configured)
}

/// Indices of the shells the wizard configures: available, toggled on, and
/// not configured yet.
pub open spec fn toggled_indices(shells: Seq<ShellInfo>, toggles: Seq<bool>) -> Seq<usize> {
    crate::themes::indices_where(
        shells.len(),
        |i: int| shells[i].available && (i < toggles.len() && toggles[i]) && !shells[i].omp_configured,
    )
}

impl App {
    /// The state invariant: four wizard steps, shown theme indices that
    /// point into the list, and a valid category index.
    pub open spec fn wf(&self) -> bool {
        &&& self.setup_steps@.len() == 4
        &&& forall|i: int|
            0 <= i < self.theme_filtered@.len() ==> #[trigger] self.theme_filtered@[i]
                < self.theme_list@.len()
        &&& self.theme_category_index < 7
    }


    /// Whether the state invariant holds (see [`App::wf`]).
    pub fn is_well_formed(&self) -> (b: bool)
        ensures
            b == self.wf(),
    {
        if self.setup_steps.len() != 4 || self.theme_category_index >= 7 {
            return false;
        }
        let mut i: usize = 0;
        while i < self.theme_filtered.len()
            invariant
                i <= self.theme_filtered.len(),
                forall|k: int| 0 <= k < i ==> #[trigger] self.theme_filtered@[k] < self.theme_list@.len(),
            decreases self.theme_filtered.len() - i,
        {
            if self.theme_filtered[i] >= self.theme_list.len() {
                return false;
            }
            i = i + 1;
        }
        true
    }

    /// The manager's state right after start-up, from the detection report,
    /// the shells found and the theme files found on disk
    /// (`(file name, path)` pairs).
    pub fn new(report: DetectionReport, shells: Vec<ShellInfo>, disk: &Vec<(String, String)>) -> (app: App)
        ensures
            app.wf(),
            app.running,
            app.tab == Tab::Dashboard,
            app.focus == Focus::List,
            app.os_info == report.os,
            app.omp == report.omp,
            app.fonts == report.fonts,
            app.shells == shells,
            app.dashboard_selected == 0,
            app.setup_steps@.map_values(|s: SetupStep| crate::install::step_view(s))
                == crate::install::setup_steps_spec(report.omp is Some, report.fonts.has_nerd_font),
            app.setup_current == 0,
            app.setup_font_selected == 0,
            app.setup_theme_selected == 0,
            app.setup_shell_toggles@ == default_toggles(shells@),
            app.setup_focus == SetupFocus::Steps,
            app.setup_shell_selected == 0,
            theme_views(app.theme_list@) == discover_spec(
                disk@.map_values(|p: (String, String)| pair_view(p)),
            ),
            no_configs(app.theme_list@),
            app.theme_filtered@ == Seq::new(app.theme_list@.len(), |i: int| i as usize),
            app.theme_filtered@ == shown_themes(app.theme_list@, ThemeCategory::All, Seq::empty()),
            app.theme_selected == 0,
            app.theme_scroll == 0,
            app.theme_visible_height == 20,
            app.theme_search@ == Seq::<char>::empty(),
            !app.theme_search_editing,
            app.theme_category == ThemeCategory::All,
            app.theme_category_index == 0,
            opt_string_view(app.active_theme_name) == (match first_current_theme(shells@) {
                Some(p) => theme_name_of_path(p),
                None => None,
            }),
            app.confirm is None,
            app.status.text@ == Seq::<char>::empty(),
            !app.status.is_error,
            app.status.tick == 0,
            app.layout == LayoutRegions::empty_spec(),
            app.theme_downloading@ == Set::<usize>::empty(),
    {
        let omp_installed = report.omp.is_some();
        let has_font = report.fonts.has_nerd_font;
        let theme_list = discover_themes(disk);
        let mut theme_filtered: Vec<usize> = Vec::new();
        let mut i: usize = 0;
        while i < theme_list.len()
            invariant
                i <= theme_list.len(),
                theme_filtered@ == Seq::new(i as nat, |k: int| k as usize),
            decreases theme_list.len() - i,
        {
            theme_filtered.push(i);
            i = i + 1;
            assert(theme_filtered@ =~= Seq::new(i as nat, |k: int| k as usize));
        }
        proof {
            crate::themes::law_all_category_lists_every_theme(theme_views(theme_list@));
        }
        let setup_steps = create_setup_steps(omp_installed, has_font);
        let active_theme_name = match first_theme_path(&shells) {
            Some(p) => theme_name_from_theme_path(p.as_str()),
            None => None,
        };
        let mut toggles: Vec<bool> = Vec::new();
        let mut j: usize = 0;
        while j < shells.len()
            invariant
                j <= shells.len(),
                toggles@ == default_toggles(shells@.take(j as int)),
            decreases shells.len() - j,
        {
            toggles.push(shells[j].available && !shells[j].omp_configured);
            j = j + 1;
            assert(toggles@ =~= default_toggles(shells@.take(j as int)));
        }
        assert(shells@.take(j as int) =~= shells@);
        proof {
            assert(setup_steps@.len() == 4) by {
                assert(setup_steps@.map_values(|s: SetupStep| crate::install::step_view(s)).len() == 4);
            }
        }
        App {
            running: true,
            tab: Tab::Dashboard,
            focus: Focus::List,
            os_info: report.os,
            omp: report.omp,
            fonts: report.fonts,
            shells,
            dashboard_selected: 0,
            setup_steps,
            setup_current: 0,
            setup_font_selected: 0,
            setup_theme_selected: 0,
            setup_shell_toggles: toggles,
            setup_focus: SetupFocus::Steps,
            setup_shell_selected: 0,
            theme_list,
            theme_filtered,
            theme_selected: 0,
            theme_scroll: 0,
            theme_visible_height: 20,
            theme_search: String::new(),
            theme_search_editing: false,
            theme_category: ThemeCategory::All,
            theme_category_index: 0,
            active_theme_name,
            confirm: None,
            status: StatusMessage::default(),
            layout: LayoutRegions::default(),
            theme_downloading: HashSet::new(),
        }
    }

    // ── Status helpers ───────────────────────────────────────────────────────

    pub fn set_status(&mut self, msg: &str)
        ensures
            old(self).wf() ==> final(self).wf(),
            final(self).status.text@ == msg@,
            !final(self).status.is_error,
            final(self).status.tick == 120,
            *final(self) == (App { status: final(self).status, ..*old(self) }),
    {
        self.status = StatusMessage { text: owned(msg), is_error: false, tick: 120 };
    }

    pub fn set_status_err(&mut self, msg: &str)
        ensures
            old(self).wf() ==> final(self).wf(),
            final(self).status.text@ == msg@,
            final(self).status.is_error,
            final(self).status.tick == 160,
            *final(self) == (App { status: final(self).status, ..*old(self) }),
    {
        self.status = StatusMessage { text: owned(msg), is_error: true, tick: 160 };
    }

    /// Count the status message down by one frame.
    pub fn tick_status(&mut self)
        ensures
            old(self).wf() ==> final(self).wf(),
            final(self).status.tick == (if old(self).status.tick > 0 {
                (old(self).status.tick - 1) as u16
            } else {
                0u16
            }),
            final(self).status.text == old(self).status.text,
            final(self).status.is_error == old(self).status.is_error,
            *final(self) == (App { status: final(self).status, ..*old(self) }),
    {
        if self.status.tick > 0 {
            self.status.tick = self.status.tick - 1;
        }
    }

    // ── Theme helpers ────────────────────────────────────────────────────────

    /// Recompute the shown themes from the category and the search, and
    /// select the first.
    pub fn apply_theme_filter(&mut self)
        ensures
            old(self).wf() ==> final(self).wf(),
            final(self).theme_filtered@ == shown_themes(
                old(self).theme_list@,
                old(self).theme_category,
                old(self).theme_search@,
            ),
            forall|i: int|
                0 <= i < final(self).theme_filtered@.len() ==> #[trigger] final(self).theme_filtered@[i] < final(self).theme_list@.len(),
            *final(self) == (App {
                theme_filtered: final(self).theme_filtered,
                theme_selected: 0,
                theme_scroll: 0,
                ..*old(self)
            }),
    {
        let by_cat = filter_themes(&self.theme_list, self.theme_category);
        proof {
            let ts = theme_views(self.theme_list@);
            let cat = self.theme_category;
            crate::themes::lemma_indices_below(ts.len(), |i: int| crate::themes::in_theme_category(ts[i], cat));
        }
        if self.theme_search.as_str().unicode_len() == 0 {
            self.theme_filtered = by_cat;
        } else {
            let by_search = search_themes(&self.theme_list, self.theme_search.as_str());
            let ghost pred = |i: usize| by_search@.contains(i);
            let mut out: Vec<usize> = Vec::new();
            let mut k: usize = 0;
            while k < by_cat.len()
                invariant
                    k <= by_cat.len(),
                    pred == (|i: usize| by_search@.contains(i)),
                    out@ == by_cat@.take(k as int).filter(pred),
                decreases by_cat.len() - k,
            {
                let x = by_cat[k];
                proof {
                    assert(by_cat@.take(k + 1) =~= by_cat@.take(k as int).push(x));
                    by_cat@.take(k as int).lemma_filter_push(x, pred);
                }
                if vec_usize_contains(&by_search, x) {
                    out.push(x);
                }
                k = k + 1;
            }
            assert(by_cat@.take(k as int) =~= by_cat@);
            proof {
                assert forall|i: int| 0 <= i < out@.len() implies #[trigger] out@[i]
                    < self.theme_list@.len() by {
                    by_cat@.lemma_filter_contains_rev(pred, out@[i]);
                    assert(out@.contains(out@[i]));
                }
            }
            self.theme_filtered = out;
        }
        self.theme_selected = 0;
        self.theme_scroll = 0;
    }

    /// Index into the list of the selected theme, if one is selected.
    pub open spec fn selected_index(&self) -> Option<int> {
        if self.theme_selected < self.theme_filtered@.len() && self.theme_filtered@[self.theme_selected as int] < self.theme_list@.len() {
            Some(self.theme_filtered@[self.theme_selected as int] as int)
        } else {
            None
        }
    }

    /// The currently selected theme (if any).
    pub fn selected_theme(&self) -> (r: Option<&ThemeEntry>)
        ensures
            match self.selected_index() {
                Some(i) => r == Some(&self.theme_list@[i]),
                None => r is None,
            },
    {
        if self.theme_selected < self.theme_filtered.len() {
            let i = self.theme_filtered[self.theme_selected];
            if i < self.theme_list.len() {
                return Some(&self.theme_list[i]);
            }
        }
        None
    }

    /// Replace the theme list (after the themes directory may have changed)
    /// and recompute what is shown.
    pub fn refresh_themes(&mut self, disk: &Vec<(String, String)>)
        ensures
            old(self).wf() ==> final(self).wf(),
            theme_views(final(self).theme_list@) == discover_spec(
                disk@.map_values(|p: (String, String)| pair_view(p)),
            ),
            no_configs(final(self).theme_list@),
            final(self).theme_filtered@ == shown_themes(
                final(self).theme_list@,
                old(self).theme_category,
                old(self).theme_search@,
            ),
            forall|i: int|
                0 <= i < final(self).theme_filtered@.len() ==> #[trigger] final(self).theme_filtered@[i] < final(self).theme_list@.len(),
            *final(self) == (App {
                theme_list: final(self).theme_list,
                theme_filtered: final(self).theme_filtered,
                theme_selected: 0,
                theme_scroll: 0,
                ..*old(self)
            }),
    {
        self.theme_list = discover_themes(disk);
        self.apply_theme_filter();
    }

    // ── Navigation ───────────────────────────────────────────────────────────

    pub fn next_tab(&mut self)
        ensures
            old(self).wf() ==> final(self).wf(),
            *final(self) == (App { tab: next_tab_spec(old(self).tab), ..*old(self) }),
    {
        let idx = self.tab.index();
        let all = Tab::all();
        let next = (idx + 1) % all.len();
        self.tab = all[next];
    }

    pub fn prev_tab(&mut self)
        ensures
            old(self).wf() ==> final(self).wf(),
            *final(self) == (App { tab: prev_tab_spec(old(self).tab), ..*old(self) }),
    {
        let idx = self.tab.index();
        let all = Tab::all();
        let prev = if idx == 0 {
            all.len() - 1
        } else {
            idx - 1
        };
        self.tab = all[prev];
    }

    /// Keep a selection within `0..len` and its scroll offset such that the
    /// selection is among the `visible` rows shown.
    pub fn clamp_selection(sel: &mut usize, scroll: &mut usize, len: usize, visible: usize)
        requires
            len == 0 || clamped_scroll(*old(sel), *old(scroll), len) + visible <= usize::MAX,
        ensures
            (*final(sel), *final(scroll)) == clamp_spec(*old(sel), *old(scroll), len, visible),
    {
        if len == 0 {
            *sel = 0;
            *scroll = 0;
            return ;
        }
        if *sel >= len {
            *sel = len - 1;
        }
        if *sel < *scroll {
            *scroll = *sel;
        }
        if *sel >= *scroll + visible {
            *scroll = *sel - visible + 1;
        }
    }

    // ── Lazy theme loading ───────────────────────────────────────────────────

    /// What loading the selected theme's configuration needs: its index and
    /// file path, or nothing when no theme is selected or it is loaded.
    pub fn theme_load_request(&self) -> (r: Option<(usize, Option<String>)>)
        requires
            self.wf(),
        ensures
            match r {
                Some((i, p)) => self.selected_index() == Some(i as int)
                    && self.theme_list@[i as int].config is None && opt_string_view(p)
                    == opt_string_view(self.theme_list@[i as int].path),
                None => self.selected_index() matches Some(i) ==> self.theme_list@[i].config is Some,
            },
    {
        if self.theme_selected < self.theme_filtered.len() {
            let idx = self.theme_filtered[self.theme_selected];
            let e = &self.theme_list[idx];
            if e.config.is_some() {
                return None;
            }
            let p = match &e.path {
                Some(p) => Some(p.clone()),
                None => None,
            };
            return Some((idx, p));
        }
        None
    }

    /// Store a loaded configuration.
    pub fn set_theme_config(&mut self, idx: usize, config: OmpConfig)
        requires
            idx < old(self).theme_list.len(),
        ensures
            old(self).wf() ==> final(self).wf(),
            final(self).theme_list@ == old(self).theme_list@.update(
                idx as int,
                ThemeEntry { config: Some(config), ..old(self).theme_list@[idx as int] },
            ),
            *final(self) == (App { theme_list: final(self).theme_list, ..*old(self) }),
    {
        let mut list = { let mut tmp: Vec<ThemeEntry> = Vec::new(); std::mem::swap(&mut tmp, &mut self.theme_list); tmp };
        let mut e = list.remove(idx);
        e.config = Some(config);
        list.insert(idx, e);
        self.theme_list = list;
        assert(self.theme_list@ =~= old(self).theme_list@.update(
            idx as int,
            ThemeEntry { config: Some(config), ..old(self).theme_list@[idx as int] },
        ));
    }

    /// Start a download of theme `idx` unless one is already running: the
    /// name to download, or `None` when it is already being downloaded.
    pub fn begin_theme_download(&mut self, idx: usize) -> (r: Option<String>)
        requires
            idx < old(self).theme_list.len(),
        ensures
            old(self).wf() ==> final(self).wf(),
            old(self).theme_downloading@.contains(idx) ==> r is None && *final(self) == *old(self),
            !old(self).theme_downloading@.contains(idx) ==> (r matches Some(n) && n@ == old(self).theme_list@[idx as int].name@) && final(self).theme_downloading@ == old(self).theme_downloading@.insert(idx) && *final(self) == (App {
                theme_downloading: final(self).theme_downloading,
                ..*old(self)
            }),
    {
        if self.theme_downloading.contains(&idx) {
            return None;
        }
        self.theme_downloading.insert(idx);
        Some(self.theme_list[idx].name.clone())
    }

    /// A background download finished: store its file and configuration.
    pub fn finish_theme_download(&mut self, idx: usize, path: String, config: OmpConfig)
        ensures
            old(self).wf() ==> final(self).wf(),
            idx < old(self).theme_list.len() ==> final(self).theme_list@ == old(self).theme_list@.update(
                idx as int,
                ThemeEntry {
                    config: Some(config),
                    path: Some(path),
                    ..old(self).theme_list@[idx as int]
                },
            ),
            idx >= old(self).theme_list.len() ==> final(self).theme_list == old(self).theme_list,
            final(self).theme_downloading@ == old(self).theme_downloading@.remove(idx),
            *final(self) == (App {
                theme_list: final(self).theme_list,
                theme_downloading: final(self).theme_downloading,
                ..*old(self)
            }),
    {
        if idx < self.theme_list.len() {
            let mut list = { let mut tmp: Vec<ThemeEntry> = Vec::new(); std::mem::swap(&mut tmp, &mut self.theme_list); tmp };
            let mut e = list.remove(idx);
            e.config = Some(config);
            e.path = Some(path);
            list.insert(idx, e);
            self.theme_list = list;
            assert(self.theme_list@ =~= old(self).theme_list@.update(
                idx as int,
                ThemeEntry {
                    config: Some(config),
                    path: Some(path),
                    ..old(self).theme_list@[idx as int]
                },
            ));
        }
        self.theme_downloading.remove(&idx);
    }

    // ── Outside work completed ───────────────────────────────────────────────

    /// The first theme called `name`, if any.
    pub fn theme_index(&self, name: &str) -> (r: Option<usize>)
        ensures
            match r {
                Some(i) => first_named(self.theme_list@, name@) == Some(i as int),
                None => first_named(self.theme_list@, name@) is None,
            },
    {
        let mut i: usize = 0;
        while i < self.theme_list.len()
            invariant
                i <= self.theme_list.len(),
                forall|k: int| 0 <= k < i ==> #[trigger] self.theme_list@[k].name@ != name@,
            decreases self.theme_list.len() - i,
        {
            if str_eq(self.theme_list[i].name.as_str(), name) {
                proof {
                    assert(is_first_named(self.theme_list@, name@, i as int));
                    let j = choose|j: int| is_first_named(self.theme_list@, name@, j);
                    if j < i {
                        assert(self.theme_list@[j].name@ != name@);
                    }
                    if j > i {
                        assert(self.theme_list@[i as int].name@ != name@);
                    }
                }
                return Some(i);
            }
            i = i + 1;
        }
        None
    }

    /// Indices of the shells whose profile loads Oh My Posh: those a new
    /// theme is written to.
    pub fn configured_shell_indices(&self) -> (r: Vec<usize>)
        ensures
            r@ == configured_indices(self.shells@),
    {
        let ghost p = |i: int| self.shells@[i].omp_configured;
        let mut r: Vec<usize> = Vec::new();
        let mut i: usize = 0;
        while i < self.shells.len()
            invariant
                i <= self.shells.len(),
                p == (|i: int| self.shells@[i].omp_configured),
                r@ == crate::themes::indices_where(i as nat, p),
            decreases self.shells.len() - i,
        {
            if self.shells[i].omp_configured {
                r.push(i);
            }
            i = i + 1;
        }
        r
    }

    /// Indices of the shells the wizard's last step configures.
    pub fn shells_to_configure(&self) -> (r: Vec<usize>)
        ensures
            r@ == toggled_indices(self.shells@, self.setup_shell_toggles@),
    {
        let ghost p = |i: int|
            self.shells@[i].available && (i < self.setup_shell_toggles@.len()
                && self.setup_shell_toggles@[i]) && !self.shells@[i].omp_configured;
        let mut r: Vec<usize> = Vec::new();
        let mut i: usize = 0;
        while i < self.shells.len()
            invariant
                i <= self.shells.len(),
                p == (|i: int|
                    self.shells@[i].available && (i < self.setup_shell_toggles@.len()
                        && self.setup_shell_toggles@[i]) && !self.shells@[i].omp_configured),
                r@ == crate::themes::indices_where(i as nat, p),
            decreases self.shells.len() - i,
        {
            let toggled = i < self.setup_shell_toggles.len() && self.setup_shell_toggles[i];
            if self.shells[i].available && toggled && !self.shells[i].omp_configured {
                r.push(i);
            }
            i = i + 1;
        }
        r
    }

    /// The shell a dialog's context names (an index; anything unreadable
    /// means the first shell), if there is such a shell.
    pub fn shell_target(&self, context: &str) -> (r: Option<usize>)
        ensures
            ({
                let idx = match crate::text::parse_usize_spec(context@) {
                    Some(n) => n,
                    None => 0,
                };
                match r {
                    Some(i) => i == idx && i < self.shells@.len(),
                    None => idx >= self.shells@.len(),
                }
            }),
    {
        let idx = match crate::text::parse_usize(context) {
            Some(n) => n,
            None => 0,
        };
        if idx < self.shells.len() {
            Some(idx)
        } else {
            None
        }
    }

    /// The theme file written into a single shell's profile: the active
    /// theme in the Oh My Posh themes directory.
    pub fn shell_theme_path(&self) -> (r: Option<String>)
        ensures
            opt_string_view(r) == (match self.active_theme_name {
                Some(name) => in_themes_dir(self.omp, name@),
                None => None,
            }),
    {
        match &self.active_theme_name {
            Some(name) => match &self.omp {
                Some(o) => match &o.themes_path {
                    Some(tp) => {
                        let f = concat2(name.as_str(), ".omp.json");
                        Some(join_path(tp.as_str(), f.as_str()))
                    },
                    None => None,
                },
                None => None,
            },
            None => None,
        }
    }

    /// The theme file the wizard writes into the shells it configures: the
    /// active theme's own file when its entry has one, else the file in the
    /// Oh My Posh themes directory.
    pub fn wizard_theme_path(&self) -> (r: Option<String>)
        ensures
            opt_string_view(r) == (match self.active_theme_name {
                Some(name) => match first_named(self.theme_list@, name@) {
                    Some(i) if self.theme_list@[i].path is Some => opt_string_view(
                        self.theme_list@[i].path,
                    ),
                    _ => in_themes_dir(self.omp, name@),
                },
                None => None,
            }),
    {
        match &self.active_theme_name {
            Some(name) => {
                match self.theme_index(name.as_str()) {
                    Some(i) => {
                        if let Some(p) = &self.theme_list[i].path {
                            return Some(p.clone());
                        }
                    },
                    None => {},
                }
                self.shell_theme_path()
            },
            None => None,
        }
    }

    /// Installing Oh My Posh finished: report the verdict; on success take
    /// the new detection and the theme files now on disk, mark the first
    /// wizard step done and move the wizard on.
    pub fn finish_install_omp(
        &mut self,
        result: &OpResult,
        omp_after: Option<OmpInfo>,
        disk: &Vec<(String, String)>,
    )
        ensures
            old(self).wf() ==> final(self).wf(),
            !result.success ==> status_is(final(self).status, result.message@, true) && *final(self)
                == (App { status: final(self).status, ..*old(self) }),
            result.success ==> status_is(final(self).status, result.message@, false)
                && final(self).setup_steps@ == with_step_status(old(self).setup_steps@, 0, StepStatus::Done)
                && theme_views(final(self).theme_list@) == discover_spec(
                disk@.map_values(|p: (String, String)| pair_view(p)),
            ) && no_configs(final(self).theme_list@) && final(self).theme_filtered@ == shown_themes(
                final(self).theme_list@,
                old(self).theme_category,
                old(self).theme_search@,
            ) && *final(self) == (App {
                status: final(self).status,
                omp: omp_after,
                setup_steps: final(self).setup_steps,
                theme_list: final(self).theme_list,
                theme_filtered: final(self).theme_filtered,
                theme_selected: 0,
                theme_scroll: 0,
                setup_current: if old(self).tab == Tab::Setup && old(self).setup_current == 0 {
                    1
                } else {
                    old(self).setup_current
                },
                ..*old(self)
            }),
    {
        if result.success {
            self.set_status(result.message.as_str());
            self.omp = omp_after;
            set_step_status(&mut self.setup_steps, 0, StepStatus::Done);
            self.refresh_themes(disk);
            if self.tab == Tab::Setup && self.setup_current == 0 {
                self.setup_current = 1;
            }
        } else {
            self.set_status_err(result.message.as_str());
        }
    }

    /// Installing a font finished: report the verdict; on success take the
    /// new font detection, mark the font step done and move the wizard on.
    pub fn finish_install_font(&mut self, result: &FontInstallResult, fonts_after: FontStatus)
        ensures
            old(self).wf() ==> final(self).wf(),
            !result.success ==> status_is(final(self).status, result.message@, true) && *final(self)
                == (App { status: final(self).status, ..*old(self) }),
            result.success ==> status_is(final(self).status, result.message@, false)
                && final(self).setup_steps@ == with_step_status(old(self).setup_steps@, 1, StepStatus::Done)
                && *final(self) == (App {
                status: final(self).status,
                fonts: fonts_after,
                setup_steps: final(self).setup_steps,
                setup_current: if old(self).tab == Tab::Setup && old(self).setup_current == 1 {
                    2
                } else {
                    old(self).setup_current
                },
                ..*old(self)
            }),
    {
        if result.success {
            self.set_status(result.message.as_str());
            self.fonts = fonts_after;
            set_step_status(&mut self.setup_steps, 1, StepStatus::Done);
            if self.tab == Tab::Setup && self.setup_current == 1 {
                self.setup_current = 2;
            }
        } else {
            self.set_status_err(result.message.as_str());
        }
    }

    /// Applying a theme finished. `path` is the theme file that was found
    /// or downloaded (`None`: neither), `applied` how many configured shells
    /// took it, `shells_after` the shells detected afterwards. Records the
    /// path on the theme's entry when it had none, makes the theme active,
    /// marks the theme step done and moves the wizard on.
    pub fn finish_apply_theme(
        &mut self,
        name: &str,
        path: Option<String>,
        applied: usize,
        shells_after: Vec<ShellInfo>,
    )
        ensures
            old(self).wf() ==> final(self).wf(),
            path is None ==> status_is(
                final(self).status,
                "Could not find or download theme '"@ + name@
                    + "' — check your internet connection"@,
                true,
            ) && *final(self) == (App {
                status: final(self).status,
                setup_current: if old(self).tab == Tab::Setup && old(self).setup_current == 2
                    && old(self).active_theme_name is Some {
                    3
                } else {
                    old(self).setup_current
                },
                ..*old(self)
            }),
            path matches Some(p) ==> status_is(
                final(self).status,
                if applied > 0 {
                    "Theme '"@ + name@ + "' applied to "@ + decimal(applied as nat)
                        + " shell(s) — restart shells to see changes"@
                } else {
                    "Theme '"@ + name@ + "' selected — configure shells in Setup tab to activate"@
                },
                false,
            ) && final(self).theme_list@ == (match first_named(old(self).theme_list@, name@) {
                Some(i) if old(self).theme_list@[i].path is None => old(self).theme_list@.update(
                    i,
                    ThemeEntry { path: Some(p), ..old(self).theme_list@[i] },
                ),
                _ => old(self).theme_list@,
            }) && opt_string_view(final(self).active_theme_name) == Some(name@)
                && final(self).setup_steps@ == with_step_status(old(self).setup_steps@, 2, StepStatus::Done)
                && *final(self) == (App {
                status: final(self).status,
                theme_list: final(self).theme_list,
                active_theme_name: final(self).active_theme_name,
                setup_steps: final(self).setup_steps,
                shells: shells_after,
                setup_current: if old(self).tab == Tab::Setup && old(self).setup_current == 2 {
                    3
                } else {
                    old(self).setup_current
                },
                ..*old(self)
            }),
    {
        match path {
            Some(p) => {
                match self.theme_index(name) {
                    Some(i) => {
                        if self.theme_list[i].path.is_none() {
                            let mut list = {
                                let mut tmp: Vec<ThemeEntry> = Vec::new();
                                std::mem::swap(&mut tmp, &mut self.theme_list);
                                tmp
                            };
                            let mut e = list.remove(i);
                            e.path = Some(p);
                            list.insert(i, e);
                            self.theme_list = list;
                            assert(self.theme_list@ =~= old(self).theme_list@.update(
                                i as int,
                                ThemeEntry { path: Some(p), ..old(self).theme_list@[i as int] },
                            ));
                        }
                    },
                    None => {},
                }
                self.active_theme_name = Some(owned(name));
                let msg = if applied > 0 {
                    let mut m = concat3("Theme '", name, "' applied to ");
                    let n = usize_to_string(applied);
                    m.append(n.as_str());
                    m.append(" shell(s) — restart shells to see changes");
                    m
                } else {
                    concat3("Theme '", name, "' selected — configure shells in Setup tab to activate")
                };
                self.set_status(msg.as_str());
                set_step_status(&mut self.setup_steps, 2, StepStatus::Done);
                self.shells = shells_after;
            },
            None => {
                let msg = concat3(
                    "Could not find or download theme '",
                    name,
                    "' — check your internet connection",
                );
                self.set_status_err(msg.as_str());
            },
        }
        if self.tab == Tab::Setup && self.setup_current == 2 {
            if self.active_theme_name.is_some() {
                self.setup_current = 3;
            }
        }
    }

    /// Configuring or unconfiguring one shell finished: report the verdict,
    /// and on success take the shells detected afterwards.
    pub fn finish_shell_change(&mut self, result: &OpResult, shells_after: Vec<ShellInfo>)
        ensures
            old(self).wf() ==> final(self).wf(),
            !result.success ==> status_is(final(self).status, result.message@, true) && *final(self)
                == (App { status: final(self).status, ..*old(self) }),
            result.success ==> status_is(final(self).status, result.message@, false) && *final(self)
                == (App { status: final(self).status, shells: shells_after, ..*old(self) }),
    {
        if result.success {
            self.set_status(result.message.as_str());
            self.shells = shells_after;
        } else {
            self.set_status_err(result.message.as_str());
        }
    }

    /// The wizard configured `configured` shells: report it, mark the last
    /// step done when there was any, and take the shells detected afterwards.
    pub fn finish_configure_all(&mut self, configured: usize, shells_after: Vec<ShellInfo>)
        ensures
            old(self).wf() ==> final(self).wf(),
            status_is(
                final(self).status,
                if configured > 0 {
                    "✓ Setup complete! Configured "@ + decimal(configured as nat)
                        + " shell(s) — restart them to see your new prompt"@
                } else {
                    "No shells were toggled for configuration"@
                },
                false,
            ),
            final(self).setup_steps@ == (if configured > 0 {
                with_step_status(old(self).setup_steps@, 3, StepStatus::Done)
            } else {
                old(self).setup_steps@
            }),
            *final(self) == (App {
                status: final(self).status,
                setup_steps: final(self).setup_steps,
                shells: shells_after,
                ..*old(self)
            }),
    {
        if configured > 0 {
            let mut m = owned("✓ Setup complete! Configured ");
            let n = usize_to_string(configured);
            m.append(n.as_str());
            m.append(" shell(s) — restart them to see your new prompt");
            self.set_status(m.as_str());
            set_step_status(&mut self.setup_steps, 3, StepStatus::Done);
        } else {
            self.set_status("No shells were toggled for configuration");
        }
        self.shells = shells_after;
    }

    /// Removing Oh My Posh from `removed` shells finished: clear the active
    /// theme, set the theme and shell steps back to pending, take the shells
    /// detected afterwards and report it.
    pub fn finish_reset(&mut self, removed: usize, shells_after: Vec<ShellInfo>)
        ensures
            old(self).wf() ==> final(self).wf(),
            status_is(
                final(self).status,
                if removed > 0 {
                    "Reset complete — removed Oh My Posh from "@ + decimal(removed as nat)
                        + " shell(s). Restart your shells to see the default prompt."@
                } else {
                    "No configured shells found — already at default"@
                },
                false,
            ),
            final(self).setup_steps@ == with_step_status(
                with_step_status(old(self).setup_steps@, 2, StepStatus::Pending),
                3,
                StepStatus::Pending,
            ),
            *final(self) == (App {
                status: final(self).status,
                setup_steps: final(self).setup_steps,
                active_theme_name: None,
                shells: shells_after,
                ..*old(self)
            }),
    {
        self.active_theme_name = None;
        set_step_status(&mut self.setup_steps, 2, StepStatus::Pending);
        set_step_status(&mut self.setup_steps, 3, StepStatus::Pending);
        self.shells = shells_after;
        if removed > 0 {
            let mut m = owned("Reset complete — removed Oh My Posh from ");
            let n = usize_to_string(removed);
            m.append(n.as_str());
            m.append(" shell(s). Restart your shells to see the default prompt.");
            self.set_status(m.as_str());
        } else {
            self.set_status("No configured shells found — already at default");
        }
    }

    /// Updating Oh My Posh finished: report the verdict, and on success take
    /// the new detection.
    pub fn finish_update_omp(&mut self, result: &OpResult, omp_after: Option<OmpInfo>)
        ensures
            old(self).wf() ==> final(self).wf(),
            !result.success ==> status_is(final(self).status, result.message@, true) && *final(self)
                == (App { status: final(self).status, ..*old(self) }),
            result.success ==> status_is(final(self).status, result.message@, false) && *final(self)
                == (App { status: final(self).status, omp: omp_after, ..*old(self) }),
    {
        if result.success {
            self.set_status(result.message.as_str());
            self.omp = omp_after;
        } else {
            self.set_status_err(result.message.as_str());
        }
    }
}

/// Going to the next tab and back returns to the same tab, and so does
/// going back and then forward.
pub proof fn law_tab_round_trip(t: Tab)
    ensures
        prev_tab_spec(next_tab_spec(t)) == t,
        next_tab_spec(prev_tab_spec(t)) == t,
{
}

/// Three steps forward through the tabs come back to the start.
pub proof fn law_tab_cycle(t: Tab)
    ensures
        next_tab_spec(next_tab_spec(next_tab_spec(t))) == t,
{
}

/// After clamping, a non-empty list has its selection in range and among
/// the visible rows.
pub proof fn law_clamp_in_view(sel: usize, scroll: usize, len: usize, visible: usize)
    requires
        len > 0,
        visible > 0,
        clamped_scroll(sel, scroll, len) + visible <= usize::MAX,
    ensures
        ({
            let (s, sc) = clamp_spec(sel, scroll, len, visible);
            s < len && sc <= s < sc + visible
        }),
{
}

/// The scroll offset after the selection was clamped into range.
pub open spec fn clamped_scroll(sel: usize, scroll: usize, len: usize) -> usize {
    let s = if sel >= len {
        (len - 1) as usize
    } else {
        sel
    };
    if s < scroll {
        s
    } else {
        scroll
    }
}

/// Selection and scroll offset after clamping.
pub open spec fn clamp_spec(sel: usize, scroll: usize, len: usize, visible: usize) -> (usize, usize) {
    if len == 0 {
        (0, 0)
    } else {
        let s = if sel >= len {
            (len - 1) as usize
        } else {
            sel
        };
        let sc = clamped_scroll(sel, scroll, len);
        if s >= sc + visible {
            (s, (s - visible + 1) as usize)
        } else {
            (s, sc)
        }
    }
}

fn vec_usize_contains(v: &Vec<usize>, x: usize) -> (r: bool)
    ensures
        r == v@.contains(x),
{
    let mut i: usize = 0;
    while i < v.len()
        invariant
            i <= v.len(),
            forall|k: int| 0 <= k < i ==> v@[k] != x,
        decreases v.len() - i,
    {
        if v[i] == x {
            assert(v@[i as int] == x);
            return true;
        }
        i = i + 1;
    }
    false
}


/// With a non-empty search, the theme list shows, in ascending order,
/// exactly the themes of the chosen category whose name or description
/// holds the search text; so every theme shown is also listed under the
/// category alone.
pub proof fn law_search_within_category(list: Seq<ThemeEntry>, cat: ThemeCategory, q: Seq<char>)
    requires
        q.len() > 0,
        list.len() <= usize::MAX,
    ensures
        forall|k: usize|
            #[trigger] shown_themes(list, cat, q).contains(k) <==> (k < list.len() && (cat
                == ThemeCategory::All || list[k as int].categories@.contains(cat))
                && crate::themes::search_matches(theme_view(list[k as int]), q)),
        forall|k: usize|
            #[trigger] shown_themes(list, cat, q).contains(k) ==> filter_themes_spec(
                theme_views(list),
                cat,
            ).contains(k),
        crate::themes::ascending(shown_themes(list, cat, q)),
{
    let ts = theme_views(list);
    let pc = |i: int| crate::themes::in_theme_category(ts[i], cat);
    let ps = |i: int| crate::themes::search_matches(ts[i], q);
    crate::themes::lemma_indices_where_members(ts.len(), pc);
    crate::themes::lemma_indices_where_members(ts.len(), ps);
    let by_cat = filter_themes_spec(ts, cat);
    let by_search = search_themes_spec(ts, q);
    assert(by_cat == crate::themes::indices_where(ts.len(), pc));
    assert(by_search == crate::themes::indices_where(ts.len(), ps));
    let pred = |i: usize| by_search.contains(i);
    crate::themes::lemma_filter_ascending(by_cat, pred);
    assert(shown_themes(list, cat, q) == by_cat.filter(pred));
    assert forall|k: usize| #[trigger] shown_themes(list, cat, q).contains(k) <==> (k < list.len()
        && (cat == ThemeCategory::All || list[k as int].categories@.contains(cat))
        && crate::themes::search_matches(theme_view(list[k as int]), q)) by {
        if k < list.len() {
            assert(ts[k as int] == theme_view(list[k as int]));
        }
        assert(by_cat.contains(k) == (k < ts.len() && pc(k as int)));
        assert(by_search.contains(k) == (k < ts.len() && ps(k as int)));
    }
}

} // verus!
