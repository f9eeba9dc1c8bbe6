//! What the screens show, as text: the rows of the theme list, the shell
//! rows of the wizard, the system summary, the key hints and where the
//! confirmation dialog goes. Drawing them is left to the caller.

use vstd::prelude::*;

use crate::app::{
    dashboard_description_spec, dashboard_icon_spec, dashboard_items_spec, dashboard_key_hint_spec,
    dashboard_label_spec, App, DashboardItem, SetupFocus, Tab,
};
use crate::install::{step_icon_spec, step_label_spec};
use crate::themes::{theme_categories_spec, theme_category_label_spec, ThemeCategory};
use crate::events::{quick_themes, quick_themes_spec};
use crate::fonts::{font_catalog, font_catalog_spec};
use crate::install::StepStatus;
use crate::platform::Platform;
use crate::text::{decimal, usize_to_string};
use crate::events::{avail_indices, sat_sub};
use crate::preview::{join_sep, join_with_comma, prefix_bytes, utf8_len_exec};
use crate::shell::{opt_string_view, shell_label_spec, ShellInfo};
use crate::text::{chars_of, concat2, concat3, owned, str_eq, string_of};

verus! {

broadcast use vstd::string::group_string_axioms;

/// The UTF-8 length of a text.
pub open spec fn byte_len(s: Seq<char>) -> nat {
    prefix_bytes(s, s.len() as int)
}

proof fn lemma_prefix_bytes_mono(s: Seq<char>, k: int, n: int)
    requires
        0 <= k <= n <= s.len(),
    ensures
        prefix_bytes(s, k) <= prefix_bytes(s, n),
    decreases n - k,
{
    if k < n {
        lemma_prefix_bytes_mono(s, k, n - 1);
    }
}

/// The UTF-8 length of `s` when it is at most `cap`; something above `cap`
/// otherwise.
fn byte_len_capped(s: &Vec<char>, cap: usize) -> (r: usize)
    requires
        cap <= 0xffff_0000,
    ensures
        byte_len(s@) <= cap ==> r == byte_len(s@),
        byte_len(s@) > cap ==> r > cap,
        r <= cap + 4,
{
    let mut acc: usize = 0;
    let mut k: usize = 0;
    while k < s.len()
        invariant
            k <= s.len(),
            cap <= 0xffff_0000,
            acc == prefix_bytes(s@, k as int),
            acc <= cap,
        decreases s.len() - k,
    {
        acc = acc + utf8_len_exec(s[k]);
        k = k + 1;
        if acc > cap {
            proof {
                lemma_prefix_bytes_mono(s@, k as int, s@.len() as int);
            }
            return acc;
        }
    }
    acc
}

// ── Header ───────────────────────────────────────────────────────────────────

/// Blank columns between the title and the version label (`v<version>`),
/// which is right-aligned in a header `width` columns wide.
pub open spec fn header_padding_spec(width: u16, version: Seq<char>) -> int {
    sat_sub(width as int, (28 + byte_len("v"@ + version) + 2) as int)
}

pub fn header_padding(width: u16, version: &str) -> (n: usize)
    ensures
        n == header_padding_spec(width, version@),
{
    let label = concat2("v", version);
    let v = chars_of(label.as_str());
    let b = byte_len_capped(&v, 70000);
    let total = 30 + b;
    if (width as usize) >= total {
        width as usize - total
    } else {
        0
    }
}

// ── Theme list ───────────────────────────────────────────────────────────────

/// The theme list's title: ` Themes (<n>) ` with `n` the number of themes
/// the filter and search let through.
pub fn theme_list_title(app: &App) -> (r: String)
    ensures
        r@ == " Themes ("@ + decimal(app.theme_filtered.len() as nat) + ") "@,
{
    let n = usize_to_string(app.theme_filtered.len());
    concat3(" Themes (", n.as_str(), ") ")
}

/// One row of the theme list.
#[derive(Debug, Clone)]
pub struct ThemeRow {
    /// Index of the theme in the full list.
    pub index: usize,
    pub name: String,
    /// The theme has no file on disk yet.
    pub remote: bool,
    /// The theme is the one the shells use.
    pub active: bool,
    /// The row is the selected one.
    pub selected: bool,
    /// The description line, cut to the list's width.
    pub description: String,
}

/// The description line of a theme in a list `width` columns wide: a space
/// and the description, cut and ended by `…` when its UTF-8 length exceeds
/// the width less four.
pub open spec fn description_line(d: Seq<char>, width: u16) -> Seq<char> {
    let max = sat_sub(width as int, 4);
    if byte_len(d) > max {
        let k = sat_sub(max, 1);
        " "@ + (if k < d.len() {
            d.take(k)
        } else {
            d
        }) + "…"@
    } else {
        " "@ + d
    }
}

pub fn description_text(d: &str, width: u16) -> (r: String)
    ensures
        r@ == description_line(d@, width),
{
    let v = chars_of(d);
    let max: usize = if width >= 4 {
        (width - 4) as usize
    } else {
        0
    };
    let b = byte_len_capped(&v, max);
    if b > max {
        let k: usize = if max >= 1 {
            max - 1
        } else {
            0
        };
        let mut cut: Vec<char> = Vec::new();
        let mut i: usize = 0;
        while i < k && i < v.len()
            invariant
                i <= v.len(),
                i <= k,
                cut@ == v@.take(i as int),
            decreases v.len() - i,
        {
            cut.push(v[i]);
            i = i + 1;
            assert(cut@ =~= v@.take(i as int));
        }
        proof {
            if k >= v.len() {
                assert(v@.take(v.len() as int) =~= v@);
            }
        }
        let c = string_of(&cut);
        concat3(" ", c.as_str(), "…")
    } else {
        concat2(" ", d)
    }
}

/// How many themes the list shows in `list_height` rows (two rows each),
/// from the scroll offset on.
pub open spec fn shown_count(app: App, list_height: usize) -> int {
    let room = list_height as int / 2;
    let left = sat_sub(app.theme_filtered@.len() as int, app.theme_scroll as int);
    if room < left {
        room
    } else {
        left
    }
}

/// The row at position `k` of the shown list is this one.
pub open spec fn is_theme_row(app: App, k: int, row: ThemeRow, list_width: u16) -> bool {
    let idx = app.theme_filtered@[app.theme_scroll + k];
    let t = app.theme_list@[idx as int];
    &&& row.index == idx
    &&& row.name@ == t.name@
    &&& row.remote == (t.path is None)
    &&& row.active == (opt_string_view(app.active_theme_name) == Some(t.name@))
    &&& row.selected == (app.theme_scroll + k == app.theme_selected)
    &&& row.description@ == description_line(t.description@, list_width)
}

/// The rows of the theme list that fit in `list_height` rows of
/// `list_width` columns, from the scroll offset on.
pub fn theme_rows(app: &App, list_height: usize, list_width: u16) -> (r: Vec<ThemeRow>)
    requires
        app.wf(),
    ensures
        r.len() == shown_count(*app, list_height),
        forall|k: int| 0 <= k < r.len() ==> is_theme_row(*app, k, #[trigger] r@[k], list_width),
{
    let room = list_height / 2;
    let len = app.theme_filtered.len();
    let left: usize = if app.theme_scroll <= len {
        len - app.theme_scroll
    } else {
        0
    };
    let n = if room < left {
        room
    } else {
        left
    };
    let mut r: Vec<ThemeRow> = Vec::new();
    let mut k: usize = 0;
    while k < n
        invariant
            app.wf(),
            k <= n,
            n == shown_count(*app, list_height),
            n <= left,
            len == app.theme_filtered@.len(),
            left == sat_sub(app.theme_filtered@.len() as int, app.theme_scroll as int),
            r.len() == k,
            forall|j: int| 0 <= j < k ==> is_theme_row(*app, j, #[trigger] r@[j], list_width),
        decreases n - k,
    {
        let pos = app.theme_scroll + k;
        let idx = app.theme_filtered[pos];
        let t = &app.theme_list[idx];
        let active = match &app.active_theme_name {
            Some(a) => str_eq(a.as_str(), t.name.as_str()),
            None => false,
        };
        let row = ThemeRow {
            index: idx,
            name: owned(t.name.as_str()),
            remote: t.path.is_none(),
            active,
            selected: pos == app.theme_selected,
            description: description_text(t.description.as_str(), list_width),
        };
        r.push(row);
        k = k + 1;
    }
    r
}

// ── Shells ───────────────────────────────────────────────────────────────────

/// The labels of the available shells that are (or are not) configured.
pub open spec fn shell_labels_where(shells: Seq<ShellInfo>, configured: bool) -> Seq<Seq<char>>
    decreases shells.len(),
{
    if shells.len() == 0 {
        Seq::empty()
    } else {
        let r = shell_labels_where(shells.drop_last(), configured);
        let s = shells.last();
        if s.available && s.omp_configured == configured {
            r.push(shell_label_spec(s.shell))
        } else {
            r
        }
    }
}

/// The names of the available shells that are (`configured`) or are not
/// yet configured, joined by ", ".
pub fn shell_names(shells: &Vec<ShellInfo>, configured: bool) -> (r: String)
    ensures
        r@ == join_sep(shell_labels_where(shells@, configured), ", "@),
{
    let mut names: Vec<String> = Vec::new();
    let mut i: usize = 0;
    while i < shells.len()
        invariant
            i <= shells.len(),
            names@.map_values(|s: String| s@) == shell_labels_where(shells@.take(i as int), configured),
        decreases shells.len() - i,
    {
        proof {
            assert(shells@.take(i + 1).drop_last() =~= shells@.take(i as int));
        }
        let s = &shells[i];
        if s.available && s.omp_configured == configured {
            names.push(owned(s.shell.label()));
        }
        i = i + 1;
        assert(names@.map_values(|s: String| s@) =~= shell_labels_where(shells@.take(i as int), configured));
    }
    assert(shells@.take(i as int) =~= shells@);
    join_with_comma(&names)
}

/// How a shell row of the wizard is marked.
#[derive(Debug, Clone, Copy, PartialEq, Eq, Structural)]
pub enum ShellMark {
    /// The profile already loads Oh My Posh.
    Configured,
    /// The shell is chosen for configuring.
    Toggled,
    /// Neither.
    Off,
}

/// A row of the wizard's shell step.
#[derive(Debug, Clone)]
pub struct ShellRow {
    /// Index of the shell.
    pub index: usize,
    pub text: String,
    pub mark: ShellMark,
    pub selected: bool,
}

pub open spec fn shell_mark(app: App, i: int) -> ShellMark {
    if app.shells@[i].omp_configured {
        ShellMark::Configured
    } else if i < app.setup_shell_toggles@.len() && app.setup_shell_toggles@[i] {
        ShellMark::Toggled
    } else {
        ShellMark::Off
    }
}

/// The text of shell `i`'s row: pointer, check box, label, and a note when
/// it is configured already.
pub open spec fn shell_row_text(app: App, i: int) -> Seq<char> {
    let selected = i == app.setup_shell_selected && app.setup_focus == SetupFocus::Detail;
    let pointer = if selected {
        "▶"@
    } else {
        " "@
    };
    let check = match shell_mark(app, i) {
        ShellMark::Configured => "✓"@,
        ShellMark::Toggled => "☑"@,
        ShellMark::Off => "☐"@,
    };
    pointer + " "@ + check + "  "@ + shell_label_spec(app.shells@[i].shell) + (if app.shells@[i].omp_configured {
        " (already configured)"@
    } else {
        ""@
    })
}

pub open spec fn is_shell_row(app: App, i: int, row: ShellRow) -> bool {
    &&& row.index == i
    &&& row.text@ == shell_row_text(app, i)
    &&& row.mark == shell_mark(app, i)
    &&& row.selected == (i == app.setup_shell_selected && app.setup_focus == SetupFocus::Detail)
}

/// The rows of the wizard's shell step: one per available shell.
pub fn shell_rows(app: &App) -> (r: Vec<ShellRow>)
    ensures
        r.len() == avail_indices(app.shells@).len(),
        forall|k: int|
            0 <= k < r.len() ==> is_shell_row(
                *app,
                avail_indices(app.shells@)[k] as int,
                #[trigger] r@[k],
            ),
{
    let ghost p = |i: int| app.shells@[i].available;
    let mut r: Vec<ShellRow> = Vec::new();
    let mut i: usize = 0;
    proof {
        reveal_strlit("");
    }
    while i < app.shells.len()
        invariant
            i <= app.shells.len(),
            p == (|i: int| app.shells@[i].available),
            avail_indices(app.shells@) == crate::themes::indices_where(app.shells@.len(), p),
            r.len() == crate::themes::indices_where(i as nat, p).len(),
            forall|k: int|
                0 <= k < r.len() ==> is_shell_row(
                    *app,
                    crate::themes::indices_where(i as nat, p)[k] as int,
                    #[trigger] r@[k],
                ),
        decreases app.shells.len() - i,
    {
        let s = &app.shells[i];
        proof {
            reveal_strlit("");
        }
        if s.available {
            let selected = i == app.setup_shell_selected && app.setup_focus == SetupFocus::Detail;
            let toggled = i < app.setup_shell_toggles.len() && app.setup_shell_toggles[i];
            let mark = if s.omp_configured {
                ShellMark::Configured
            } else if toggled {
                ShellMark::Toggled
            } else {
                ShellMark::Off
            };
            let check = match mark {
                ShellMark::Configured => "✓",
                ShellMark::Toggled => "☑",
                ShellMark::Off => "☐",
            };
            let pointer = if selected {
                "▶"
            } else {
                " "
            };
            let mut text = concat3(pointer, " ", check);
            text.append("  ");
            text.append(s.shell.label());
            if s.omp_configured {
                text.append(" (already configured)");
            }
            let row = ShellRow { index: i, text, mark, selected };
            assert(is_shell_row(*app, i as int, row));
            let ghost before = r@;
            r.push(row);
            proof {
                assert forall|k: int| 0 <= k < r.len() implies is_shell_row(
                    *app,
                    crate::themes::indices_where((i + 1) as nat, p)[k] as int,
                    #[trigger] r@[k],
                ) by {
                    if k < before.len() {
                        assert(r@[k] == before[k]);
                    }
                }
            }
        }
        i = i + 1;
    }
    r
}


// ── Setup wizard: the detail panel ───────────────────────────────────────────

/// How a piece of text is shown.
#[derive(Debug, Clone, Copy, PartialEq, Eq, Structural)]
pub enum Tone {
    /// Body text.
    Text,
    /// Body text, bold.
    Strong,
    /// Muted text.
    Dim,
    /// Barely visible text.
    Dark,
    /// A heading.
    Heading,
    /// A hint or a pointer.
    Cyan,
    /// Something done or installed.
    Good,
    /// A warning or a star.
    Warn,
    /// A button.
    Button,
}

/// A piece of a line: its text, its tone, and whether it stands on the
/// highlight background.
#[derive(Debug, Clone)]
pub struct Piece {
    pub text: String,
    pub tone: Tone,
    pub highlight: bool,
}

pub open spec fn piece_view(p: Piece) -> (Seq<char>, Tone, bool) {
    (p.text@, p.tone, p.highlight)
}

pub open spec fn pieces_view(l: Vec<Piece>) -> Seq<(Seq<char>, Tone, bool)> {
    l@.map_values(|p: Piece| piece_view(p))
}

pub open spec fn text_lines_view(ls: Seq<Vec<Piece>>) -> Seq<Seq<(Seq<char>, Tone, bool)>> {
    ls.map_values(|l: Vec<Piece>| pieces_view(l))
}

/// How Oh My Posh gets installed on each platform, in words.
pub open spec fn install_method_spec(platform: Platform) -> Seq<char> {
    match platform {
        Platform::Windows => "  Method: winget (or PowerShell fallback)"@,
        Platform::MacOs => "  Method: Homebrew"@,
        Platform::Linux => "  Method: Official install script"@,
    }
}

/// The pointer column of a choice.
pub open spec fn pointer_piece(selected: bool) -> (Seq<char>, Tone, bool) {
    if selected {
        (" ▶ "@, Tone::Cyan, false)
    } else {
        ("   "@, Tone::Dark, false)
    }
}

/// The two lines of the font at position `i` of the wizard's font step.
pub open spec fn font_entry(sel: usize, i: int) -> Seq<Seq<(Seq<char>, Tone, bool)>> {
    let f = font_catalog_spec()[i];
    let selected = i == sel;
    seq![
        seq![
            pointer_piece(selected),
            (f.display@, if selected {
                Tone::Text
            } else {
                Tone::Dim
            }, selected),
            (if f.recommended {
                " ★ recommended"@
            } else {
                ""@
            }, Tone::Warn, false),
        ],
        seq![("     "@ + f.description@, Tone::Dark, false)],
    ]
}

/// The lines of the first `n` fonts of the catalog.
pub open spec fn font_lines(sel: usize, n: int) -> Seq<Seq<(Seq<char>, Tone, bool)>>
    decreases n,
{
    if n <= 0 {
        Seq::empty()
    } else {
        font_lines(sel, n - 1) + font_entry(sel, n - 1)
    }
}

/// The lines of the first `n` themes the theme step offers.
pub open spec fn quick_lines(sel: usize, n: int) -> Seq<Seq<(Seq<char>, Tone, bool)>>
    decreases n,
{
    if n <= 0 {
        Seq::empty()
    } else {
        let selected = n - 1 == sel;
        quick_lines(sel, n - 1).push(
            seq![
                pointer_piece(selected),
                (quick_themes_spec()[n - 1], if selected {
                    Tone::Text
                } else {
                    Tone::Dim
                }, selected),
            ],
        )
    }
}

/// The tone of a shell row of the wizard.
pub open spec fn mark_tone(m: ShellMark) -> Tone {
    match m {
        ShellMark::Configured => Tone::Good,
        ShellMark::Toggled => Tone::Cyan,
        ShellMark::Off => Tone::Dim,
    }
}

/// The lines of the wizard's shell step: one per available shell.
pub open spec fn shell_lines(app: App) -> Seq<Seq<(Seq<char>, Tone, bool)>> {
    Seq::new(
        avail_indices(app.shells@).len(),
        |k: int|
            {
                let i = avail_indices(app.shells@)[k] as int;
                seq![
                    (shell_row_text(app, i), mark_tone(shell_mark(app, i)), i
                        == app.setup_shell_selected && app.setup_focus == SetupFocus::Detail),
                ]
            },
    )
}

/// What the detail panel shows below the step's heading.
pub open spec fn step_body(app: App, platform: Platform, status: StepStatus) -> Seq<
    Seq<(Seq<char>, Tone, bool)>,
> {
    let cur = app.setup_current;
    if cur == 0 {
        if status == StepStatus::Done {
            match app.omp {
                Some(o) => seq![
                    seq![(" ✓ "@, Tone::Good, false), ("Installed - v"@ + o.version@, Tone::Text, false)],
                    Seq::empty(),
                    seq![("  Press ↓ to continue to next step"@, Tone::Dim, false)],
                ],
                None => Seq::empty(),
            }
        } else {
            seq![
                seq![
                    (" "@, Tone::Text, false),
                    (" Enter "@, Tone::Button, false),
                    (" Install Oh My Posh"@, Tone::Text, false),
                ],
                Seq::empty(),
                seq![(install_method_spec(platform), Tone::Dim, false)],
            ]
        }
    } else if cur == 1 {
        if status == StepStatus::Done {
            seq![seq![(" ✓ "@, Tone::Good, false), ("Nerd Font installed"@, Tone::Text, false)]]
        } else {
            seq![
                seq![("Select a font with ↑/↓ and press Enter to install:"@, Tone::Cyan, false)],
                Seq::empty(),
            ] + font_lines(app.setup_font_selected, 8)
        }
    } else if cur == 2 {
        seq![
            seq![("Quick picks - or go to the Themes tab for the full list:"@, Tone::Cyan, false)],
            Seq::empty(),
        ] + quick_lines(app.setup_theme_selected, 8)
    } else if cur == 3 {
        seq![
            seq![("Select with ↑/↓, Space to toggle, Enter to apply:"@, Tone::Cyan, false)],
            Seq::empty(),
        ] + shell_lines(app)
    } else {
        Seq::empty()
    }
}

/// The detail panel of the setup wizard: the current step's number, name
/// and description, then what it offers (nothing past the last step).
pub open spec fn setup_detail_spec(app: App, platform: Platform) -> Seq<
    Seq<(Seq<char>, Tone, bool)>,
> {
    if app.setup_current >= app.setup_steps@.len() {
        Seq::empty()
    } else {
        let step = app.setup_steps@[app.setup_current as int];
        seq![
            seq![
                ("Step "@ + decimal((app.setup_current + 1) as nat) + " of "@ + decimal(
                    app.setup_steps@.len(),
                ), Tone::Heading, false),
            ],
            Seq::empty(),
            seq![(step.label@, Tone::Strong, false)],
            seq![(step.description@, Tone::Dim, false)],
            Seq::empty(),
        ] + step_body(app, platform, step.status)
    }
}

fn pc(text: String, tone: Tone, highlight: bool) -> (p: Piece)
    ensures
        piece_view(p) == (text@, tone, highlight),
{
    Piece { text, tone, highlight }
}

fn pointer(selected: bool) -> (p: Piece)
    ensures
        piece_view(p) == pointer_piece(selected),
{
    if selected {
        pc(owned(" ▶ "), Tone::Cyan, false)
    } else {
        pc(owned("   "), Tone::Dark, false)
    }
}

fn font_block(sel: usize) -> (r: Vec<Vec<Piece>>)
    ensures
        text_lines_view(r@) == font_lines(sel, 8),
{
    let fonts = font_catalog();
    let mut r: Vec<Vec<Piece>> = Vec::new();
    let mut i: usize = 0;
    while i < 8
        invariant
            i <= 8,
            fonts@ == font_catalog_spec(),
            text_lines_view(r@) == font_lines(sel, i as int),
        decreases 8 - i,
    {
        let f = fonts[i];
        let selected = i == sel;
        let rec = if f.recommended {
            " ★ recommended"
        } else {
            ""
        };
        let tone = if selected {
            Tone::Text
        } else {
            Tone::Dim
        };
        let l1 = vec![pointer(selected), pc(owned(f.display), tone, selected), pc(owned(rec), Tone::Warn, false)];
        let l2 = vec![pc(concat2("     ", f.description), Tone::Dark, false)];
        let ghost before = text_lines_view(r@);
        r.push(l1);
        r.push(l2);
        proof {
            assert(text_lines_view(r@) =~~= before + font_entry(sel, i as int));
        }
        i = i + 1;
    }
    r
}

fn quick_block(sel: usize) -> (r: Vec<Vec<Piece>>)
    ensures
        text_lines_view(r@) == quick_lines(sel, 8),
{
    let names = quick_themes();
    assert(names@.map_values(|s: &'static str| s@).len() == names@.len());
    let mut r: Vec<Vec<Piece>> = Vec::new();
    let mut i: usize = 0;
    while i < 8
        invariant
            i <= 8,
            names.len() == 8,
            names@.map_values(|s: &'static str| s@) == quick_themes_spec(),
            text_lines_view(r@) == quick_lines(sel, i as int),
        decreases 8 - i,
    {
        let selected = i == sel;
        let tone = if selected {
            Tone::Text
        } else {
            Tone::Dim
        };
        let ghost before = text_lines_view(r@);
        assert(names@.map_values(|s: &'static str| s@)[i as int] == names@[i as int]@);
        r.push(vec![pointer(selected), pc(owned(names[i]), tone, selected)]);
        proof {
            assert(text_lines_view(r@) =~~= quick_lines(sel, i + 1));
        }
        i = i + 1;
    }
    r
}

fn shell_block(app: &App) -> (r: Vec<Vec<Piece>>)
    ensures
        text_lines_view(r@) == shell_lines(*app),
{
    let rows = shell_rows(app);
    let mut r: Vec<Vec<Piece>> = Vec::new();
    let mut k: usize = 0;
    while k < rows.len()
        invariant
            k <= rows.len(),
            rows.len() == avail_indices(app.shells@).len(),
            forall|j: int|
                0 <= j < rows.len() ==> is_shell_row(
                    *app,
                    avail_indices(app.shells@)[j] as int,
                    #[trigger] rows@[j],
                ),
            r.len() == k,
            text_lines_view(r@) == shell_lines(*app).take(k as int),
        decreases rows.len() - k,
    {
        let row = &rows[k];
        let tone = match row.mark {
            ShellMark::Configured => Tone::Good,
            ShellMark::Toggled => Tone::Cyan,
            ShellMark::Off => Tone::Dim,
        };
        let ghost before = text_lines_view(r@);
        r.push(vec![pc(owned(row.text.as_str()), tone, row.selected)]);
        proof {
            let i = avail_indices(app.shells@)[k as int] as int;
            assert(is_shell_row(*app, i, rows@[k as int]));
            assert(shell_lines(*app)[k as int] == seq![
                (shell_row_text(*app, i), mark_tone(shell_mark(*app, i)), i
                    == app.setup_shell_selected && app.setup_focus == SetupFocus::Detail),
            ]);
            assert(pieces_view(r@[k as int]) =~~= shell_lines(*app)[k as int]);
            assert(text_lines_view(r@) =~~= shell_lines(*app).take(k + 1));
        }
        k = k + 1;
    }
    assert(shell_lines(*app).take(k as int) =~= shell_lines(*app));
    r
}

fn add_lines(r: &mut Vec<Vec<Piece>>, more: Vec<Vec<Piece>>)
    ensures
        text_lines_view(final(r)@) == text_lines_view(old(r)@) + text_lines_view(more@),
{
    let mut more = more;
    let ghost m = more@;
    r.append(&mut more);
    assert(text_lines_view(r@) =~~= text_lines_view(old(r)@) + text_lines_view(m));
}

/// The lines of the setup wizard's detail panel, for `platform`.
pub fn setup_detail_lines(app: &App, platform: Platform) -> (r: Vec<Vec<Piece>>)
    ensures
        text_lines_view(r@) == setup_detail_spec(*app, platform),
{
    let mut r: Vec<Vec<Piece>> = Vec::new();
    if app.setup_current >= app.setup_steps.len() {
        assert(text_lines_view(r@) =~~= setup_detail_spec(*app, platform));
        return r;
    }
    let step = &app.setup_steps[app.setup_current];
    let n = usize_to_string(app.setup_current + 1);
    let total = usize_to_string(app.setup_steps.len());
    let mut heading = concat3("Step ", n.as_str(), " of ");
    heading.append(total.as_str());
    r.push(vec![pc(heading, Tone::Heading, false)]);
    r.push(Vec::new());
    r.push(vec![pc(owned(step.label.as_str()), Tone::Strong, false)]);
    r.push(vec![pc(owned(step.description.as_str()), Tone::Dim, false)]);
    r.push(Vec::new());
    let ghost head = text_lines_view(r@);
    let cur = app.setup_current;
    let mut body: Vec<Vec<Piece>> = Vec::new();
    if cur == 0 {
        if step.status == StepStatus::Done {
            match &app.omp {
                Some(o) => {
                    body.push(vec![pc(owned(" ✓ "), Tone::Good, false), pc(concat2("Installed - v", o.version.as_str()), Tone::Text, false)]);
                    body.push(Vec::new());
                    body.push(vec![pc(owned("  Press ↓ to continue to next step"), Tone::Dim, false)]);
                },
                None => {},
            }
        } else {
            let method = match platform {
                Platform::Windows => "  Method: winget (or PowerShell fallback)",
                Platform::MacOs => "  Method: Homebrew",
                Platform::Linux => "  Method: Official install script",
            };
            body.push(vec![pc(owned(" "), Tone::Text, false), pc(owned(" Enter "), Tone::Button, false), pc(owned(" Install Oh My Posh"), Tone::Text, false)]);
            body.push(Vec::new());
            body.push(vec![pc(owned(method), Tone::Dim, false)]);
        }
    } else if cur == 1 {
        if step.status == StepStatus::Done {
            body.push(vec![pc(owned(" ✓ "), Tone::Good, false), pc(owned("Nerd Font installed"), Tone::Text, false)]);
        } else {
            body.push(vec![pc(owned("Select a font with ↑/↓ and press Enter to install:"), Tone::Cyan, false)]);
            body.push(Vec::new());
            add_lines(&mut body, font_block(app.setup_font_selected));
        }
    } else if cur == 2 {
        body.push(vec![pc(owned("Quick picks - or go to the Themes tab for the full list:"), Tone::Cyan, false)]);
        body.push(Vec::new());
        add_lines(&mut body, quick_block(app.setup_theme_selected));
    } else if cur == 3 {
        body.push(vec![pc(owned("Select with ↑/↓, Space to toggle, Enter to apply:"), Tone::Cyan, false)]);
        body.push(Vec::new());
        add_lines(&mut body, shell_block(app));
    }
    proof {
        assert(text_lines_view(body@) =~~= step_body(*app, platform, step.status));
    }
    add_lines(&mut r, body);
    assert(text_lines_view(r@) =~~= setup_detail_spec(*app, platform));
    r
}


// ── Dashboard ────────────────────────────────────────────────────────────────

/// An action card of the dashboard.
#[derive(Debug, Clone, Copy)]
pub struct Card {
    pub item: DashboardItem,
    pub selected: bool,
    pub icon: &'static str,
    pub label: &'static str,
    pub key_hint: &'static str,
    pub description: &'static str,
}

pub open spec fn is_card(app: App, i: int, c: Card) -> bool {
    let item = dashboard_items_spec()[i];
    &&& c.item == item
    &&& c.selected == (i == app.dashboard_selected)
    &&& c.icon@ == dashboard_icon_spec(item)
    &&& c.label@ == dashboard_label_spec(item)
    &&& c.key_hint@ == dashboard_key_hint_spec(item)
    &&& c.description@ == dashboard_description_spec(item)
}

/// The dashboard's action cards, in order, the selected one marked.
pub fn dashboard_cards(app: &App) -> (r: Vec<Card>)
    ensures
        r.len() == 5,
        forall|i: int| 0 <= i < 5 ==> is_card(*app, i, #[trigger] r@[i]),
{
    let items = DashboardItem::all();
    let mut r: Vec<Card> = Vec::new();
    let mut i: usize = 0;
    while i < items.len()
        invariant
            i <= items.len(),
            items@ == dashboard_items_spec(),
            r.len() == i,
            forall|j: int| 0 <= j < i ==> is_card(*app, j, #[trigger] r@[j]),
        decreases items.len() - i,
    {
        let item = items[i];
        r.push(
            Card {
                item,
                selected: i == app.dashboard_selected,
                icon: item.icon(),
                label: item.label(),
                key_hint: item.key_hint(),
                description: item.description(),
            },
        );
        i = i + 1;
    }
    r
}

/// A line of the dashboard's system summary.
#[derive(Debug, Clone)]
pub struct InfoLine {
    pub label: &'static str,
    pub value: String,
    pub tone: Tone,
}

pub open spec fn info_view(l: InfoLine) -> (Seq<char>, Seq<char>, Tone) {
    (l.label@, l.value@, l.tone)
}

/// The system summary: Oh My Posh, the Nerd Font, the active theme (when
/// there is one), the system, and the configured and the other available
/// shells (when there are any).
pub open spec fn system_info_spec(app: App) -> Seq<(Seq<char>, Seq<char>, Tone)> {
    let omp_line = match app.omp {
        Some(o) => ("  Oh My Posh: "@, "v"@ + o.version@, Tone::Good),
        None => ("  Oh My Posh: "@, "Not installed - use Quick Setup"@, Tone::Warn),
    };
    let font_line = if app.fonts.has_nerd_font {
        ("  Nerd Font: "@, if app.fonts.installed_fonts@.len() > 0 {
            app.fonts.installed_fonts@[0]@
        } else {
            "detected"@
        }, Tone::Good)
    } else {
        ("  Nerd Font: "@, "Not detected - install one in Setup"@, Tone::Warn)
    };
    let theme_line: Seq<(Seq<char>, Seq<char>, Tone)> = match app.active_theme_name {
        Some(t) => seq![("  Theme: "@, t@, Tone::Cyan)],
        None => Seq::empty(),
    };
    let configured = shell_labels_where(app.shells@, true);
    let others = shell_labels_where(app.shells@, false);
    seq![omp_line, font_line] + theme_line + seq![
        ("  System: "@, app.os_info.name@ + " "@ + app.os_info.version@, Tone::Text),
    ] + (if configured.len() > 0 {
        seq![("  Configured: "@, join_sep(configured, ", "@), Tone::Good)]
    } else {
        Seq::empty()
    }) + (if others.len() > 0 {
        seq![("  Available: "@, join_sep(others, ", "@), Tone::Dim)]
    } else {
        Seq::empty()
    })
}

proof fn lemma_join_empty(ls: Seq<Seq<char>>, sep: Seq<char>)
    requires
        ls.len() > 0,
        forall|i: int| 0 <= i < ls.len() ==> #[trigger] ls[i].len() > 0,
    ensures
        join_sep(ls, sep).len() > 0,
    decreases ls.len(),
{
    if ls.len() > 1 {
        lemma_join_empty(ls.drop_last(), sep);
    }
}

proof fn lemma_labels_nonempty(shells: Seq<ShellInfo>, configured: bool)
    ensures
        forall|i: int|
            0 <= i < shell_labels_where(shells, configured).len() ==> #[trigger] shell_labels_where(
                shells,
                configured,
            )[i].len() > 0,
    decreases shells.len(),
{
    if shells.len() > 0 {
        lemma_labels_nonempty(shells.drop_last(), configured);
        crate::shell::lemma_shell_labels_nonempty();
        let r = shell_labels_where(shells.drop_last(), configured);
        assert forall|i: int|
            0 <= i < shell_labels_where(shells, configured).len() implies #[trigger] shell_labels_where(
                shells,
                configured,
            )[i].len() > 0 by {
            if i < r.len() {
                assert(shell_labels_where(shells, configured)[i] == r[i]);
            }
        }
    }
}

/// The dashboard's system summary.
pub fn system_info(app: &App) -> (r: Vec<InfoLine>)
    ensures
        r@.map_values(|l: InfoLine| info_view(l)) == system_info_spec(*app),
{
    let mut r: Vec<InfoLine> = Vec::new();
    match &app.omp {
        Some(o) => r.push(InfoLine { label: "  Oh My Posh: ", value: concat2("v", o.version.as_str()), tone: Tone::Good }),
        None => r.push(InfoLine { label: "  Oh My Posh: ", value: owned("Not installed - use Quick Setup"), tone: Tone::Warn }),
    }
    if app.fonts.has_nerd_font {
        let v = if app.fonts.installed_fonts.len() > 0 {
            owned(app.fonts.installed_fonts[0].as_str())
        } else {
            owned("detected")
        };
        r.push(InfoLine { label: "  Nerd Font: ", value: v, tone: Tone::Good });
    } else {
        r.push(InfoLine { label: "  Nerd Font: ", value: owned("Not detected - install one in Setup"), tone: Tone::Warn });
    }
    match &app.active_theme_name {
        Some(t) => r.push(InfoLine { label: "  Theme: ", value: owned(t.as_str()), tone: Tone::Cyan }),
        None => {},
    }
    r.push(InfoLine { label: "  System: ", value: concat3(app.os_info.name.as_str(), " ", app.os_info.version.as_str()), tone: Tone::Text });
    let configured = shell_names(&app.shells, true);
    let others = shell_names(&app.shells, false);
    proof {
        lemma_labels_nonempty(app.shells@, true);
        lemma_labels_nonempty(app.shells@, false);
        if shell_labels_where(app.shells@, true).len() > 0 {
            lemma_join_empty(shell_labels_where(app.shells@, true), ", "@);
        }
        if shell_labels_where(app.shells@, false).len() > 0 {
            lemma_join_empty(shell_labels_where(app.shells@, false), ", "@);
        }
    }
    if configured.as_str().unicode_len() > 0 {
        r.push(InfoLine { label: "  Configured: ", value: configured, tone: Tone::Good });
    }
    if others.as_str().unicode_len() > 0 {
        r.push(InfoLine { label: "  Available: ", value: others, tone: Tone::Dim });
    }
    assert(r@.map_values(|l: InfoLine| info_view(l)) =~= system_info_spec(*app));
    r
}

// ── Setup wizard: the step list ──────────────────────────────────────────────

/// A row of the wizard's step list.
#[derive(Debug, Clone)]
pub struct StepRow {
    pub current: bool,
    pub icon: &'static str,
    pub label: String,
    pub status: StepStatus,
    pub status_label: &'static str,
}

pub open spec fn is_step_row(app: App, i: int, r: StepRow) -> bool {
    let step = app.setup_steps@[i];
    &&& r.current == (i == app.setup_current)
    &&& r.icon@ == step_icon_spec(step.status)
    &&& r.label@ == step.label@
    &&& r.status == step.status
    &&& r.status_label@ == step_label_spec(step.status)
}

/// The rows of the wizard's step list, the current step marked.
pub fn step_rows(app: &App) -> (r: Vec<StepRow>)
    ensures
        r.len() == app.setup_steps.len(),
        forall|i: int| 0 <= i < r.len() ==> is_step_row(*app, i, #[trigger] r@[i]),
{
    let mut r: Vec<StepRow> = Vec::new();
    let mut i: usize = 0;
    while i < app.setup_steps.len()
        invariant
            i <= app.setup_steps.len(),
            r.len() == i,
            forall|j: int| 0 <= j < i ==> is_step_row(*app, j, #[trigger] r@[j]),
        decreases app.setup_steps.len() - i,
    {
        let step = &app.setup_steps[i];
        r.push(
            StepRow {
                current: i == app.setup_current,
                icon: step.status.icon(),
                label: owned(step.label.as_str()),
                status: step.status,
                status_label: step.status.label(),
            },
        );
        i = i + 1;
    }
    r
}

// ── Theme browser ────────────────────────────────────────────────────────────

/// The category list of the theme browser: each category's label, and
/// whether it is the chosen one.
pub fn category_rows(app: &App) -> (r: Vec<(&'static str, bool)>)
    ensures
        r.len() == 7,
        forall|i: int|
            0 <= i < 7 ==> (#[trigger] r@[i]).0@ == theme_category_label_spec(
                theme_categories_spec()[i],
            ) && r@[i].1 == (i == app.theme_category_index),
{
    let cats = ThemeCategory::all();
    let mut r: Vec<(&'static str, bool)> = Vec::new();
    let mut i: usize = 0;
    while i < cats.len()
        invariant
            i <= cats.len(),
            cats@ == theme_categories_spec(),
            r.len() == i,
            forall|j: int|
                0 <= j < i ==> (#[trigger] r@[j]).0@ == theme_category_label_spec(
                    theme_categories_spec()[j],
                ) && r@[j].1 == (j == app.theme_category_index),
        decreases cats.len() - i,
    {
        r.push((cats[i].label(), i == app.theme_category_index));
        i = i + 1;
    }
    r
}

/// Whether the selected theme is the active one (`None` when no theme is
/// selected).
pub fn selected_is_active(app: &App) -> (r: Option<bool>)
    ensures
        match app.selected_index() {
            Some(i) => r == Some(
                opt_string_view(app.active_theme_name) == Some(app.theme_list@[i].name@),
            ),
            None => r is None,
        },
{
    match app.selected_theme() {
        Some(t) => Some(
            match &app.active_theme_name {
                Some(a) => str_eq(a.as_str(), t.name.as_str()),
                None => false,
            },
        ),
        None => None,
    }
}

// ── Key hints ────────────────────────────────────────────────────────────────

/// The key hints of the footer for each tab: (key, what it does).
pub open spec fn footer_keys_spec(tab: Tab) -> Seq<(Seq<char>, Seq<char>)> {
    match tab {
        Tab::Dashboard => seq![
            ("↑↓"@, "Navigate"@),
            ("Enter"@, "Select"@),
            ("Tab"@, "Next Tab"@),
            ("q"@, "Quit"@),
        ],
        Tab::Setup => seq![
            ("←→"@, "Panel"@),
            ("↑↓"@, "Navigate"@),
            ("Enter"@, "Execute"@),
            ("Space"@, "Toggle"@),
            ("Tab"@, "Next Tab"@),
            ("q"@, "Quit"@),
        ],
        Tab::Themes => seq![
            ("↑↓"@, "Navigate"@),
            ("←→"@, "Panel"@),
            ("/"@, "Search"@),
            ("Enter"@, "Apply"@),
            ("Tab"@, "Next Tab"@),
            ("q"@, "Quit"@),
        ],
    }
}

pub fn footer_keys(tab: Tab) -> (r: Vec<(&'static str, &'static str)>)
    ensures
        r@.map_values(|p: (&'static str, &'static str)| (p.0@, p.1@)) == footer_keys_spec(tab),
{
    let r = match tab {
        Tab::Dashboard => vec![("↑↓", "Navigate"), ("Enter", "Select"), ("Tab", "Next Tab"), ("q", "Quit")],
        Tab::Setup => vec![
            ("←→", "Panel"),
            ("↑↓", "Navigate"),
            ("Enter", "Execute"),
            ("Space", "Toggle"),
            ("Tab", "Next Tab"),
            ("q", "Quit"),
        ],
        Tab::Themes => vec![
            ("↑↓", "Navigate"),
            ("←→", "Panel"),
            ("/", "Search"),
            ("Enter", "Apply"),
            ("Tab", "Next Tab"),
            ("q", "Quit"),
        ],
    };
    assert(r@.map_values(|p: (&'static str, &'static str)| (p.0@, p.1@)) =~= footer_keys_spec(tab));
    r
}

// ── Confirmation dialog ──────────────────────────────────────────────────────

/// Where the confirmation dialog goes on a `width` × `height` screen:
/// at most 54 × 9, four columns and rows smaller than the screen, centred.
pub open spec fn confirm_rect_spec(width: u16, height: u16) -> (int, int, int, int) {
    let w = if 54 < sat_sub(width as int, 4) {
        54
    } else {
        sat_sub(width as int, 4)
    };
    let h = if 9 < sat_sub(height as int, 4) {
        9
    } else {
        sat_sub(height as int, 4)
    };
    (sat_sub(width as int, w) / 2, sat_sub(height as int, h) / 2, w, h)
}

pub fn confirm_rect(width: u16, height: u16) -> (r: (u16, u16, u16, u16))
    ensures
        (r.0 as int, r.1 as int, r.2 as int, r.3 as int) == confirm_rect_spec(width, height),
{
    let aw: u16 = if width >= 4 {
        width - 4
    } else {
        0
    };
    let ah: u16 = if height >= 4 {
        height - 4
    } else {
        0
    };
    let w: u16 = if 54 < aw {
        54
    } else {
        aw
    };
    let h: u16 = if 9 < ah {
        9
    } else {
        ah
    };
    ((width - w) / 2, (height - h) / 2, w, h)
}

} // verus!
