//! Input handling: what a key press or a mouse event does to the state, and
//! which outside work (loading a theme, running a confirmed action, updating
//! Oh My Posh) it asks the caller to carry out.

use vstd::prelude::*;

use crate::app::{
    dashboard_items_spec, dashboard_key_hint_spec, is_dialog, next_tab_spec, prev_tab_spec,
    shown_themes, status_is,
    tab_label_spec, tabs_spec, App, ConfirmAction, ConfirmDialog, Focus, SetupFocus, Tab,
};
use crate::fonts::{font_catalog, font_catalog_spec};
use crate::shell::{opt_string_view, ShellInfo};
use crate::text::{chars_of, concat3, owned, push_char, string_of};
use crate::themes::{indices_where, theme_categories_spec, ThemeCategory};

verus! {

broadcast use vstd::string::group_string_axioms;


// ── Input ────────────────────────────────────────────────────────────────────

/// A key press, as far as the manager tells keys apart.
#[derive(Debug, Clone, Copy, PartialEq, Eq, Structural)]
pub enum Key {
    Char(char),
    Up,
    Down,
    Left,
    Right,
    Enter,
    Esc,
    Tab,
    BackTab,
    Backspace,
    Other,
}

/// A mouse event, as far as the manager tells them apart.
#[derive(Debug, Clone, Copy, PartialEq, Eq, Structural)]
pub enum MouseKind {
    LeftDown,
    RightDown,
    ScrollUp,
    ScrollDown,
    Other,
}

/// Outside work an event asks for.
#[derive(Debug, Clone)]
pub enum Effect {
    /// Nothing to do.
    Nothing,
    /// Load the selected theme's configuration (from its file, or by a
    /// background download).
    LoadTheme,
    /// Carry out the action of this confirmed dialog.
    Run(ConfirmDialog),
    /// Update Oh My Posh.
    UpdateOmp,
}

// ── What the events do ───────────────────────────────────────────────────────

/// `a - b`, or 0 when that is negative.
pub open spec fn sat_sub(a: int, b: int) -> int {
    if a >= b {
        a - b
    } else {
        0
    }
}

/// The dialog slot holds exactly this dialog.
pub open spec fn dialog_is(
    c: Option<ConfirmDialog>,
    title: Seq<char>,
    message: Seq<char>,
    action: ConfirmAction,
    confirm_selected: bool,
    context: Seq<char>,
) -> bool {
    c matches Some(d) && is_dialog(d, title, message, action, confirm_selected, context)
}

/// `new` is `old` with exactly this dialog opened.
pub open spec fn opens_dialog(
    old: App,
    new: App,
    title: Seq<char>,
    message: Seq<char>,
    action: ConfirmAction,
    confirm_selected: bool,
    context: Seq<char>,
) -> bool {
    &&& dialog_is(new.confirm, title, message, action, confirm_selected, context)
    &&& new == (App { confirm: new.confirm, ..old })
}

pub open spec fn reset_message() -> Seq<char> {
    "Remove Oh My Posh from ALL shell profiles and clear active theme?\n\nYour shells will return to their default prompt."@
}

/// `new` is `old` with the reset confirmation opened.
pub open spec fn opens_reset(old: App, new: App) -> bool {
    opens_dialog(old, new, "Reset to Default"@, reset_message(), ConfirmAction::ResetToDefault, false, ""@)
}

/// `new` is `old` with the confirmation for applying the theme `name` opened.
pub open spec fn opens_apply(old: App, new: App, name: Seq<char>) -> bool {
    opens_dialog(
        old,
        new,
        "Apply Theme"@,
        "Set '"@ + name + "' as your active prompt theme?"@,
        ConfirmAction::ApplyTheme,
        true,
        name,
    )
}

/// The themes offered by the wizard's theme step.
pub open spec fn quick_themes_spec() -> Seq<Seq<char>> {
    seq![
        "paradox"@,
        "catppuccin_mocha"@,
        "dracula"@,
        "powerlevel10k_rainbow"@,
        "agnoster"@,
        "pure"@,
        "spaceship"@,
        "tokyonight_storm"@,
    ]
}

/// Indices of the shells whose binary was found.
pub open spec fn avail_indices(shells: Seq<ShellInfo>) -> Seq<usize> {
    indices_where(shells.len(), |i: int| shells[i].available)
}

/// `p` is the first position of `x` in `s`.
pub open spec fn is_first_pos(s: Seq<usize>, x: usize, p: int) -> bool {
    &&& 0 <= p < s.len()
    &&& s[p] == x
    &&& forall|k: int| 0 <= k < p ==> #[trigger] s[k] != x
}

/// The first position of `x` in `s`.
pub open spec fn pos_in(s: Seq<usize>, x: usize) -> Option<int> {
    if exists|p: int| is_first_pos(s, x, p) {
        Some(choose|p: int| is_first_pos(s, x, p))
    } else {
        None
    }
}

/// The available shell before the selected one (unchanged at the first, or
/// when the selection is not an available shell).
pub open spec fn avail_prev(shells: Seq<ShellInfo>, sel: usize) -> usize {
    let a = avail_indices(shells);
    match pos_in(a, sel) {
        Some(p) => if p > 0 {
            a[p - 1]
        } else {
            sel
        },
        None => sel,
    }
}

/// The available shell after the selected one (unchanged at the last). When
/// the selection is not an available shell, `to_first` picks the first one.
pub open spec fn avail_next(shells: Seq<ShellInfo>, sel: usize, to_first: bool) -> usize {
    let a = avail_indices(shells);
    match pos_in(a, sel) {
        Some(p) => if p < a.len() - 1 {
            a[p + 1]
        } else {
            sel
        },
        None => if to_first && a.len() > 0 {
            a[0]
        } else {
            sel
        },
    }
}

/// `new` is `old` with the theme category `k` chosen and the list refiltered.
pub open spec fn selects_category(old: App, new: App, k: int) -> bool {
    &&& 0 <= k < 7
    &&& new.theme_filtered@ == shown_themes(
        old.theme_list@,
        theme_categories_spec()[k],
        old.theme_search@,
    )
    &&& new == (App {
        theme_category_index: k as usize,
        theme_category: theme_categories_spec()[k],
        theme_filtered: new.theme_filtered,
        theme_selected: 0,
        theme_scroll: 0,
        ..old
    })
}

/// `new` is `old` with theme `sel` selected and scrolled into view; a change
/// of selection asks for its configuration.
pub open spec fn selects_theme(old: App, new: App, sel: usize, eff: Effect) -> bool {
    &&& new == (App {
        theme_selected: sel,
        theme_scroll: scroll_for(sel, old.theme_scroll, old.theme_visible_height, 2),
        ..old
    })
    &&& (if sel != old.theme_selected {
        eff is LoadTheme
    } else {
        eff is Nothing
    })
}

/// `new` is `old`, and nothing is asked for.
pub open spec fn unchanged(old: App, new: App, eff: Effect) -> bool {
    new == old && eff is Nothing
}

/// `new` is `old` with the given tab shown; the theme tab asks for the
/// selected theme's configuration.
pub open spec fn shows_tab(old: App, new: App, t: Tab, eff: Effect) -> bool {
    &&& new == (App { tab: t, ..old })
    &&& (if t == Tab::Themes {
        eff is LoadTheme
    } else {
        eff is Nothing
    })
}

/// A key while a confirmation dialog is open.
pub open spec fn confirm_key(old: App, new: App, key: Key, eff: Effect) -> bool {
    match old.confirm {
        None => unchanged(old, new, eff),
        Some(d) => match key {
            Key::Left | Key::Right | Key::Tab => new == (App {
                confirm: Some(ConfirmDialog { confirm_selected: !d.confirm_selected, ..d }),
                ..old
            }) && eff is Nothing,
            Key::Enter => new == (App { confirm: None, ..old }) && (if d.confirm_selected {
                eff == Effect::Run(d)
            } else {
                eff is Nothing
            }),
            Key::Esc => new == (App { confirm: None, ..old }) && eff is Nothing,
            Key::Char(c) => if c == 'y' || c == 'Y' {
                new == (App { confirm: None, ..old }) && eff == Effect::Run(d)
            } else if c == 'n' || c == 'N' {
                new == (App { confirm: None, ..old }) && eff is Nothing
            } else {
                unchanged(old, new, eff)
            },
            _ => unchanged(old, new, eff),
        },
    }
}

/// A key while the theme search is being edited.
pub open spec fn search_key(old: App, new: App, key: Key, eff: Effect) -> bool {
    &&& eff is Nothing
    &&& match key {
        Key::Esc | Key::Enter => new == (App { theme_search_editing: false, ..old }),
        Key::Backspace => {
            &&& new.theme_search@ == (if old.theme_search@.len() > 0 {
                old.theme_search@.drop_last()
            } else {
                old.theme_search@
            })
            &&& new.theme_filtered@ == shown_themes(
                old.theme_list@,
                old.theme_category,
                new.theme_search@,
            )
            &&& new == (App {
                theme_search: new.theme_search,
                theme_filtered: new.theme_filtered,
                theme_selected: 0,
                theme_scroll: 0,
                ..old
            })
        },
        Key::Char(c) => {
            &&& new.theme_search@ == old.theme_search@.push(c)
            &&& new.theme_filtered@ == shown_themes(
                old.theme_list@,
                old.theme_category,
                new.theme_search@,
            )
            &&& new == (App {
                theme_search: new.theme_search,
                theme_filtered: new.theme_filtered,
                theme_selected: 0,
                theme_scroll: 0,
                ..old
            })
        },
        _ => new == old,
    }
}

/// Enter on the dashboard, with `old.dashboard_selected` the item.
pub open spec fn dashboard_enter(old: App, new: App, eff: Effect) -> bool {
    let sel = old.dashboard_selected;
    if sel == 0 {
        shows_tab(old, new, Tab::Setup, eff)
    } else if sel == 1 {
        shows_tab(old, new, Tab::Themes, eff)
    } else if sel == 2 {
        new == (App { tab: Tab::Setup, setup_current: 1, ..old }) && eff is Nothing
    } else if sel == 3 {
        if old.omp is Some {
            new == old && eff is UpdateOmp
        } else {
            &&& status_is(new.status, "Install Oh My Posh first (use Quick Setup)"@, true)
            &&& new == (App { status: new.status, ..old })
            &&& eff is Nothing
        }
    } else if sel == 4 {
        opens_reset(old, new) && eff is Nothing
    } else {
        unchanged(old, new, eff)
    }
}

/// A key on the dashboard.
pub open spec fn dashboard_key(old: App, new: App, key: Key, eff: Effect) -> bool {
    match key {
        Key::Up => new == (App {
            dashboard_selected: if old.dashboard_selected > 0 {
                (old.dashboard_selected - 1) as usize
            } else {
                old.dashboard_selected
            },
            ..old
        }) && eff is Nothing,
        Key::Down => new == (App {
            dashboard_selected: if old.dashboard_selected < 4 {
                (old.dashboard_selected + 1) as usize
            } else {
                old.dashboard_selected
            },
            ..old
        }) && eff is Nothing,
        Key::Enter => dashboard_enter(old, new, eff),
        Key::Char(c) => if c == 's' || c == 'S' {
            shows_tab(old, new, Tab::Setup, eff)
        } else if c == 't' || c == 'T' {
            shows_tab(old, new, Tab::Themes, eff)
        } else if c == 'f' || c == 'F' {
            new == (App { tab: Tab::Setup, setup_current: 1, ..old }) && eff is Nothing
        } else if c == 'u' || c == 'U' {
            new == old && (if old.omp is Some {
                eff is UpdateOmp
            } else {
                eff is Nothing
            })
        } else if c == 'r' || c == 'R' {
            opens_reset(old, new) && eff is Nothing
        } else {
            unchanged(old, new, eff)
        },
        _ => unchanged(old, new, eff),
    }
}

/// Enter in the setup wizard: open the current step's confirmation.
pub open spec fn setup_enter(old: App, new: App, eff: Effect) -> bool {
    &&& eff is Nothing
    &&& if old.setup_current == 0 {
        if old.omp is None {
            opens_dialog(
                old,
                new,
                "Install Oh My Posh"@,
                "This will download and install Oh My Posh on your system."@,
                ConfirmAction::InstallOmp,
                true,
                ""@,
            )
        } else {
            &&& status_is(new.status, "Oh My Posh is already installed!"@, false)
            &&& new == (App {
                status: new.status,
                setup_current: if 0 < old.setup_steps@.len() - 1 {
                    1
                } else {
                    0
                },
                ..old
            })
        }
    } else if old.setup_current == 1 {
        if old.setup_font_selected < font_catalog_spec().len() {
            let f = font_catalog_spec()[old.setup_font_selected as int];
            opens_dialog(
                old,
                new,
                "Install Nerd Font"@,
                "Install "@ + f.display@ + " on your system?"@,
                ConfirmAction::InstallFont,
                true,
                f.name@,
            )
        } else {
            new == old
        }
    } else if old.setup_current == 2 {
        if old.setup_theme_selected < 8 {
            let n = quick_themes_spec()[old.setup_theme_selected as int];
            opens_dialog(
                old,
                new,
                "Apply Theme"@,
                "Set '"@ + n + "' as your active prompt theme?"@,
                ConfirmAction::ApplyTheme,
                true,
                n,
            )
        } else {
            new == old
        }
    } else if old.setup_current == 3 {
        opens_dialog(
            old,
            new,
            "Configure Shells"@,
            "Add Oh My Posh to the selected shells' profiles?"@,
            ConfirmAction::ConfigureAllShells,
            true,
            ""@,
        )
    } else {
        new == old
    }
}

/// The shell toggles after flipping shell `idx`, when it may be toggled.
pub open spec fn toggled(old: App, idx: usize) -> Seq<bool> {
    if idx < old.shells@.len() && old.shells@[idx as int].available
        && !old.shells@[idx as int].omp_configured && idx < old.setup_shell_toggles@.len() {
        old.setup_shell_toggles@.update(idx as int, !old.setup_shell_toggles@[idx as int])
    } else {
        old.setup_shell_toggles@
    }
}

/// Moving up within the wizard's current step.
pub open spec fn setup_up(old: App, new: App) -> bool {
    match old.setup_focus {
        SetupFocus::Steps => new == (App {
            setup_current: if old.setup_current > 0 {
                (old.setup_current - 1) as usize
            } else {
                old.setup_current
            },
            ..old
        }),
        SetupFocus::Detail => setup_detail_up(old, new),
    }
}

/// Moving up among the current step's choices.
pub open spec fn setup_detail_up(old: App, new: App) -> bool {
    if old.setup_current == 1 {
        new == (App {
            setup_font_selected: if old.setup_font_selected > 0 {
                (old.setup_font_selected - 1) as usize
            } else {
                old.setup_font_selected
            },
            ..old
        })
    } else if old.setup_current == 2 {
        new == (App {
            setup_theme_selected: if old.setup_theme_selected > 0 {
                (old.setup_theme_selected - 1) as usize
            } else {
                old.setup_theme_selected
            },
            ..old
        })
    } else if old.setup_current == 3 {
        new == (App {
            setup_shell_selected: avail_prev(old.shells@, old.setup_shell_selected),
            ..old
        })
    } else {
        new == old
    }
}

/// Moving down among the current step's choices (`to_first`: see
/// [`avail_next`]).
pub open spec fn setup_detail_down(old: App, new: App, to_first: bool) -> bool {
    if old.setup_current == 1 {
        new == (App {
            setup_font_selected: if old.setup_font_selected < 7 {
                (old.setup_font_selected + 1) as usize
            } else {
                old.setup_font_selected
            },
            ..old
        })
    } else if old.setup_current == 2 {
        new == (App {
            setup_theme_selected: if old.setup_theme_selected < 7 {
                (old.setup_theme_selected + 1) as usize
            } else {
                old.setup_theme_selected
            },
            ..old
        })
    } else if old.setup_current == 3 {
        new == (App {
            setup_shell_selected: avail_next(old.shells@, old.setup_shell_selected, to_first),
            ..old
        })
    } else {
        new == old
    }
}

/// Moving to the next wizard step (none after the last).
pub open spec fn next_step(old: App) -> usize {
    if old.setup_current < sat_sub(old.setup_steps@.len() as int, 1) {
        (old.setup_current + 1) as usize
    } else {
        old.setup_current
    }
}

/// A key in the setup wizard.
pub open spec fn setup_key(old: App, new: App, key: Key, eff: Effect) -> bool {
    match key {
        Key::Left => new == (App { setup_focus: SetupFocus::Steps, ..old }) && eff is Nothing,
        Key::Right => new == (App { setup_focus: SetupFocus::Detail, ..old }) && eff is Nothing,
        Key::Up => setup_up(old, new) && eff is Nothing,
        Key::Down => (match old.setup_focus {
            SetupFocus::Steps => new == (App { setup_current: next_step(old), ..old }),
            SetupFocus::Detail => setup_detail_down(old, new, true),
        }) && eff is Nothing,
        Key::Enter => setup_enter(old, new, eff),
        Key::Char(c) => if c == 'k' {
            setup_up(old, new) && eff is Nothing
        } else if c == 'j' {
            (match old.setup_focus {
                SetupFocus::Steps => new == (App { setup_current: next_step(old), ..old }),
                SetupFocus::Detail => setup_detail_down(old, new, true),
            }) && eff is Nothing
        } else if c == ' ' {
            (if old.setup_current == 3 {
                new == (App {
                    setup_shell_toggles: new.setup_shell_toggles,
                    ..old
                }) && new.setup_shell_toggles@ == toggled(old, old.setup_shell_selected)
            } else {
                new == old
            }) && eff is Nothing
        } else {
            unchanged(old, new, eff)
        },
        _ => unchanged(old, new, eff),
    }
}

/// The selected theme, when it is not already the active one.
pub open spec fn inactive_selection(old: App) -> Option<int> {
    match old.selected_index() {
        Some(i) => if opt_string_view(old.active_theme_name) == Some(old.theme_list@[i].name@) {
            None
        } else {
            Some(i)
        },
        None => None,
    }
}

/// A key in the theme browser.
pub open spec fn themes_key(old: App, new: App, key: Key, eff: Effect) -> bool {
    match key {
        Key::Char(c) => if c == '/' {
            new == (App { theme_search_editing: true, ..old }) && eff is Nothing
        } else {
            unchanged(old, new, eff)
        },
        Key::Up => match old.focus {
            Focus::Sidebar => eff is Nothing && (if old.theme_category_index > 0 {
                selects_category(old, new, old.theme_category_index - 1)
            } else {
                new == old
            }),
            Focus::List => selects_theme(
                old,
                new,
                if old.theme_selected > 0 {
                    (old.theme_selected - 1) as usize
                } else {
                    old.theme_selected
                },
                eff,
            ),
            Focus::Detail => unchanged(old, new, eff),
        },
        Key::Down => match old.focus {
            Focus::Sidebar => eff is Nothing && (if old.theme_category_index < 6 {
                selects_category(old, new, old.theme_category_index + 1)
            } else {
                new == old
            }),
            Focus::List => selects_theme(
                old,
                new,
                if old.theme_selected < sat_sub(old.theme_filtered@.len() as int, 1) {
                    (old.theme_selected + 1) as usize
                } else {
                    old.theme_selected
                },
                eff,
            ),
            Focus::Detail => unchanged(old, new, eff),
        },
        Key::Left => new == (App { focus: Focus::Sidebar, ..old }) && eff is Nothing,
        Key::Right => new == (App {
            focus: if old.focus == Focus::Sidebar {
                Focus::List
            } else {
                Focus::Detail
            },
            ..old
        }) && eff is Nothing,
        Key::Enter => eff is Nothing && (match old.selected_index() {
            Some(i) => opens_apply(old, new, old.theme_list@[i].name@),
            None => new == old,
        }),
        _ => unchanged(old, new, eff),
    }
}

/// A key with no dialog open and no search being edited.
pub open spec fn normal_key(old: App, new: App, key: Key, eff: Effect) -> bool {
    match key {
        Key::Char(c) => if c == 'q' || c == 'Q' {
            new == (App { running: false, ..old }) && eff is Nothing
        } else if c == '1' {
            shows_tab(old, new, Tab::Dashboard, eff)
        } else if c == '2' {
            shows_tab(old, new, Tab::Setup, eff)
        } else if c == '3' {
            shows_tab(old, new, Tab::Themes, eff)
        } else {
            tab_key(old, new, key, eff)
        },
        Key::Esc => if old.theme_search_editing {
            new == (App { theme_search_editing: false, ..old }) && eff is Nothing
        } else {
            tab_key(old, new, key, eff)
        },
        Key::Tab => shows_tab(old, new, next_tab_spec(old.tab), eff),
        Key::BackTab => shows_tab(old, new, prev_tab_spec(old.tab), eff),
        _ => tab_key(old, new, key, eff),
    }
}

/// A key handled by the tab shown.
pub open spec fn tab_key(old: App, new: App, key: Key, eff: Effect) -> bool {
    match old.tab {
        Tab::Dashboard => dashboard_key(old, new, key, eff),
        Tab::Setup => setup_key(old, new, key, eff),
        Tab::Themes => themes_key(old, new, key, eff),
    }
}

/// Any key: the open dialog takes it first, then the search box, then the
/// rest of the screen.
pub open spec fn key_step(old: App, new: App, key: Key, eff: Effect) -> bool {
    if old.confirm is Some {
        confirm_key(old, new, key, eff)
    } else if old.theme_search_editing {
        search_key(old, new, key, eff)
    } else {
        normal_key(old, new, key, eff)
    }
}


/// A left click while a confirmation dialog is open: a click on the button
/// row picks "no" left of the middle and "yes" from the middle on.
pub open spec fn confirm_click(old: App, new: App, x: u16, y: u16) -> bool {
    match (old.layout.confirm_area, old.confirm) {
        (Some((cx, cy, cw, ch)), Some(d)) => {
            let btn_y = cy + sat_sub(ch as int, 2);
            if sat_sub(btn_y, 1) <= y <= btn_y + 1 {
                new == (App {
                    confirm: Some(ConfirmDialog { confirm_selected: x >= cx + cw as int / 2, ..d }),
                    ..old
                })
            } else {
                new == old
            }
        },
        _ => new == old,
    }
}

/// A left click on the dashboard: the item under the pointer is selected
/// and entered.
pub open spec fn dashboard_click(old: App, new: App, x: u16, y: u16, eff: Effect) -> bool {
    match old.layout.dashboard_area {
        Some((_, dy, _, _)) => if in_region(x, y, old.layout.dashboard_area) && sat_sub(y as int, dy as int) / 2 < 5 {
            dashboard_enter(
                App { dashboard_selected: (sat_sub(y as int, dy as int) / 2) as usize, ..old },
                new,
                eff,
            )
        } else {
            unchanged(old, new, eff)
        },
        None => unchanged(old, new, eff),
    }
}

/// A click in the wizard's detail panel, after focusing it (`mid`): picks
/// the font, theme or shell under the pointer; a shell not yet configured
/// is toggled too.
pub open spec fn setup_detail_click(mid: App, new: App, y: u16, dy: u16) -> bool {
    if mid.setup_current == 1 {
        let row = sat_sub(y as int, dy + 8) / 2;
        if row < 8 {
            new == (App { setup_font_selected: row as usize, ..mid })
        } else {
            new == mid
        }
    } else if mid.setup_current == 2 {
        let row = sat_sub(y as int, dy + 7);
        if row < 8 {
            new == (App { setup_theme_selected: row as usize, ..mid })
        } else {
            new == mid
        }
    } else if mid.setup_current == 3 {
        let row = sat_sub(y as int, dy + 7);
        let a = avail_indices(mid.shells@);
        if row < a.len() {
            let idx = a[row];
            &&& new.setup_shell_toggles@ == (if !mid.shells@[idx as int].omp_configured && idx
                < mid.setup_shell_toggles@.len() {
                mid.setup_shell_toggles@.update(idx as int, !mid.setup_shell_toggles@[idx as int])
            } else {
                mid.setup_shell_toggles@
            })
            &&& new == (App {
                setup_shell_selected: idx,
                setup_shell_toggles: new.setup_shell_toggles,
                ..mid
            })
        } else {
            new == mid
        }
    } else {
        new == mid
    }
}

/// A left click in the setup wizard.
pub open spec fn setup_click(old: App, new: App, x: u16, y: u16) -> bool {
    if in_region(x, y, old.layout.setup_steps) {
        match old.layout.setup_steps {
            Some((_, sy, _, _)) => {
                let row = sat_sub(y as int, sy + 1) / 2;
                if row < old.setup_steps@.len() {
                    new == (App {
                        setup_current: row as usize,
                        setup_focus: SetupFocus::Steps,
                        ..old
                    })
                } else {
                    new == old
                }
            },
            None => new == old,
        }
    } else if in_region(x, y, old.layout.setup_detail) {
        match old.layout.setup_detail {
            Some((_, dy, _, _)) => setup_detail_click(
                App { setup_focus: SetupFocus::Detail, ..old },
                new,
                y,
                dy,
            ),
            None => new == old,
        }
    } else {
        new == old
    }
}

/// A left click in the theme browser: a category, the search bar, a theme
/// of the list, or the apply button at the bottom of the detail panel.
pub open spec fn themes_click(old: App, new: App, x: u16, y: u16, eff: Effect) -> bool {
    if in_region(x, y, old.layout.sidebar) {
        eff is Nothing && match old.layout.sidebar {
            Some((_, sy, _, _)) => {
                let row = sat_sub(y as int, sy + 1);
                if row < 7 {
                    selects_category(App { focus: Focus::Sidebar, ..old }, new, row)
                } else {
                    new == old
                }
            },
            None => new == old,
        }
    } else if in_region(x, y, old.layout.list) {
        match old.layout.list {
            Some((_, ly, _, _)) => if y < ly + 3 {
                new == (App { theme_search_editing: true, focus: Focus::List, ..old }) && eff is Nothing
            } else {
                let idx = old.theme_scroll + (y - (ly + 3)) / 2;
                if idx < old.theme_filtered@.len() {
                    new == (App { theme_selected: idx as usize, focus: Focus::List, ..old })
                        && eff is LoadTheme
                } else {
                    unchanged(old, new, eff)
                }
            },
            None => unchanged(old, new, eff),
        }
    } else if in_region(x, y, old.layout.detail) {
        eff is Nothing && match old.layout.detail {
            Some((_, dy, _, dh)) => {
                let mid = App { focus: Focus::Detail, ..old };
                if y >= dy + sat_sub(dh as int, 3) {
                    match inactive_selection(old) {
                        Some(i) => opens_apply(mid, new, old.theme_list@[i].name@),
                        None => new == mid,
                    }
                } else {
                    new == mid
                }
            },
            None => new == old,
        }
    } else {
        unchanged(old, new, eff)
    }
}

/// A left click.
pub open spec fn left_click(old: App, new: App, x: u16, y: u16, eff: Effect) -> bool {
    if old.confirm is Some {
        confirm_click(old, new, x, y) && eff is Nothing
    } else if in_region(x, y, old.layout.tab_bar) {
        match old.layout.tab_bar {
            Some((tx, _, _, _)) => match tab_at_spec(tx, x) {
                Some(t) => shows_tab(old, new, t, eff),
                None => unchanged(old, new, eff),
            },
            None => unchanged(old, new, eff),
        }
    } else {
        match old.tab {
            Tab::Dashboard => dashboard_click(old, new, x, y, eff),
            Tab::Setup => setup_click(old, new, x, y) && eff is Nothing,
            Tab::Themes => themes_click(old, new, x, y, eff),
        }
    }
}

/// A right click: in the theme list it asks to apply the selected theme.
pub open spec fn right_click(old: App, new: App, x: u16, y: u16, eff: Effect) -> bool {
    if old.tab == Tab::Themes && in_region(x, y, old.layout.list) {
        eff is Nothing && match inactive_selection(old) {
            Some(i) => opens_apply(old, new, old.theme_list@[i].name@),
            None => new == old,
        }
    } else {
        unchanged(old, new, eff)
    }
}

/// The wheel turned up (no dialog open).
pub open spec fn wheel_up(old: App, new: App, x: u16, y: u16, eff: Effect) -> bool {
    match old.tab {
        Tab::Dashboard => new == (App {
            dashboard_selected: if old.dashboard_selected > 0 {
                (old.dashboard_selected - 1) as usize
            } else {
                old.dashboard_selected
            },
            ..old
        }) && eff is Nothing,
        Tab::Setup => eff is Nothing && if in_region(x, y, old.layout.setup_steps) {
            new == (App {
                setup_current: if old.setup_current > 0 {
                    (old.setup_current - 1) as usize
                } else {
                    old.setup_current
                },
                ..old
            })
        } else {
            setup_detail_up(old, new)
        },
        Tab::Themes => if in_region(x, y, old.layout.sidebar) {
            eff is Nothing && if old.theme_category_index > 0 {
                selects_category(old, new, old.theme_category_index - 1)
            } else {
                new == old
            }
        } else if in_region(x, y, old.layout.list) || in_region(x, y, old.layout.detail) {
            if old.theme_selected > 0 {
                selects_theme(old, new, (old.theme_selected - 1) as usize, eff)
            } else {
                unchanged(old, new, eff)
            }
        } else {
            unchanged(old, new, eff)
        },
    }
}

/// The wheel turned down (no dialog open).
pub open spec fn wheel_down(old: App, new: App, x: u16, y: u16, eff: Effect) -> bool {
    match old.tab {
        Tab::Dashboard => new == (App {
            dashboard_selected: if old.dashboard_selected < 4 {
                (old.dashboard_selected + 1) as usize
            } else {
                old.dashboard_selected
            },
            ..old
        }) && eff is Nothing,
        Tab::Setup => eff is Nothing && if in_region(x, y, old.layout.setup_steps) {
            new == (App { setup_current: next_step(old), ..old })
        } else {
            setup_detail_down(old, new, false)
        },
        Tab::Themes => if in_region(x, y, old.layout.sidebar) {
            eff is Nothing && if old.theme_category_index < 6 {
                selects_category(old, new, old.theme_category_index + 1)
            } else {
                new == old
            }
        } else if in_region(x, y, old.layout.list) || in_region(x, y, old.layout.detail) {
            if old.theme_selected < sat_sub(old.theme_filtered@.len() as int, 1) {
                selects_theme(old, new, (old.theme_selected + 1) as usize, eff)
            } else {
                unchanged(old, new, eff)
            }
        } else {
            unchanged(old, new, eff)
        },
    }
}

/// Any mouse event at column `x`, row `y`.
pub open spec fn mouse_step(old: App, new: App, kind: MouseKind, x: u16, y: u16, eff: Effect) -> bool {
    match kind {
        MouseKind::LeftDown => left_click(old, new, x, y, eff),
        MouseKind::RightDown => right_click(old, new, x, y, eff),
        MouseKind::ScrollUp => if old.confirm is Some {
            unchanged(old, new, eff)
        } else {
            wheel_up(old, new, x, y, eff)
        },
        MouseKind::ScrollDown => if old.confirm is Some {
            unchanged(old, new, eff)
        } else {
            wheel_down(old, new, x, y, eff)
        },
        MouseKind::Other => unchanged(old, new, eff),
    }
}

// ── Handlers ─────────────────────────────────────────────────────────────────

fn reset_dialog() -> (d: ConfirmDialog)
    ensures
        is_dialog(d, "Reset to Default"@, reset_message(), ConfirmAction::ResetToDefault, false, ""@),
{
    proof {
        reveal_strlit("");
    }
    let d = ConfirmDialog {
        title: owned("Reset to Default"),
        message: owned(
            "Remove Oh My Posh from ALL shell profiles and clear active theme?\n\nYour shells will return to their default prompt.",
        ),
        action: ConfirmAction::ResetToDefault,
        confirm_selected: false,
        context: String::new(),
    };
    assert(d.title@ == "Reset to Default"@);
    assert(d.message@ == reset_message());
    assert(d.context@ == ""@);
    d
}

fn apply_dialog(name: &str) -> (d: ConfirmDialog)
    ensures
        is_dialog(
            d,
            "Apply Theme"@,
            "Set '"@ + name@ + "' as your active prompt theme?"@,
            ConfirmAction::ApplyTheme,
            true,
            name@,
        ),
{
    ConfirmDialog {
        title: owned("Apply Theme"),
        message: concat3("Set '", name, "' as your active prompt theme?"),
        action: ConfirmAction::ApplyTheme,
        confirm_selected: true,
        context: owned(name),
    }
}

/// A key while a confirmation dialog is open.
pub fn handle_confirm_input(app: &mut App, key: Key) -> (eff: Effect)
    ensures
        confirm_key(*old(app), *final(app), key, eff),
        old(app).wf() ==> final(app).wf(),
{
    if app.confirm.is_none() {
        return Effect::Nothing;
    }
    match key {
        Key::Left | Key::Right | Key::Tab => {
            match app.confirm.take() {
                Some(mut d) => {
                    d.confirm_selected = !d.confirm_selected;
                    app.confirm = Some(d);
                },
                None => {},
            }
            Effect::Nothing
        },
        Key::Enter => match app.confirm.take() {
            Some(d) => if d.confirm_selected {
                Effect::Run(d)
            } else {
                Effect::Nothing
            },
            None => Effect::Nothing,
        },
        Key::Esc => {
            app.confirm = None;
            Effect::Nothing
        },
        Key::Char(c) => {
            if c == 'y' || c == 'Y' {
                match app.confirm.take() {
                    Some(d) => Effect::Run(d),
                    None => Effect::Nothing,
                }
            } else if c == 'n' || c == 'N' {
                app.confirm = None;
                Effect::Nothing
            } else {
                Effect::Nothing
            }
        },
        _ => Effect::Nothing,
    }
}

/// `s` without its last character (unchanged when empty).
fn without_last(s: &String) -> (r: String)
    ensures
        r@ == (if s@.len() > 0 {
            s@.drop_last()
        } else {
            s@
        }),
{
    let v = chars_of(s.as_str());
    if v.len() == 0 {
        return string_of(&v);
    }
    let mut w: Vec<char> = Vec::new();
    let mut i: usize = 0;
    while i + 1 < v.len()
        invariant
            v.len() > 0,
            i + 1 <= v.len(),
            w@ == v@.take(i as int),
        decreases v.len() - i,
    {
        w.push(v[i]);
        i = i + 1;
        assert(w@ =~= v@.take(i as int));
    }
    assert(w@ =~= v@.drop_last());
    string_of(&w)
}

/// A key while the theme search is being edited.
pub fn handle_search_input(app: &mut App, key: Key) -> (eff: Effect)
    ensures
        search_key(*old(app), *final(app), key, eff),
        old(app).wf() ==> final(app).wf(),
{
    match key {
        Key::Esc | Key::Enter => {
            app.theme_search_editing = false;
        },
        Key::Backspace => {
            app.theme_search = without_last(&app.theme_search);
            app.apply_theme_filter();
        },
        Key::Char(c) => {
            push_char(&mut app.theme_search, c);
            app.apply_theme_filter();
        },
        _ => {},
    }
    Effect::Nothing
}

fn show_tab(app: &mut App, t: Tab) -> (eff: Effect)
    ensures
        shows_tab(*old(app), *final(app), t, eff),
{
    app.tab = t;
    if t == Tab::Themes {
        Effect::LoadTheme
    } else {
        Effect::Nothing
    }
}

/// Enter on the dashboard item selected.
fn dashboard_enter_exec(app: &mut App) -> (eff: Effect)
    ensures
        dashboard_enter(*old(app), *final(app), eff),
{
    let sel = app.dashboard_selected;
    if sel == 0 {
        show_tab(app, Tab::Setup)
    } else if sel == 1 {
        show_tab(app, Tab::Themes)
    } else if sel == 2 {
        app.tab = Tab::Setup;
        app.setup_current = 1;
        Effect::Nothing
    } else if sel == 3 {
        if app.omp.is_some() {
            Effect::UpdateOmp
        } else {
            app.set_status_err("Install Oh My Posh first (use Quick Setup)");
            Effect::Nothing
        }
    } else if sel == 4 {
        app.confirm = Some(reset_dialog());
        Effect::Nothing
    } else {
        Effect::Nothing
    }
}

/// A key on the dashboard.
pub fn handle_dashboard_input(app: &mut App, key: Key) -> (eff: Effect)
    ensures
        dashboard_key(*old(app), *final(app), key, eff),
        old(app).wf() ==> final(app).wf(),
{
    match key {
        Key::Up => {
            if app.dashboard_selected > 0 {
                app.dashboard_selected = app.dashboard_selected - 1;
            }
            Effect::Nothing
        },
        Key::Down => {
            if app.dashboard_selected < 4 {
                app.dashboard_selected = app.dashboard_selected + 1;
            }
            Effect::Nothing
        },
        Key::Enter => dashboard_enter_exec(app),
        Key::Char(c) => {
            if c == 's' || c == 'S' {
                show_tab(app, Tab::Setup)
            } else if c == 't' || c == 'T' {
                show_tab(app, Tab::Themes)
            } else if c == 'f' || c == 'F' {
                app.tab = Tab::Setup;
                app.setup_current = 1;
                Effect::Nothing
            } else if c == 'u' || c == 'U' {
                if app.omp.is_some() {
                    Effect::UpdateOmp
                } else {
                    Effect::Nothing
                }
            } else if c == 'r' || c == 'R' {
                app.confirm = Some(reset_dialog());
                Effect::Nothing
            } else {
                Effect::Nothing
            }
        },
        _ => Effect::Nothing,
    }
}

/// The theme offered at position `i` of the wizard's theme step.
fn quick_theme(i: usize) -> (r: Option<&'static str>)
    ensures
        match r {
            Some(n) => i < 8 && n@ == quick_themes_spec()[i as int],
            None => i >= 8,
        },
{
    if i == 0 {
        Some("paradox")
    } else if i == 1 {
        Some("catppuccin_mocha")
    } else if i == 2 {
        Some("dracula")
    } else if i == 3 {
        Some("powerlevel10k_rainbow")
    } else if i == 4 {
        Some("agnoster")
    } else if i == 5 {
        Some("pure")
    } else if i == 6 {
        Some("spaceship")
    } else if i == 7 {
        Some("tokyonight_storm")
    } else {
        None
    }
}

fn make_dialog(
    title: &str,
    message: String,
    action: ConfirmAction,
    confirm_selected: bool,
    context: &str,
) -> (d: ConfirmDialog)
    ensures
        is_dialog(d, title@, message@, action, confirm_selected, context@),
{
    let d = ConfirmDialog {
        title: owned(title),
        message,
        action,
        confirm_selected,
        context: owned(context),
    };
    assert(d.title@ == title@);
    assert(d.context@ == context@);
    d
}

/// The themes offered by the wizard's theme step, in order.
pub fn quick_themes() -> (v: Vec<&'static str>)
    ensures
        v@.map_values(|s: &'static str| s@) == quick_themes_spec(),
{
    let v = vec![
        "paradox",
        "catppuccin_mocha",
        "dracula",
        "powerlevel10k_rainbow",
        "agnoster",
        "pure",
        "spaceship",
        "tokyonight_storm",
    ];
    assert(v@.map_values(|s: &'static str| s@) =~= quick_themes_spec());
    v
}

/// Enter in the setup wizard: open the current step's confirmation.
pub fn execute_setup_step(app: &mut App) -> (eff: Effect)
    requires
        old(app).setup_steps@.len() > 0,
    ensures
        setup_enter(*old(app), *final(app), eff),
        old(app).wf() ==> final(app).wf(),
{
    if app.setup_current == 0 {
        if app.omp.is_none() {
            app.confirm = Some(
                make_dialog(
                    "Install Oh My Posh",
                    owned("This will download and install Oh My Posh on your system."),
                    ConfirmAction::InstallOmp,
                    true,
                    "",
                ),
            );
        } else {
            app.set_status("Oh My Posh is already installed!");
            if app.setup_current < app.setup_steps.len() - 1 {
                app.setup_current = app.setup_current + 1;
            }
        }
    } else if app.setup_current == 1 {
        let fonts = font_catalog();
        if app.setup_font_selected < fonts.len() {
            let f = fonts[app.setup_font_selected];
            app.confirm = Some(
                make_dialog(
                    "Install Nerd Font",
                    concat3("Install ", f.display, " on your system?"),
                    ConfirmAction::InstallFont,
                    true,
                    f.name,
                ),
            );
        }
    } else if app.setup_current == 2 {
        match quick_theme(app.setup_theme_selected) {
            Some(name) => {
                app.confirm = Some(
                    make_dialog(
                        "Apply Theme",
                        concat3("Set '", name, "' as your active prompt theme?"),
                        ConfirmAction::ApplyTheme,
                        true,
                        name,
                    ),
                );
            },
            None => {},
        }
    } else if app.setup_current == 3 {
        app.confirm = Some(
            make_dialog(
                "Configure Shells",
                owned("Add Oh My Posh to the selected shells' profiles?"),
                ConfirmAction::ConfigureAllShells,
                true,
                "",
            ),
        );
    }
    Effect::Nothing
}

/// Indices of the shells whose binary was found.
fn available_shells(shells: &Vec<ShellInfo>) -> (r: Vec<usize>)
    ensures
        r@ == avail_indices(shells@),
{
    let ghost p = |i: int| shells@[i].available;
    let mut r: Vec<usize> = Vec::new();
    let mut i: usize = 0;
    while i < shells.len()
        invariant
            i <= shells.len(),
            p == (|i: int| shells@[i].available),
            r@ == indices_where(i as nat, p),
        decreases shells.len() - i,
    {
        if shells[i].available {
            r.push(i);
        }
        i = i + 1;
    }
    r
}

/// The first position of `x` in `v`.
fn position(v: &Vec<usize>, x: usize) -> (r: Option<usize>)
    ensures
        match r {
            Some(p) => pos_in(v@, x) == Some(p as int),
            None => pos_in(v@, x) is None,
        },
{
    let mut i: usize = 0;
    while i < v.len()
        invariant
            i <= v.len(),
            forall|k: int| 0 <= k < i ==> #[trigger] v@[k] != x,
        decreases v.len() - i,
    {
        if v[i] == x {
            proof {
                assert(is_first_pos(v@, x, i as int));
                let j = choose|j: int| is_first_pos(v@, x, j);
                if j < i {
                    assert(v@[j] != x);
                }
                if j > i {
                    assert(v@[i as int] != x);
                }
            }
            return Some(i);
        }
        i = i + 1;
    }
    None
}

fn shell_prev(shells: &Vec<ShellInfo>, sel: usize) -> (r: usize)
    ensures
        r == avail_prev(shells@, sel),
{
    let a = available_shells(shells);
    match position(&a, sel) {
        Some(p) => if p > 0 {
            a[p - 1]
        } else {
            sel
        },
        None => sel,
    }
}

fn shell_next(shells: &Vec<ShellInfo>, sel: usize, to_first: bool) -> (r: usize)
    ensures
        r == avail_next(shells@, sel, to_first),
{
    let a = available_shells(shells);
    match position(&a, sel) {
        Some(p) => if p < a.len() - 1 {
            a[p + 1]
        } else {
            sel
        },
        None => if to_first && a.len() > 0 {
            a[0]
        } else {
            sel
        },
    }
}

fn setup_up_exec(app: &mut App)
    ensures
        setup_up(*old(app), *final(app)),
{
    match app.setup_focus {
        SetupFocus::Steps => {
            if app.setup_current > 0 {
                app.setup_current = app.setup_current - 1;
            }
        },
        SetupFocus::Detail => setup_detail_up_exec(app),
    }
}

fn setup_detail_up_exec(app: &mut App)
    ensures
        setup_detail_up(*old(app), *final(app)),
{
    if app.setup_current == 1 {
        if app.setup_font_selected > 0 {
            app.setup_font_selected = app.setup_font_selected - 1;
        }
    } else if app.setup_current == 2 {
        if app.setup_theme_selected > 0 {
            app.setup_theme_selected = app.setup_theme_selected - 1;
        }
    } else if app.setup_current == 3 {
        app.setup_shell_selected = shell_prev(&app.shells, app.setup_shell_selected);
    }
}

fn setup_detail_down_exec(app: &mut App, to_first: bool)
    ensures
        setup_detail_down(*old(app), *final(app), to_first),
{
    if app.setup_current == 1 {
        let fonts = font_catalog();
        let max: usize = if fonts.len() < 8 {
            fonts.len() - 1
        } else {
            7
        };
        if app.setup_font_selected < max {
            app.setup_font_selected = app.setup_font_selected + 1;
        }
    } else if app.setup_current == 2 {
        if app.setup_theme_selected < 7 {
            app.setup_theme_selected = app.setup_theme_selected + 1;
        }
    } else if app.setup_current == 3 {
        app.setup_shell_selected = shell_next(&app.shells, app.setup_shell_selected, to_first);
    }
}

fn setup_down_exec(app: &mut App)
    ensures
        match old(app).setup_focus {
            SetupFocus::Steps => *final(app) == (App { setup_current: next_step(*old(app)), ..*old(app) }),
            SetupFocus::Detail => setup_detail_down(*old(app), *final(app), true),
        },
{
    match app.setup_focus {
        SetupFocus::Steps => {
            let last: usize = if app.setup_steps.len() > 0 {
                app.setup_steps.len() - 1
            } else {
                0
            };
            if app.setup_current < last {
                app.setup_current = app.setup_current + 1;
            }
        },
        SetupFocus::Detail => setup_detail_down_exec(app, true),
    }
}

/// Flip the wizard's choice for shell `idx`, when that shell may be toggled.
fn toggle_shell(app: &mut App, idx: usize)
    ensures
        final(app).setup_shell_toggles@ == toggled(*old(app), idx),
        *final(app) == (App { setup_shell_toggles: final(app).setup_shell_toggles, ..*old(app) }),
{
    if idx < app.shells.len() && app.shells[idx].available && !app.shells[idx].omp_configured
        && idx < app.setup_shell_toggles.len() {
        let t = !app.setup_shell_toggles[idx];
        app.setup_shell_toggles.set(idx, t);
    }
}

/// A key in the setup wizard.
pub fn handle_setup_input(app: &mut App, key: Key) -> (eff: Effect)
    requires
        old(app).setup_steps@.len() > 0,
    ensures
        setup_key(*old(app), *final(app), key, eff),
        old(app).wf() ==> final(app).wf(),
{
    match key {
        Key::Left => {
            app.setup_focus = SetupFocus::Steps;
            Effect::Nothing
        },
        Key::Right => {
            app.setup_focus = SetupFocus::Detail;
            Effect::Nothing
        },
        Key::Up => {
            setup_up_exec(app);
            Effect::Nothing
        },
        Key::Down => {
            setup_down_exec(app);
            Effect::Nothing
        },
        Key::Enter => execute_setup_step(app),
        Key::Char(c) => {
            if c == 'k' {
                setup_up_exec(app);
            } else if c == 'j' {
                setup_down_exec(app);
            } else if c == ' ' {
                if app.setup_current == 3 {
                    let idx = app.setup_shell_selected;
                    toggle_shell(app, idx);
                }
            }
            Effect::Nothing
        },
        _ => Effect::Nothing,
    }
}

/// Choose theme category `k` and refilter the list.
fn select_category(app: &mut App, k: usize)
    requires
        k < 7,
    ensures
        selects_category(*old(app), *final(app), k as int),
        forall|i: int|
            0 <= i < final(app).theme_filtered@.len() ==> #[trigger] final(app).theme_filtered@[i]
                < final(app).theme_list@.len(),
{
    let cats = ThemeCategory::all();
    app.theme_category_index = k;
    app.theme_category = cats[k];
    app.apply_theme_filter();
}

/// Scroll the theme list (two rows per theme) so that the selected theme
/// is visible.
pub fn ensure_theme_scroll(app: &mut App)
    ensures
        *final(app) == (App {
            theme_scroll: scroll_for(
                old(app).theme_selected,
                old(app).theme_scroll,
                old(app).theme_visible_height,
                2,
            ),
            ..*old(app)
        }),
{
    let mut sc = app.theme_scroll;
    ensure_scroll_visible(app.theme_selected, &mut sc, app.theme_visible_height, 2);
    app.theme_scroll = sc;
}

/// Select theme `sel` of the shown list and scroll it into view.
fn select_theme(app: &mut App, sel: usize) -> (eff: Effect)
    ensures
        selects_theme(*old(app), *final(app), sel, eff),
{
    let changed = sel != app.theme_selected;
    app.theme_selected = sel;
    ensure_theme_scroll(app);
    if changed {
        Effect::LoadTheme
    } else {
        Effect::Nothing
    }
}

/// A key in the theme browser.
pub fn handle_themes_input(app: &mut App, key: Key) -> (eff: Effect)
    requires
        old(app).theme_category_index < 7,
    ensures
        themes_key(*old(app), *final(app), key, eff),
        old(app).wf() ==> final(app).wf(),
{
    match key {
        Key::Char(c) => {
            if c == '/' {
                app.theme_search_editing = true;
            }
            Effect::Nothing
        },
        Key::Up => match app.focus {
            Focus::Sidebar => {
                if app.theme_category_index > 0 {
                    let k = app.theme_category_index - 1;
                    select_category(app, k);
                }
                Effect::Nothing
            },
            Focus::List => {
                let sel = if app.theme_selected > 0 {
                    app.theme_selected - 1
                } else {
                    app.theme_selected
                };
                select_theme(app, sel)
            },
            Focus::Detail => Effect::Nothing,
        },
        Key::Down => match app.focus {
            Focus::Sidebar => {
                if app.theme_category_index < 6 {
                    let k = app.theme_category_index + 1;
                    select_category(app, k);
                }
                Effect::Nothing
            },
            Focus::List => {
                let last: usize = if app.theme_filtered.len() > 0 {
                    app.theme_filtered.len() - 1
                } else {
                    0
                };
                let sel = if app.theme_selected < last {
                    app.theme_selected + 1
                } else {
                    app.theme_selected
                };
                select_theme(app, sel)
            },
            Focus::Detail => Effect::Nothing,
        },
        Key::Left => {
            app.focus = Focus::Sidebar;
            Effect::Nothing
        },
        Key::Right => {
            app.focus = if app.focus == Focus::Sidebar {
                Focus::List
            } else {
                Focus::Detail
            };
            Effect::Nothing
        },
        Key::Enter => {
            let d = match app.selected_theme() {
                Some(t) => Some(apply_dialog(t.name.as_str())),
                None => None,
            };
            match d {
                Some(d) => {
                    app.confirm = Some(d);
                },
                None => {},
            }
            Effect::Nothing
        },
        _ => Effect::Nothing,
    }
}

/// A key with no dialog open and no search being edited.
pub fn handle_normal_input(app: &mut App, key: Key) -> (eff: Effect)
    requires
        old(app).setup_steps@.len() > 0,
        old(app).theme_category_index < 7,
    ensures
        normal_key(*old(app), *final(app), key, eff),
        old(app).wf() ==> final(app).wf(),
{
    match key {
        Key::Char(c) => {
            if c == 'q' || c == 'Q' {
                app.running = false;
                return Effect::Nothing;
            } else if c == '1' {
                return show_tab(app, Tab::Dashboard);
            } else if c == '2' {
                return show_tab(app, Tab::Setup);
            } else if c == '3' {
                return show_tab(app, Tab::Themes);
            }
        },
        Key::Esc => {
            if app.theme_search_editing {
                app.theme_search_editing = false;
                return Effect::Nothing;
            }
        },
        Key::Tab => {
            app.next_tab();
            return if app.tab == Tab::Themes {
                Effect::LoadTheme
            } else {
                Effect::Nothing
            };
        },
        Key::BackTab => {
            app.prev_tab();
            return if app.tab == Tab::Themes {
                Effect::LoadTheme
            } else {
                Effect::Nothing
            };
        },
        _ => {},
    }
    match app.tab {
        Tab::Dashboard => handle_dashboard_input(app, key),
        Tab::Setup => handle_setup_input(app, key),
        Tab::Themes => handle_themes_input(app, key),
    }
}

/// Any key: the open dialog takes it first, then the search box, then the
/// rest of the screen.
pub fn handle_key(app: &mut App, key: Key) -> (eff: Effect)
    requires
        old(app).wf(),
    ensures
        key_step(*old(app), *final(app), key, eff),
        final(app).wf(),
{
    if app.confirm.is_some() {
        handle_confirm_input(app, key)
    } else if app.theme_search_editing {
        handle_search_input(app, key)
    } else {
        handle_normal_input(app, key)
    }
}

/// `a - b` for screen coordinates, or 0 when `b` is larger.
fn sub0(a: u32, b: u32) -> (r: u32)
    ensures
        r == sat_sub(a as int, b as int),
{
    if a >= b {
        a - b
    } else {
        0
    }
}

fn confirm_click_exec(app: &mut App, x: u16, y: u16)
    ensures
        confirm_click(*old(app), *final(app), x, y),
{
    match app.layout.confirm_area {
        Some((cx, cy, cw, ch)) => {
            let btn_y: u32 = cy as u32 + sub0(ch as u32, 2);
            let yy = y as u32;
            if sub0(btn_y, 1) <= yy && yy <= btn_y + 1 {
                let yes = x as u32 >= cx as u32 + cw as u32 / 2;
                match app.confirm.take() {
                    Some(mut d) => {
                        d.confirm_selected = yes;
                        app.confirm = Some(d);
                    },
                    None => {},
                }
            }
        },
        None => {},
    }
}

fn dashboard_click_exec(app: &mut App, x: u16, y: u16) -> (eff: Effect)
    ensures
        dashboard_click(*old(app), *final(app), x, y, eff),
{
    if hit_test(x, y, &app.layout.dashboard_area) {
        match app.layout.dashboard_area {
            Some((_, dy, _, _)) => {
                let row = sub0(y as u32, dy as u32) / 2;
                if row < 5 {
                    app.dashboard_selected = row as usize;
                    return dashboard_enter_exec(app);
                }
            },
            None => {},
        }
    }
    Effect::Nothing
}

fn setup_detail_click_exec(app: &mut App, y: u16, dy: u16)
    ensures
        setup_detail_click(*old(app), *final(app), y, dy),
{
    if app.setup_current == 1 {
        let row = sub0(y as u32, dy as u32 + 8) / 2;
        if row < 8 {
            app.setup_font_selected = row as usize;
        }
    } else if app.setup_current == 2 {
        let row = sub0(y as u32, dy as u32 + 7);
        if row < 8 {
            app.setup_theme_selected = row as usize;
        }
    } else if app.setup_current == 3 {
        let row = sub0(y as u32, dy as u32 + 7) as usize;
        let a = available_shells(&app.shells);
        if row < a.len() {
            let idx = a[row];
            app.setup_shell_selected = idx;
            proof {
                crate::themes::lemma_indices_below(app.shells@.len(), |i: int| app.shells@[i].available);
            }
            if !app.shells[idx].omp_configured && idx < app.setup_shell_toggles.len() {
                let t = !app.setup_shell_toggles[idx];
                app.setup_shell_toggles.set(idx, t);
            }
        }
    }
}

fn setup_click_exec(app: &mut App, x: u16, y: u16)
    ensures
        setup_click(*old(app), *final(app), x, y),
{
    if hit_test(x, y, &app.layout.setup_steps) {
        match app.layout.setup_steps {
            Some((_, sy, _, _)) => {
                let row = (sub0(y as u32, sy as u32 + 1) / 2) as usize;
                if row < app.setup_steps.len() {
                    app.setup_current = row;
                    app.setup_focus = SetupFocus::Steps;
                }
            },
            None => {},
        }
    } else if hit_test(x, y, &app.layout.setup_detail) {
        match app.layout.setup_detail {
            Some((_, dy, _, _)) => {
                app.setup_focus = SetupFocus::Detail;
                setup_detail_click_exec(app, y, dy);
            },
            None => {},
        }
    }
}

/// Open the confirmation for applying the selected theme, unless it is the
/// active one already.
fn offer_selected_theme(app: &mut App)
    ensures
        match inactive_selection(*old(app)) {
            Some(i) => opens_apply(*old(app), *final(app), old(app).theme_list@[i].name@),
            None => *final(app) == *old(app),
        },
{
    let d = match app.selected_theme() {
        Some(t) => {
            let active = match &app.active_theme_name {
                Some(a) => crate::text::str_eq(a.as_str(), t.name.as_str()),
                None => false,
            };
            if active {
                None
            } else {
                Some(apply_dialog(t.name.as_str()))
            }
        },
        None => None,
    };
    match d {
        Some(d) => {
            app.confirm = Some(d);
        },
        None => {},
    }
}

fn themes_click_exec(app: &mut App, x: u16, y: u16) -> (eff: Effect)
    requires
        old(app).theme_category_index < 7,
    ensures
        themes_click(*old(app), *final(app), x, y, eff),
        old(app).wf() ==> final(app).wf(),
{
    if hit_test(x, y, &app.layout.sidebar) {
        match app.layout.sidebar {
            Some((_, sy, _, _)) => {
                let row = sub0(y as u32, sy as u32 + 1) as usize;
                if row < 7 {
                    app.focus = Focus::Sidebar;
                    select_category(app, row);
                }
            },
            None => {},
        }
        Effect::Nothing
    } else if hit_test(x, y, &app.layout.list) {
        match app.layout.list {
            Some((_, ly, _, _)) => {
                if (y as u32) < ly as u32 + 3 {
                    app.theme_search_editing = true;
                    app.focus = Focus::List;
                    Effect::Nothing
                } else {
                    let half = ((y as u32 - (ly as u32 + 3)) / 2) as usize;
                    let len = app.theme_filtered.len();
                    if app.theme_scroll <= len && half < len - app.theme_scroll {
                        app.theme_selected = app.theme_scroll + half;
                        app.focus = Focus::List;
                        Effect::LoadTheme
                    } else {
                        Effect::Nothing
                    }
                }
            },
            None => Effect::Nothing,
        }
    } else if hit_test(x, y, &app.layout.detail) {
        match app.layout.detail {
            Some((_, dy, _, dh)) => {
                if y as u32 >= dy as u32 + sub0(dh as u32, 3) {
                    offer_selected_theme(app);
                }
                app.focus = Focus::Detail;
            },
            None => {},
        }
        Effect::Nothing
    } else {
        Effect::Nothing
    }
}

fn wheel_up_exec(app: &mut App, x: u16, y: u16) -> (eff: Effect)
    requires
        old(app).theme_category_index < 7,
    ensures
        wheel_up(*old(app), *final(app), x, y, eff),
        old(app).wf() ==> final(app).wf(),
{
    match app.tab {
        Tab::Dashboard => {
            if app.dashboard_selected > 0 {
                app.dashboard_selected = app.dashboard_selected - 1;
            }
            Effect::Nothing
        },
        Tab::Setup => {
            if hit_test(x, y, &app.layout.setup_steps) {
                if app.setup_current > 0 {
                    app.setup_current = app.setup_current - 1;
                }
            } else {
                setup_detail_up_exec(app);
            }
            Effect::Nothing
        },
        Tab::Themes => {
            if hit_test(x, y, &app.layout.sidebar) {
                if app.theme_category_index > 0 {
                    let k = app.theme_category_index - 1;
                    select_category(app, k);
                }
                Effect::Nothing
            } else if hit_test(x, y, &app.layout.list) || hit_test(x, y, &app.layout.detail) {
                if app.theme_selected > 0 {
                    let sel = app.theme_selected - 1;
                    select_theme(app, sel)
                } else {
                    Effect::Nothing
                }
            } else {
                Effect::Nothing
            }
        },
    }
}

fn wheel_down_exec(app: &mut App, x: u16, y: u16) -> (eff: Effect)
    requires
        old(app).theme_category_index < 7,
    ensures
        wheel_down(*old(app), *final(app), x, y, eff),
        old(app).wf() ==> final(app).wf(),
{
    match app.tab {
        Tab::Dashboard => {
            if app.dashboard_selected < 4 {
                app.dashboard_selected = app.dashboard_selected + 1;
            }
            Effect::Nothing
        },
        Tab::Setup => {
            if hit_test(x, y, &app.layout.setup_steps) {
                let last: usize = if app.setup_steps.len() > 0 {
                    app.setup_steps.len() - 1
                } else {
                    0
                };
                if app.setup_current < last {
                    app.setup_current = app.setup_current + 1;
                }
            } else {
                setup_detail_down_exec(app, false);
            }
            Effect::Nothing
        },
        Tab::Themes => {
            if hit_test(x, y, &app.layout.sidebar) {
                if app.theme_category_index < 6 {
                    let k = app.theme_category_index + 1;
                    select_category(app, k);
                }
                Effect::Nothing
            } else if hit_test(x, y, &app.layout.list) || hit_test(x, y, &app.layout.detail) {
                let last: usize = if app.theme_filtered.len() > 0 {
                    app.theme_filtered.len() - 1
                } else {
                    0
                };
                if app.theme_selected < last {
                    let sel = app.theme_selected + 1;
                    select_theme(app, sel)
                } else {
                    Effect::Nothing
                }
            } else {
                Effect::Nothing
            }
        },
    }
}

/// Any mouse event at column `x`, row `y`.
pub fn handle_mouse(app: &mut App, kind: MouseKind, x: u16, y: u16) -> (eff: Effect)
    requires
        old(app).wf(),
    ensures
        mouse_step(*old(app), *final(app), kind, x, y, eff),
        final(app).wf(),
{
    match kind {
        MouseKind::LeftDown => {
            if app.confirm.is_some() {
                confirm_click_exec(app, x, y);
                Effect::Nothing
            } else if hit_test(x, y, &app.layout.tab_bar) {
                match app.layout.tab_bar {
                    Some((tx, _, _, _)) => match tab_at(tx, x) {
                        Some(t) => show_tab(app, t),
                        None => Effect::Nothing,
                    },
                    None => Effect::Nothing,
                }
            } else {
                match app.tab {
                    Tab::Dashboard => dashboard_click_exec(app, x, y),
                    Tab::Setup => {
                        setup_click_exec(app, x, y);
                        Effect::Nothing
                    },
                    Tab::Themes => themes_click_exec(app, x, y),
                }
            }
        },
        MouseKind::RightDown => {
            if app.tab == Tab::Themes && hit_test(x, y, &app.layout.list) {
                offer_selected_theme(app);
            }
            Effect::Nothing
        },
        MouseKind::ScrollUp => {
            if app.confirm.is_some() {
                Effect::Nothing
            } else {
                wheel_up_exec(app, x, y)
            }
        },
        MouseKind::ScrollDown => {
            if app.confirm.is_some() {
                Effect::Nothing
            } else {
                wheel_down_exec(app, x, y)
            }
        },
        MouseKind::Other => Effect::Nothing,
    }
}

// ── Geometry ─────────────────────────────────────────────────────────────────

/// The point lies inside the rectangle.
pub open spec fn in_region(x: u16, y: u16, r: Option<(u16, u16, u16, u16)>) -> bool {
    match r {
        Some((rx, ry, rw, rh)) => rx <= x < rx + rw && ry <= y < ry + rh,
        None => false,
    }
}

/// Whether a point lies inside a recorded region (no region: never).
pub fn hit_test(x: u16, y: u16, region: &Option<(u16, u16, u16, u16)>) -> (b: bool)
    ensures
        b == in_region(x, y, *region),
{
    match region {
        Some((rx, ry, rw, rh)) => {
            let (rx, ry, rw, rh) = (*rx as u32, *ry as u32, *rw as u32, *rh as u32);
            let (x, y) = (x as u32, y as u32);
            x >= rx && x < rx + rw && y >= ry && y < ry + rh
        },
        None => false,
    }
}

/// How many list items fit in `visible_height` rows at `lines_per_item`
/// rows each (a zero item height counts as one row).
pub open spec fn items_visible(visible_height: usize, lines_per_item: usize) -> int {
    if lines_per_item > 0 {
        visible_height as int / lines_per_item as int
    } else {
        visible_height as int
    }
}

/// The scroll offset that keeps `selected` among the visible items: moved
/// down just enough when the selection is below the window, up to the
/// selection when it is above.
pub open spec fn scroll_for(
    selected: usize,
    scroll: usize,
    visible_height: usize,
    lines_per_item: usize,
) -> usize {
    let n = items_visible(visible_height, lines_per_item);
    if n == 0 {
        scroll
    } else {
        let s1 = if selected >= scroll + n {
            (selected - (n - 1)) as usize
        } else {
            scroll
        };
        if selected < s1 {
            selected
        } else {
            s1
        }
    }
}

/// Move a scroll offset so that the selected item is visible.
pub fn ensure_scroll_visible(
    selected: usize,
    scroll_offset: &mut usize,
    visible_height: usize,
    lines_per_item: usize,
)
    ensures
        *final(scroll_offset) == scroll_for(
            selected,
            *old(scroll_offset),
            visible_height,
            lines_per_item,
        ),
{
    let n = if lines_per_item > 0 {
        visible_height / lines_per_item
    } else {
        visible_height
    };
    if n == 0 {
        return ;
    }
    if selected >= *scroll_offset && selected - *scroll_offset >= n {
        *scroll_offset = selected - (n - 1);
    }
    if selected < *scroll_offset {
        *scroll_offset = selected;
    }
}

/// Whenever any item fits, the selection ends up inside the visible window.
pub proof fn law_scroll_keeps_selection_visible(
    selected: usize,
    scroll: usize,
    visible_height: usize,
    lines_per_item: usize,
)
    requires
        items_visible(visible_height, lines_per_item) > 0,
    ensures
        ({
            let s = scroll_for(selected, scroll, visible_height, lines_per_item);
            s <= selected < s + items_visible(visible_height, lines_per_item)
        }),
{
}

/// An offset that already shows the selection is left alone.
pub proof fn law_scroll_visible_is_stable(
    selected: usize,
    scroll: usize,
    visible_height: usize,
    lines_per_item: usize,
)
    requires
        scroll <= selected < scroll + items_visible(visible_height, lines_per_item),
    ensures
        scroll_for(selected, scroll, visible_height, lines_per_item) == scroll,
{
}

// ── Tab bar ──────────────────────────────────────────────────────────────────

/// Columns taken by the first `n` tabs of the tab bar: each label padded by
/// a space on either side, with a three-column divider between tabs.
pub open spec fn tabs_width(n: nat) -> int
    decreases n,
{
    if n == 0 {
        0
    } else {
        tabs_width((n - 1) as nat) + tab_label_spec(tabs_spec()[n - 1]).len() + 2 + (if n < 3 {
            3int
        } else {
            0int
        })
    }
}

/// The tab under column `x` of a tab bar starting at column `tx`: the last
/// tab starting at or before `x`, and none past the last label.
pub open spec fn tab_at_spec(tx: u16, x: u16) -> Option<Tab> {
    if x >= tx + tabs_width(3) {
        None
    } else if x >= tx + tabs_width(2) {
        Some(Tab::Themes)
    } else if x >= tx + tabs_width(1) {
        Some(Tab::Setup)
    } else {
        Some(Tab::Dashboard)
    }
}

proof fn lemma_tab_widths()
    ensures
        tabs_width(1) == 14,
        tabs_width(2) == 24,
        tabs_width(3) == 32,
{
    reveal_strlit("Dashboard");
    reveal_strlit("Setup");
    reveal_strlit("Themes");
    assert(tabs_spec()[0] == Tab::Dashboard);
    assert(tabs_spec()[1] == Tab::Setup);
    assert(tabs_spec()[2] == Tab::Themes);
    assert("Dashboard"@.len() == 9);
    assert(tab_label_spec(Tab::Dashboard).len() == 9);
    assert(tabs_width(0) == 0);
    assert(tabs_width(1) == 14);
    assert(tabs_width(2) == 24);
    assert(tabs_width(3) == 32);
}

/// The tab a click at column `x` lands on, for a tab bar drawn from column
/// `tx` (the caller has checked that the click is within the bar).
pub fn tab_at(tx: u16, x: u16) -> (r: Option<Tab>)
    ensures
        r == tab_at_spec(tx, x),
{
    proof {
        lemma_tab_widths();
    }
    let all = Tab::all();
    let mut starts: Vec<u32> = Vec::new();
    let mut cursor: u32 = tx as u32;
    let mut i: usize = 0;
    while i < all.len()
        invariant
            all@ == tabs_spec(),
            i <= 3,
            cursor == tx + tabs_width(i as nat),
            starts@.len() == i,
            forall|k: int| 0 <= k < i ==> #[trigger] starts@[k] == tx + tabs_width(k as nat),
            tabs_width(1) == 14,
            tabs_width(2) == 24,
            tabs_width(3) == 32,
        decreases 3 - i,
    {
        starts.push(cursor);
        let w = all[i].label().unicode_len() as u32;
        proof {
            reveal_strlit("Dashboard");
            reveal_strlit("Setup");
            reveal_strlit("Themes");
        }
        cursor = cursor + w + 2;
        if i < all.len() - 1 {
            cursor = cursor + 3;
        }
        i = i + 1;
    }
    let xx = x as u32;
    if xx >= cursor {
        return None;
    }
    let mut idx: usize = 0;
    let mut k: usize = 0;
    while k < starts.len()
        invariant
            k <= starts@.len(),
            starts@.len() == 3,
            forall|j: int| 0 <= j < 3 ==> #[trigger] starts@[j] == tx + tabs_width(j as nat),
            tabs_width(1) == 14,
            tabs_width(2) == 24,
            idx < 3,
            k == 0 ==> idx == 0,
            k > 0 ==> idx == (if k >= 3 && xx >= tx + 24 {
                2usize
            } else if k >= 2 && xx >= tx + 14 {
                1usize
            } else {
                0usize
            }),
        decreases 3 - k,
    {
        if xx >= starts[k] {
            idx = k;
        }
        k = k + 1;
    }
    Some(all[idx])
}


/// A left click on a theme row of the list (below its three-row search
/// bar) selects the theme shown on that row, counting two rows a theme
/// from the first theme visible at the scroll offset: the selection is
/// never above the scroll offset, and the theme's configuration is asked
/// for. A click below the last theme changes nothing.
pub proof fn law_list_click_selects_visible_row(
    old: App,
    new: App,
    x: u16,
    y: u16,
    eff: Effect,
    lx: u16,
    ly: u16,
    lw: u16,
    lh: u16,
)
    requires
        mouse_step(old, new, MouseKind::LeftDown, x, y, eff),
        old.confirm is None,
        old.tab == Tab::Themes,
        !in_region(x, y, old.layout.tab_bar),
        !in_region(x, y, old.layout.sidebar),
        old.layout.list == Some((lx, ly, lw, lh)),
        lx <= x < lx + lw,
        ly + 3 <= y < ly + lh,
    ensures
        old.theme_scroll + (y - ly - 3) / 2 < old.theme_filtered@.len() ==> {
            &&& new.theme_selected == old.theme_scroll + (y - ly - 3) / 2
            &&& new.theme_selected >= old.theme_scroll
            &&& new.focus == Focus::List
            &&& new == (App { theme_selected: new.theme_selected, focus: Focus::List, ..old })
            &&& eff is LoadTheme
        },
        old.theme_scroll + (y - ly - 3) / 2 >= old.theme_filtered@.len() ==> new == old
            && eff is Nothing,
{
    assert(in_region(x, y, old.layout.list));
    assert(old.theme_filtered@.len() == old.theme_filtered.len());
}

/// Each dashboard shortcut key (the item's key hint, in either case) does
/// exactly what Enter does with that item selected (Reset opens a dialog
/// with the same texts); Update Oh My Posh agrees once Oh My Posh is
/// installed. So 's' or 'S' shows the Setup tab
/// and asks for nothing, as Enter on Quick Setup does.
pub proof fn law_dashboard_shortcut_is_enter(
    old: App,
    k: int,
    c: char,
    by_key: App,
    key_eff: Effect,
    by_enter: App,
    enter_eff: Effect,
)
    requires
        old.confirm is None,
        !old.theme_search_editing,
        old.tab == Tab::Dashboard,
        0 <= k < 5,
        k != 3 || old.omp is Some,
        c == dashboard_key_hint_spec(dashboard_items_spec()[k])[0] || c as u32
            == dashboard_key_hint_spec(dashboard_items_spec()[k])[0] as u32 + 32,
        key_step(old, by_key, Key::Char(c), key_eff),
        key_step(App { dashboard_selected: k as usize, ..old }, by_enter, Key::Enter, enter_eff),
    ensures
        k != 4 ==> by_key == (App { dashboard_selected: old.dashboard_selected, ..by_enter }),
        k == 4 ==> by_key == (App {
            confirm: by_key.confirm,
            dashboard_selected: old.dashboard_selected,
            ..by_enter
        }) && (by_key.confirm matches Some(d1) && by_enter.confirm matches Some(d2) && d1.title@
            == d2.title@ && d1.message@ == d2.message@ && d1.action == d2.action
            && d1.confirm_selected == d2.confirm_selected && d1.context@ == d2.context@),
        key_eff == enter_eff,
        k == 0 ==> by_key == (App { tab: Tab::Setup, ..old }) && key_eff is Nothing,
{
    reveal_strlit("S");
    reveal_strlit("T");
    reveal_strlit("F");
    reveal_strlit("U");
    reveal_strlit("R");
    let items = dashboard_items_spec();
    let (up, low) = if k == 0 {
        ('S', 's')
    } else if k == 1 {
        ('T', 't')
    } else if k == 2 {
        ('F', 'f')
    } else if k == 3 {
        ('U', 'u')
    } else {
        ('R', 'r')
    };
    assert(dashboard_key_hint_spec(items[k])[0] == up);
    assert(low as u32 == up as u32 + 32);
    assert(c == up || c == low);
}

} // verus!
