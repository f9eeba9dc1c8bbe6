//! The curated list of Nerd Fonts and the verdict on installing one with
//! `oh-my-posh font install <name>`.

use vstd::prelude::*;

use crate::platform::{CommandLine, CommandOutcome};
use crate::text::{concat2, concat3, owned, trim_spec, trim_str};

verus! {

broadcast use vstd::string::group_string_axioms;

/// A Nerd Font the manager offers.
#[derive(Debug, Clone, Copy)]
pub struct NerdFont {
    /// The name as passed to `oh-my-posh font install <name>`.
    pub name: &'static str,
    /// Human-readable display name.
    pub display: &'static str,
    /// Short description / style.
    pub description: &'static str,
    /// Whether this is a recommended default.
    pub recommended: bool,
}

/// The curated font list, in display order.
pub open spec fn font_catalog_spec() -> Seq<NerdFont> {
    seq![
        NerdFont { name: "Meslo", display: "MesloLGS Nerd Font", description: "Recommended by Oh My Posh — clean and reliable", recommended: true },
        NerdFont { name: "FiraCode", display: "FiraCode Nerd Font", description: "Popular ligature-rich coding font", recommended: true },
        NerdFont { name: "CascadiaCode", display: "Cascadia Code Nerd Font", description: "Microsoft's default Windows Terminal font", recommended: true },
        NerdFont { name: "JetBrainsMono", display: "JetBrains Mono Nerd Font", description: "JetBrains' developer-friendly monospace", recommended: false },
        NerdFont { name: "Hack", display: "Hack Nerd Font", description: "Classic clean hacking font", recommended: false },
        NerdFont { name: "SourceCodePro", display: "Source Code Pro Nerd Font", description: "Adobe's open-source coding font", recommended: false },
        NerdFont { name: "UbuntuMono", display: "Ubuntu Mono Nerd Font", description: "Ubuntu's signature monospace", recommended: false },
        NerdFont { name: "RobotoMono", display: "Roboto Mono Nerd Font", description: "Google's Roboto family monospace", recommended: false },
        NerdFont { name: "Inconsolata", display: "Inconsolata Nerd Font", description: "Raph Levien's humanist monospace", recommended: false },
        NerdFont { name: "DejaVuSansMono", display: "DejaVu Sans Mono NF", description: "Extended Unicode coverage", recommended: false },
        NerdFont { name: "Iosevka", display: "Iosevka Nerd Font", description: "Narrow, efficient coding font", recommended: false },
        NerdFont { name: "VictorMono", display: "Victor Mono Nerd Font", description: "Elegant with cursive italics", recommended: false },
        NerdFont { name: "IBMPlexMono", display: "IBM Plex Mono Nerd Font", description: "IBM's modern monospace family", recommended: false },
        NerdFont { name: "SpaceMono", display: "Space Mono Nerd Font", description: "Google Fonts geometric monospace", recommended: false },
        NerdFont { name: "Agave", display: "Agave Nerd Font", description: "Small, pleasant, rounded", recommended: false },
        NerdFont { name: "ComicShannsMono", display: "Comic Shanns Nerd Font", description: "Playful Comic Sans alternative for code", recommended: false },
        NerdFont { name: "Monaspace", display: "Monaspace Nerd Font", description: "GitHub's superfamily of coding fonts", recommended: false },
        NerdFont { name: "GeistMono", display: "Geist Mono Nerd Font", description: "Vercel's modern monospace", recommended: false },
    ]
}

/// The curated font list.
pub fn font_catalog() -> (v: Vec<NerdFont>)
    ensures
        v@ == font_catalog_spec(),
{
    vec![
        NerdFont { name: "Meslo", display: "MesloLGS Nerd Font", description: "Recommended by Oh My Posh — clean and reliable", recommended: true },
        NerdFont { name: "FiraCode", display: "FiraCode Nerd Font", description: "Popular ligature-rich coding font", recommended: true },
        NerdFont { name: "CascadiaCode", display: "Cascadia Code Nerd Font", description: "Microsoft's default Windows Terminal font", recommended: true },
        NerdFont { name: "JetBrainsMono", display: "JetBrains Mono Nerd Font", description: "JetBrains' developer-friendly monospace", recommended: false },
        NerdFont { name: "Hack", display: "Hack Nerd Font", description: "Classic clean hacking font", recommended: false },
        NerdFont { name: "SourceCodePro", display: "Source Code Pro Nerd Font", description: "Adobe's open-source coding font", recommended: false },
        NerdFont { name: "UbuntuMono", display: "Ubuntu Mono Nerd Font", description: "Ubuntu's signature monospace", recommended: false },
        NerdFont { name: "RobotoMono", display: "Roboto Mono Nerd Font", description: "Google's Roboto family monospace", recommended: false },
        NerdFont { name: "Inconsolata", display: "Inconsolata Nerd Font", description: "Raph Levien's humanist monospace", recommended: false },
        NerdFont { name: "DejaVuSansMono", display: "DejaVu Sans Mono NF", description: "Extended Unicode coverage", recommended: false },
        NerdFont { name: "Iosevka", display: "Iosevka Nerd Font", description: "Narrow, efficient coding font", recommended: false },
        NerdFont { name: "VictorMono", display: "Victor Mono Nerd Font", description: "Elegant with cursive italics", recommended: false },
        NerdFont { name: "IBMPlexMono", display: "IBM Plex Mono Nerd Font", description: "IBM's modern monospace family", recommended: false },
        NerdFont { name: "SpaceMono", display: "Space Mono Nerd Font", description: "Google Fonts geometric monospace", recommended: false },
        NerdFont { name: "Agave", display: "Agave Nerd Font", description: "Small, pleasant, rounded", recommended: false },
        NerdFont { name: "ComicShannsMono", display: "Comic Shanns Nerd Font", description: "Playful Comic Sans alternative for code", recommended: false },
        NerdFont { name: "Monaspace", display: "Monaspace Nerd Font", description: "GitHub's superfamily of coding fonts", recommended: false },
        NerdFont { name: "GeistMono", display: "Geist Mono Nerd Font", description: "Vercel's modern monospace", recommended: false },
    ]
}

/// The result of a font installation.
#[derive(Debug, Clone)]
pub struct FontInstallResult {
    pub success: bool,
    pub message: String,
}

/// The command that installs a Nerd Font.
pub fn install_font_command(font_name: &str) -> (c: CommandLine)
    ensures
        c.program@ == "oh-my-posh"@,
        c.args.len() == 3,
        c.args@[0]@ == "font"@,
        c.args@[1]@ == "install"@,
        c.args@[2]@ == font_name@,
{
    CommandLine { program: "oh-my-posh", args: vec![owned("font"), owned("install"), owned(font_name)] }
}

/// What an installation attempt reports: success, or why it failed.
pub open spec fn install_font_spec(font_name: Seq<char>, outcome: CommandOutcome) -> (bool, Seq<char>) {
    match outcome {
        CommandOutcome::Ran { success, stderr } => if success {
            (true, "Successfully installed "@ + font_name + " Nerd Font"@)
        } else {
            (false, "Font install failed: "@ + trim_spec(stderr@))
        },
        CommandOutcome::NotRun { error } => (false, "Could not run oh-my-posh: "@ + error@),
    }
}

/// The verdict on installing `font_name`, from the outcome of
/// [`install_font_command`].
pub fn install_font(font_name: &str, outcome: &CommandOutcome) -> (r: FontInstallResult)
    ensures
        (r.success, r.message@) == install_font_spec(font_name@, *outcome),
{
    match outcome {
        CommandOutcome::Ran { success, stderr } => {
            if *success {
                FontInstallResult {
                    success: true,
                    message: concat3("Successfully installed ", font_name, " Nerd Font"),
                }
            } else {
                let t = trim_str(stderr.as_str());
                FontInstallResult { success: false, message: concat2("Font install failed: ", t.as_str()) }
            }
        },
        CommandOutcome::NotRun { error } => FontInstallResult {
            success: false,
            message: concat2("Could not run oh-my-posh: ", error.as_str()),
        },
    }
}

} // verus!
