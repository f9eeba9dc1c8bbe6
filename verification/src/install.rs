//! Installing and updating Oh My Posh, configuring shells, and the steps of
//! the setup wizard.  Commands are run by the caller; the library decides
//! which command comes next and what the outcome means.

use vstd::prelude::*;

use crate::platform::{CommandLine, CommandOutcome, Platform};
use crate::shell::{shell_label_spec, ShellInfo};
use crate::text::{concat2, concat3, owned, trim_spec, trim_str};

verus! {

broadcast use vstd::string::group_string_axioms;

/// The result of an operation, with a message for the user.
#[derive(Debug, Clone)]
pub struct OpResult {
    pub success: bool,
    pub message: String,
}

pub open spec fn op_view(r: OpResult) -> (bool, Seq<char>) {
    (r.success, r.message@)
}

/// A command line, by its program and its arguments.
pub open spec fn command_view(c: CommandLine) -> (Seq<char>, Seq<Seq<char>>) {
    (c.program@, c.args@.map_values(|a: String| a@))
}

/// What comes next while installing Oh My Posh.
#[derive(Debug, Clone)]
pub enum InstallStep {
    /// Run this command and report its outcome.
    Run(CommandLine),
    /// The installation is over.
    Finish(OpResult),
}

/// An installation step, by value.
pub enum InstallStepView {
    Run((Seq<char>, Seq<Seq<char>>)),
    Finish((bool, Seq<char>)),
}

pub open spec fn install_step_view(s: InstallStep) -> InstallStepView {
    match s {
        InstallStep::Run(c) => InstallStepView::Run(command_view(c)),
        InstallStep::Finish(r) => InstallStepView::Finish(op_view(r)),
    }
}

pub open spec fn winget_install_spec() -> (Seq<char>, Seq<Seq<char>>) {
    (
        "winget"@,
        seq![
            "install"@,
            "JanDeDobbeleer.OhMyPosh"@,
            "--source"@,
            "winget"@,
            "--accept-package-agreements"@,
            "--accept-source-agreements"@,
        ],
    )
}

pub open spec fn powershell_install_spec() -> (Seq<char>, Seq<Seq<char>>) {
    (
        "powershell"@,
        seq![
            "-NoProfile"@,
            "-ExecutionPolicy"@,
            "Bypass"@,
            "-Command"@,
            "Set-ExecutionPolicy Bypass -Scope Process -Force; Invoke-Expression ((New-Object System.Net.WebClient).DownloadString('https://ohmyposh.dev/install.ps1'))"@,
        ],
    )
}

pub open spec fn brew_install_spec() -> (Seq<char>, Seq<Seq<char>>) {
    ("brew"@, seq!["install"@, "jandedobbeleer/oh-my-posh/oh-my-posh"@])
}

pub open spec fn script_install_spec() -> (Seq<char>, Seq<Seq<char>>) {
    ("bash"@, seq!["-c"@, "curl -s https://ohmyposh.dev/install.sh | bash -s"@])
}

fn winget_install() -> (c: CommandLine)
    ensures
        command_view(c) == winget_install_spec(),
{
    let c = CommandLine {
        program: "winget",
        args: vec![
            owned("install"),
            owned("JanDeDobbeleer.OhMyPosh"),
            owned("--source"),
            owned("winget"),
            owned("--accept-package-agreements"),
            owned("--accept-source-agreements"),
        ],
    };
    assert(command_view(c).1 =~= winget_install_spec().1);
    c
}

fn powershell_install() -> (c: CommandLine)
    ensures
        command_view(c) == powershell_install_spec(),
{
    let c = CommandLine {
        program: "powershell",
        args: vec![
            owned("-NoProfile"),
            owned("-ExecutionPolicy"),
            owned("Bypass"),
            owned("-Command"),
            owned(
                "Set-ExecutionPolicy Bypass -Scope Process -Force; Invoke-Expression ((New-Object System.Net.WebClient).DownloadString('https://ohmyposh.dev/install.ps1'))",
            ),
        ],
    };
    assert(command_view(c).1 =~= powershell_install_spec().1);
    c
}

fn brew_install() -> (c: CommandLine)
    ensures
        command_view(c) == brew_install_spec(),
{
    let c = CommandLine {
        program: "brew",
        args: vec![owned("install"), owned("jandedobbeleer/oh-my-posh/oh-my-posh")],
    };
    assert(command_view(c).1 =~= brew_install_spec().1);
    c
}

fn script_install() -> (c: CommandLine)
    ensures
        command_view(c) == script_install_spec(),
{
    let c = CommandLine {
        program: "bash",
        args: vec![owned("-c"), owned("curl -s https://ohmyposh.dev/install.sh | bash -s")],
    };
    assert(command_view(c).1 =~= script_install_spec().1);
    c
}

/// The verdict on the install script (or the PowerShell installer).
pub open spec fn script_verdict(o: CommandOutcome) -> (bool, Seq<char>) {
    match o {
        CommandOutcome::Ran { success, stderr } => if success {
            (true, "Oh My Posh installed via install script"@)
        } else {
            (false, "Install failed: "@ + trim_spec(stderr@))
        },
        CommandOutcome::NotRun { error } => (false, "Could not run installer: "@ + error@),
    }
}

/// The next installation step on `platform`, given the outcomes of the
/// commands run so far: winget, then the PowerShell installer on Windows;
/// Homebrew, then (only when brew cannot be started) the install script on
/// macOS; the install script on Linux.
pub open spec fn install_omp_spec(platform: Platform, done: Seq<CommandOutcome>) -> InstallStepView {
    match platform {
        Platform::Windows => if done.len() == 0 {
            InstallStepView::Run(winget_install_spec())
        } else if done[0].succeeded() {
            InstallStepView::Finish((true, "Oh My Posh installed via winget"@))
        } else if done.len() == 1 {
            InstallStepView::Run(powershell_install_spec())
        } else {
            InstallStepView::Finish(script_verdict(done[1]))
        },
        Platform::MacOs => if done.len() == 0 {
            InstallStepView::Run(brew_install_spec())
        } else {
            match done[0] {
                CommandOutcome::Ran { success, stderr } => if success {
                    InstallStepView::Finish((true, "Oh My Posh installed via Homebrew"@))
                } else {
                    InstallStepView::Finish((false, "brew install failed: "@ + trim_spec(stderr@)))
                },
                CommandOutcome::NotRun { .. } => if done.len() == 1 {
                    InstallStepView::Run(script_install_spec())
                } else {
                    InstallStepView::Finish(script_verdict(done[1]))
                },
            }
        },
        Platform::Linux => if done.len() == 0 {
            InstallStepView::Run(script_install_spec())
        } else {
            InstallStepView::Finish(script_verdict(done[0]))
        },
    }
}

fn script_result(o: &CommandOutcome) -> (r: OpResult)
    ensures
        op_view(r) == script_verdict(*o),
{
    match o {
        CommandOutcome::Ran { success, stderr } => {
            if *success {
                OpResult { success: true, message: owned("Oh My Posh installed via install script") }
            } else {
                let t = trim_str(stderr.as_str());
                OpResult { success: false, message: concat2("Install failed: ", t.as_str()) }
            }
        },
        CommandOutcome::NotRun { error } => OpResult {
            success: false,
            message: concat2("Could not run installer: ", error.as_str()),
        },
    }
}

/// Install Oh My Posh with the best method for the platform: given the
/// outcomes of the commands run so far, say which command to run next or
/// what the installation came to.
pub fn install_omp(platform: Platform, done: &Vec<CommandOutcome>) -> (r: InstallStep)
    ensures
        install_step_view(r) == install_omp_spec(platform, done@),
{
    match platform {
        Platform::Windows => {
            if done.len() == 0 {
                InstallStep::Run(winget_install())
            } else if done[0].is_success() {
                InstallStep::Finish(
                    OpResult { success: true, message: owned("Oh My Posh installed via winget") },
                )
            } else if done.len() == 1 {
                InstallStep::Run(powershell_install())
            } else {
                InstallStep::Finish(script_result(&done[1]))
            }
        },
        Platform::MacOs => {
            if done.len() == 0 {
                InstallStep::Run(brew_install())
            } else {
                match &done[0] {
                    CommandOutcome::Ran { success, stderr } => {
                        if *success {
                            InstallStep::Finish(
                                OpResult {
                                    success: true,
                                    message: owned("Oh My Posh installed via Homebrew"),
                                },
                            )
                        } else {
                            let t = trim_str(stderr.as_str());
                            InstallStep::Finish(
                                OpResult {
                                    success: false,
                                    message: concat2("brew install failed: ", t.as_str()),
                                },
                            )
                        }
                    },
                    CommandOutcome::NotRun { .. } => {
                        if done.len() == 1 {
                            InstallStep::Run(script_install())
                        } else {
                            InstallStep::Finish(script_result(&done[1]))
                        }
                    },
                }
            }
        },
        Platform::Linux => {
            if done.len() == 0 {
                InstallStep::Run(script_install())
            } else {
                InstallStep::Finish(script_result(&done[0]))
            }
        },
    }
}

// ── Update ───────────────────────────────────────────────────────────────────

pub open spec fn update_command_spec(platform: Platform) -> (Seq<char>, Seq<Seq<char>>) {
    match platform {
        Platform::Windows => (
            "winget"@,
            seq!["upgrade"@, "JanDeDobbeleer.OhMyPosh"@, "--source"@, "winget"@],
        ),
        Platform::MacOs => ("brew"@, seq!["upgrade"@, "oh-my-posh"@]),
        Platform::Linux => script_install_spec(),
    }
}

/// The command that updates Oh My Posh.
pub fn update_command(platform: Platform) -> (c: CommandLine)
    ensures
        command_view(c) == update_command_spec(platform),
{
    match platform {
        Platform::Windows => {
            let c = CommandLine {
                program: "winget",
                args: vec![
                    owned("upgrade"),
                    owned("JanDeDobbeleer.OhMyPosh"),
                    owned("--source"),
                    owned("winget"),
                ],
            };
            assert(command_view(c).1 =~= update_command_spec(platform).1);
            c
        },
        Platform::MacOs => {
            let c = CommandLine { program: "brew", args: vec![owned("upgrade"), owned("oh-my-posh")] };
            assert(command_view(c).1 =~= update_command_spec(platform).1);
            c
        },
        Platform::Linux => script_install(),
    }
}

pub open spec fn update_omp_spec(platform: Platform, outcome: CommandOutcome) -> (bool, Seq<char>) {
    if outcome.succeeded() {
        (true, "Oh My Posh updated"@)
    } else {
        (
            false,
            match platform {
                Platform::Windows => "Update failed - try manually: winget upgrade JanDeDobbeleer.OhMyPosh"@,
                Platform::MacOs => "Update failed - try: brew upgrade oh-my-posh"@,
                Platform::Linux => "Update failed - try: curl -s https://ohmyposh.dev/install.sh | bash -s"@,
            },
        )
    }
}

/// The verdict on an update, from the outcome of [`update_command`].
pub fn update_omp(platform: Platform, outcome: &CommandOutcome) -> (r: OpResult)
    ensures
        op_view(r) == update_omp_spec(platform, *outcome),
{
    if outcome.is_success() {
        OpResult { success: true, message: owned("Oh My Posh updated") }
    } else {
        let m = match platform {
            Platform::Windows => owned(
                "Update failed - try manually: winget upgrade JanDeDobbeleer.OhMyPosh",
            ),
            Platform::MacOs => owned("Update failed - try: brew upgrade oh-my-posh"),
            Platform::Linux => owned(
                "Update failed - try: curl -s https://ohmyposh.dev/install.sh | bash -s",
            ),
        };
        OpResult { success: false, message: m }
    }
}

// ── Shell configuration ──────────────────────────────────────────────────────

pub open spec fn write_result_view(r: Result<(), String>) -> Result<(), Seq<char>> {
    match r {
        Ok(()) => Ok(()),
        Err(e) => Err(e@),
    }
}

pub open spec fn configure_shell_spec(info: ShellInfo, written: Result<(), Seq<char>>) -> (
    bool,
    Seq<char>,
) {
    match written {
        Ok(()) => (
            true,
            shell_label_spec(info.shell) + " configured - restart your shell to see the new prompt"@,
        ),
        Err(e) => (false, "Failed to update "@ + info.profile_path@ + ": "@ + e),
    }
}

/// The verdict on configuring a shell, from the result of writing the init
/// line (see `write_init_to_profile`) to its profile.
pub fn configure_shell(shell_info: &ShellInfo, written: &Result<(), String>) -> (r: OpResult)
    ensures
        op_view(r) == configure_shell_spec(*shell_info, write_result_view(*written)),
{
    match written {
        Ok(()) => OpResult {
            success: true,
            message: concat2(
                shell_info.shell.label(),
                " configured - restart your shell to see the new prompt",
            ),
        },
        Err(e) => {
            let mut m = concat3("Failed to update ", shell_info.profile_path.as_str(), ": ");
            m.append(e.as_str());
            OpResult { success: false, message: m }
        },
    }
}

pub open spec fn unconfigure_shell_spec(info: ShellInfo, written: Result<(), Seq<char>>) -> (
    bool,
    Seq<char>,
) {
    match written {
        Ok(()) => (true, shell_label_spec(info.shell) + " unconfigured"@),
        Err(e) => (false, "Failed to update "@ + info.profile_path@ + ": "@ + e),
    }
}

/// The verdict on removing Oh My Posh from a shell, from the result of
/// rewriting its profile (see `remove_init_from_profile`).
pub fn unconfigure_shell(shell_info: &ShellInfo, written: &Result<(), String>) -> (r: OpResult)
    ensures
        op_view(r) == unconfigure_shell_spec(*shell_info, write_result_view(*written)),
{
    match written {
        Ok(()) => OpResult {
            success: true,
            message: concat2(shell_info.shell.label(), " unconfigured"),
        },
        Err(e) => {
            let mut m = concat3("Failed to update ", shell_info.profile_path.as_str(), ": ");
            m.append(e.as_str());
            OpResult { success: false, message: m }
        },
    }
}

// ── Setup wizard steps ───────────────────────────────────────────────────────

#[derive(Debug, Clone, Copy, PartialEq, Eq, Structural)]
pub enum StepStatus {
    Pending,
    InProgress,
    Done,
    Failed,
    Skipped,
}

pub open spec fn step_icon_spec(s: StepStatus) -> Seq<char> {
    match s {
        StepStatus::Pending => "○"@,
        StepStatus::InProgress => "◉"@,
        StepStatus::Done => "✓"@,
        StepStatus::Failed => "✗"@,
        StepStatus::Skipped => "⊘"@,
    }
}

pub open spec fn step_label_spec(s: StepStatus) -> Seq<char> {
    match s {
        StepStatus::Pending => "Pending"@,
        StepStatus::InProgress => "In progress…"@,
        StepStatus::Done => "Complete"@,
        StepStatus::Failed => "Failed"@,
        StepStatus::Skipped => "Skipped"@,
    }
}

impl StepStatus {
    pub fn icon(&self) -> (s: &'static str)
        ensures
            s@ == step_icon_spec(*self),
    {
        match self {
            StepStatus::Pending => "○",
            StepStatus::InProgress => "◉",
            StepStatus::Done => "✓",
            StepStatus::Failed => "✗",
            StepStatus::Skipped => "⊘",
        }
    }

    pub fn label(&self) -> (s: &'static str)
        ensures
            s@ == step_label_spec(*self),
    {
        match self {
            StepStatus::Pending => "Pending",
            StepStatus::InProgress => "In progress…",
            StepStatus::Done => "Complete",
            StepStatus::Failed => "Failed",
            StepStatus::Skipped => "Skipped",
        }
    }
}

/// A step of the setup wizard.
#[derive(Debug, Clone)]
pub struct SetupStep {
    pub label: String,
    pub description: String,
    pub status: StepStatus,
}

pub open spec fn step_view(s: SetupStep) -> (Seq<char>, Seq<char>, StepStatus) {
    (s.label@, s.description@, s.status)
}

/// The four wizard steps: install Oh My Posh, install a Nerd Font, choose a
/// theme, configure shells; the first two start done when already so.
pub open spec fn setup_steps_spec(omp_installed: bool, has_font: bool) -> Seq<
    (Seq<char>, Seq<char>, StepStatus),
> {
    seq![
        (
            "Install Oh My Posh"@,
            "Download and install the Oh My Posh binary"@,
            if omp_installed {
                StepStatus::Done
            } else {
                StepStatus::Pending
            },
        ),
        (
            "Install a Nerd Font"@,
            "Icons require a Nerd Font - we'll install one for you"@,
            if has_font {
                StepStatus::Done
            } else {
                StepStatus::Pending
            },
        ),
        ("Choose a Theme"@, "Pick a prompt theme that suits your style"@, StepStatus::Pending),
        (
            "Configure Shell(s)"@,
            "Add Oh My Posh to your shell profile so it loads automatically"@,
            StepStatus::Pending,
        ),
    ]
}

/// Create the initial setup wizard steps.
pub fn create_setup_steps(omp_installed: bool, has_font: bool) -> (v: Vec<SetupStep>)
    ensures
        v@.map_values(|s: SetupStep| step_view(s)) == setup_steps_spec(omp_installed, has_font),
{
    let v = vec![
        SetupStep {
            label: owned("Install Oh My Posh"),
            description: owned("Download and install the Oh My Posh binary"),
            status: if omp_installed {
                StepStatus::Done
            } else {
                StepStatus::Pending
            },
        },
        SetupStep {
            label: owned("Install a Nerd Font"),
            description: owned("Icons require a Nerd Font - we'll install one for you"),
            status: if has_font {
                StepStatus::Done
            } else {
                StepStatus::Pending
            },
        },
        SetupStep {
            label: owned("Choose a Theme"),
            description: owned("Pick a prompt theme that suits your style"),
            status: StepStatus::Pending,
        },
        SetupStep {
            label: owned("Configure Shell(s)"),
            description: owned("Add Oh My Posh to your shell profile so it loads automatically"),
            status: StepStatus::Pending,
        },
    ];
    assert(v@.map_values(|s: SetupStep| step_view(s)) =~= setup_steps_spec(
        omp_installed,
        has_font,
    ));
    v
}

} // verus!
