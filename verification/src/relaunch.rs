//! The command lines that bring the session back, and the consent dialog that it may
//! show when it starts.
use crate::config::{ClaudeConfig, Config, NamesConfig};
use crate::text;
use crate::time;
use vstd::prelude::*;
use vstd::string::{StrSliceExecFns, StringExecFns};

verus! {

/// Where a launcher may be found, as the environment and the disk show it.
#[derive(Debug, Clone)]
pub struct LauncherSites {
    /// The launcher that the operator names.
    pub claude_bin: Option<String>,
    /// The home directory.
    pub home: Option<String>,
    /// Whether the native install is there, below the home directory.
    pub native_install_exists: bool,
    /// Whether the package manager's install is there, below the home directory.
    pub package_install_exists: bool,
    /// Whether the system-wide launcher is there.
    pub system_install_exists: bool,
    /// The launcher that waits for a runnable binary, as the operator names it.
    pub relaunch_exec: Option<String>,
    /// Whether that launcher, or the default one, is there.
    pub relaunch_exec_exists: bool,
}

/// A path below a directory, as paths are joined on Unix.
pub open spec fn joined(dir: Seq<char>, rest: Seq<char>) -> Seq<char> {
    if dir.len() == 0 {
        rest
    } else if dir.last() == '/' {
        dir + rest
    } else {
        dir + "/"@ + rest
    }
}

/// Joins a directory and a relative path.
pub fn join_path(dir: &str, rest: &str) -> (r: String)
    ensures
        r@ == joined(dir@, rest@),
{
    let n: usize = dir.unicode_len();
    if n == 0 {
        rest.to_owned()
    } else if dir.get_char(n - 1) == '/' {
        dir.to_owned().concat(rest)
    } else {
        dir.to_owned().concat("/").concat(rest)
    }
}

/// The operator's own launcher, where one is named.
pub open spec fn named_launcher(sites: LauncherSites) -> Option<Seq<char>> {
    match sites.claude_bin {
        Some(bin) => if bin@.len() > 0 {
            Some(bin@)
        } else {
            None
        },
        None => None,
    }
}

/// The launcher of an installed session: the operator's own, then the native install, the
/// package manager's, the system-wide one, and last the bare name.
pub open spec fn installed_launcher(names: NamesConfig, sites: LauncherSites) -> Seq<char> {
    match named_launcher(sites) {
        Some(bin) => bin,
        None => if sites.home is Some && sites.native_install_exists {
            joined(sites.home->0@, ".local/bin/"@ + names.program@)
        } else if sites.home is Some && sites.package_install_exists {
            joined(sites.home->0@, ".npm-global/bin/"@ + names.program@)
        } else if sites.system_install_exists {
            "/usr/bin/"@ + names.program@
        } else {
            names.program@
        },
    }
}

/// The waiting launcher's path.
pub open spec fn waiting_launcher(names: NamesConfig, sites: LauncherSites) -> Seq<char> {
    match sites.relaunch_exec {
        Some(shim) => shim@,
        None => "/usr/local/bin/"@ + names.program@ + "-relaunch-exec"@,
    }
}

/// The launcher of a relaunch: the operator's own, then the one that waits for a runnable
/// binary, then that of the installed session.
pub open spec fn relaunch_launcher(names: NamesConfig, sites: LauncherSites) -> Seq<char> {
    match named_launcher(sites) {
        Some(bin) => bin,
        None => if waiting_launcher(names, sites).len() > 0 && sites.relaunch_exec_exists {
            waiting_launcher(names, sites)
        } else {
            installed_launcher(names, sites)
        },
    }
}

/// The launcher of an installed session.
pub fn resolve_claude_bin(names: &NamesConfig, sites: &LauncherSites) -> (r: String)
    ensures
        r@ == installed_launcher(*names, *sites),
{
    if let Some(bin) = &sites.claude_bin {
        if bin.as_str().unicode_len() > 0 {
            return bin.as_str().to_owned();
        }
    }
    if let Some(home) = &sites.home {
        if sites.native_install_exists {
            return join_path(
                home.as_str(),
                ".local/bin/".to_owned().concat(names.program.as_str()).as_str(),
            );
        }
        if sites.package_install_exists {
            return join_path(
                home.as_str(),
                ".npm-global/bin/".to_owned().concat(names.program.as_str()).as_str(),
            );
        }
    }
    if sites.system_install_exists {
        "/usr/bin/".to_owned().concat(names.program.as_str())
    } else {
        names.program.clone()
    }
}

/// The path at which the waiting launcher is looked for.
pub fn waiting_launcher_path(names: &NamesConfig, sites: &LauncherSites) -> (r: String)
    ensures
        r@ == waiting_launcher(*names, *sites),
{
    match &sites.relaunch_exec {
        Some(shim) => shim.as_str().to_owned(),
        None => "/usr/local/bin/".to_owned().concat(names.program.as_str()).concat(
            "-relaunch-exec",
        ),
    }
}

/// The launcher of a relaunch.
pub fn resolve_relaunch_bin(names: &NamesConfig, sites: &LauncherSites) -> (r: String)
    ensures
        r@ == relaunch_launcher(*names, *sites),
{
    if let Some(bin) = &sites.claude_bin {
        if bin.as_str().unicode_len() > 0 {
            return bin.as_str().to_owned();
        }
    }
    let shim = waiting_launcher_path(names, sites);
    if shim.as_str().unicode_len() > 0 && sites.relaunch_exec_exists {
        shim
    } else {
        resolve_claude_bin(names, sites)
    }
}

/// The last words of a command line: resume a given session, or continue the last one.
pub open spec fn session_selector(session_id: Option<Seq<char>>) -> Seq<char> {
    match session_id {
        Some(sid) => " --resume "@ + sid,
        None => " --continue"@,
    }
}

/// The command line of a restart after a crash.
pub open spec fn restart_line(bin: Seq<char>, session_id: Option<Seq<char>>) -> Seq<char> {
    bin + " --dangerously-skip-permissions"@ + session_selector(session_id)
}

/// The command line of a relaunch after an update.
pub open spec fn relaunch_line(
    bin: Seq<char>,
    settings: Option<Seq<char>>,
    plugin_dir: Option<Seq<char>>,
    session_id: Option<Seq<char>>,
) -> Seq<char> {
    let with_settings = match settings {
        Some(path) => if path.len() > 0 {
            bin + " --setting-sources project,local --settings "@ + path
        } else {
            bin
        },
        None => bin,
    };
    let with_plugin = match plugin_dir {
        Some(dir) => with_settings + " --plugin-dir "@ + dir,
        None => with_settings,
    };
    with_plugin + " --dangerously-skip-permissions"@ + session_selector(session_id)
}

/// The words that pick the session.
fn selector_text(session_id: Option<&str>) -> (r: String)
    ensures
        r@ == session_selector(time::opt_str_view(session_id)),
{
    match session_id {
        Some(sid) => " --resume ".to_owned().concat(sid),
        None => " --continue".to_owned(),
    }
}

/// Writes the command line of a restart after a crash.
pub fn restart_launch_line(bin: &str, session_id: Option<&str>) -> (r: String)
    ensures
        r@ == restart_line(bin@, time::opt_str_view(session_id)),
{
    let selector = selector_text(session_id);
    bin.to_owned().concat(" --dangerously-skip-permissions").concat(selector.as_str())
}

/// Adds the settings file, where one is named.
fn with_settings(bin: &str, settings: Option<&str>) -> (r: String)
    ensures
        r@ == (match settings {
            Some(path) => if path@.len() > 0 {
                bin@ + " --setting-sources project,local --settings "@ + path@
            } else {
                bin@
            },
            None => bin@,
        }),
{
    match settings {
        Some(path) => {
            if path.unicode_len() > 0 {
                bin.to_owned().concat(" --setting-sources project,local --settings ").concat(path)
            } else {
                bin.to_owned()
            }
        },
        None => bin.to_owned(),
    }
}

/// Writes the command line of a relaunch after an update. `plugin_dir` is the plugin
/// directory where there is one.
pub fn build_relaunch_claude_argv(
    bin: &str,
    settings: Option<&str>,
    plugin_dir: Option<&str>,
    session_id: Option<&str>,
) -> (r: String)
    ensures
        r@ == relaunch_line(
            bin@,
            time::opt_str_view(settings),
            time::opt_str_view(plugin_dir),
            time::opt_str_view(session_id),
        ),
{
    let base = with_settings(bin, settings);
    let selector = selector_text(session_id);
    let line = match plugin_dir {
        Some(dir) => base.concat(" --plugin-dir ").concat(dir),
        None => base,
    };
    line.concat(" --dangerously-skip-permissions").concat(selector.as_str())
}

/// A shell line that runs the script where it is still there, and the launch itself where
/// it is not.
pub open spec fn inject_line(script: Seq<char>, launch: Seq<char>) -> Seq<char> {
    "[ -f "@ + script + " ] && bash "@ + script + " || { "@ + launch + "; }"@
}

/// Writes the shell line that starts the relaunch in the pane.
pub fn build_relaunch_inject_cmd(script_path: &str, launch: &str) -> (r: String)
    ensures
        r@ == inject_line(script_path@, launch@),
{
    "[ -f ".to_owned().concat(script_path).concat(" ] && bash ").concat(script_path).concat(
        " || { ",
    ).concat(launch).concat("; }")
}

/// The script of a relaunch: home, the launch, and a note of how it ended.
pub open spec fn script_text(names: NamesConfig, launch: Seq<char>, purpose: Seq<char>) -> Seq<char> {
    "#!/bin/bash\ncd $HOME\n"@ + launch + "\necho \"\\n["@ + names.daemon@ + "-"@ + purpose + "] "@
        + names.short@ + " exited with code $?\"\n"@
}

/// The launch that stands in for the script, typed into the pane.
pub open spec fn inline_launch(launch: Seq<char>) -> Seq<char> {
    "cd $HOME && "@ + launch
}

/// What a relaunch writes to disk, and what it types into the pane.
#[derive(Debug, Clone)]
pub struct RelaunchPlan {
    /// Contents of the relaunch script.
    pub script: String,
    /// The line typed into the pane.
    pub inject: String,
}

/// Plans a relaunch of `launch` by the script at `script_path`; `purpose` names the caller in
/// the script's last words.
pub fn plan_relaunch(names: &NamesConfig, script_path: &str, launch: &str, purpose: &str) -> (r:
    RelaunchPlan)
    ensures
        r.script@ == script_text(*names, launch@, purpose@),
        r.inject@ == inject_line(script_path@, inline_launch(launch@)),
{
    let script = "#!/bin/bash\ncd $HOME\n".to_owned().concat(launch).concat("\necho \"\\n[").concat(
        names.daemon.as_str(),
    ).concat("-").concat(purpose).concat("] ").concat(names.short.as_str()).concat(
        " exited with code $?\"\n",
    );
    let inline = "cd $HOME && ".to_owned().concat(launch);
    let inject = build_relaunch_inject_cmd(script_path, inline.as_str());
    RelaunchPlan { script, inject }
}

/// Plans the restart of a crashed session, with the session id that its pane showed.
pub fn plan_restart(config: &Config, sites: &LauncherSites, session_id: Option<&str>) -> (r:
    RelaunchPlan)
    ensures
        ({
            let launch = restart_line(
                relaunch_launcher(config.names, *sites),
                time::opt_str_view(session_id),
            );
            &&& r.script@ == script_text(config.names, launch, "relaunch"@)
            &&& r.inject@ == inject_line(config.claude.relaunch_script@, inline_launch(launch))
        }),
{
    let bin = resolve_relaunch_bin(&config.names, sites);
    let launch = restart_launch_line(bin.as_str(), session_id);
    plan_relaunch(
        &config.names,
        config.claude.relaunch_script.as_str(),
        launch.as_str(),
        "relaunch",
    )
}

/// White space within a command line: tab, line feed, vertical tab, form feed, carriage return
/// and space.
pub open spec fn is_gap(c: char) -> bool {
    '\t' <= c <= '\r' || c == ' '
}

/// A character of a session id: a digit, a letter from `a` to `f`, or a hyphen.
pub open spec fn is_id_char(c: char) -> bool {
    text::is_digit(c) || 'a' <= c <= 'f' || c == '-'
}

/// At `at` the text holds `--resume`, then a gap that ends at `id`, and at `id` 36 characters
/// of a session id.
pub open spec fn resume_shown(hay: Seq<char>, at: int, id: int) -> bool {
    let gap = at + "--resume"@.len();
    &&& text::occurs_at(hay, "--resume"@, at)
    &&& gap < id
    &&& id + 36 <= hay.len()
    &&& forall|j: int| gap <= j < id ==> is_gap(#[trigger] hay[j])
    &&& forall|j: int| id <= j < id + 36 ==> is_id_char(#[trigger] hay[j])
}

/// `found` is the first session id that the text shows after `--resume`, or nothing where it
/// shows none.
pub open spec fn is_shown_session(hay: Seq<char>, found: Option<Seq<char>>) -> bool {
    match found {
        Some(sid) => exists|at: int, id: int| #[trigger]
            resume_shown(hay, at, id) && sid == hay.subrange(id, id + 36) && forall|a: int, i: int|
                a < at ==> !#[trigger] resume_shown(hay, a, i),
        None => forall|at: int, id: int| !#[trigger] resume_shown(hay, at, id),
    }
}

/// Wraps `regex_lite::Regex::new`, `Regex::captures` and `Captures::get`: the first group of
/// the leftmost match. What is trusted is what this one pattern matches: `--resume`, one or
/// more characters of `\s`, which the crate documents as `[\t\n\v\f\r ]`, and as the group 36
/// characters of `[0-9a-f-]`.
#[verifier::external_body]
fn capture_first_group(pattern: &str, hay: &str) -> (r: Option<String>)
    requires
        pattern@ == "--resume\\s+([0-9a-f-]{36})"@,
    ensures
        is_shown_session(hay@, time::opt_string_view(r)),
{
    let re = regex_lite::Regex::new(pattern).ok()?;
    let caps = re.captures(hay)?;
    Some(caps.get(1)?.as_str().to_owned())
}

/// Finds the session id in a pane's history.
pub fn find_session_id(history: &str) -> (r: Option<String>)
    ensures
        is_shown_session(history@, time::opt_string_view(r)),
{
    capture_first_group("--resume\\s+([0-9a-f-]{36})", history)
}

/// A history shows at most one first session id, and it is 36 characters long.
pub proof fn shown_session_is_unique(
    hay: Seq<char>,
    one: Option<Seq<char>>,
    other: Option<Seq<char>>,
)
    requires
        is_shown_session(hay, one),
        is_shown_session(hay, other),
    ensures
        one == other,
        one matches Some(sid) ==> sid.len() == 36,
{
    if one is Some && other is Some {
        let (a, i) = choose|at: int, id: int| #[trigger]
            resume_shown(hay, at, id) && one->0 == hay.subrange(id, id + 36) && forall|a: int, i: int|
                a < at ==> !#[trigger] resume_shown(hay, a, i);
        let (b, j) = choose|at: int, id: int| #[trigger]
            resume_shown(hay, at, id) && other->0 == hay.subrange(id, id + 36) && forall|
                a: int,
                i: int,
            | a < at ==> !#[trigger] resume_shown(hay, a, i);
        assert(resume_shown(hay, a, i) && resume_shown(hay, b, j));
        assert(a == b);
        if i < j {
            assert(is_gap(hay[i]) && is_id_char(hay[i]));
        }
        if j < i {
            assert(is_gap(hay[j]) && is_id_char(hay[j]));
        }
    }
}

/// How often the consent dialog is accepted at most.
pub const BYPASS_DIALOG_MAX_ACCEPT_ATTEMPTS: u32 = 3;

/// How the wait for the consent dialog ended.
#[derive(Debug, Clone, Copy, PartialEq, Eq, Structural)]
pub enum BypassDialogGate {
    /// No dialog stands in the way.
    Proceed,
    /// The dialog was accepted, and the session is at a prompt.
    Accepted,
    /// The session never came to a prompt: nothing may be typed.
    Stuck,
}

/// What a capture of the pane shows.
#[derive(Debug, Clone, Copy, PartialEq, Eq, Structural)]
pub enum PaneSight {
    /// The pane could not be captured.
    Unseen,
    /// The consent dialog.
    Dialog,
    /// An idle prompt, and no dialog.
    IdlePrompt,
    /// Something else.
    Busy,
}

/// Where the wait for the consent dialog stands.
#[derive(Debug, Clone, Copy, PartialEq, Eq, Structural)]
pub enum DialogPhase {
    /// The dialog has not been seen.
    Appearing,
    /// The dialog was seen, and accepted so many times.
    Settling {
        /// How often it was accepted.
        attempts: u32,
    },
}

/// What to do next about the consent dialog.
#[derive(Debug, Clone, Copy, PartialEq, Eq, Structural)]
pub enum DialogStep {
    /// The wait is over.
    Done {
        /// How it ended.
        gate: BypassDialogGate,
    },
    /// Begin the second wait, with a fresh deadline, at once.
    BeginSettling,
    /// Look again after so many seconds.
    Wait {
        /// How long to wait.
        secs: u64,
    },
    /// Accept the dialog, then look again after so many seconds.
    Accept {
        /// Where the wait stands then.
        next: DialogPhase,
        /// How long to wait.
        secs: u64,
    },
}

/// Whether the dialog's acceptance is recorded before a relaunch.
pub fn pre_accept_bypass_permissions(config: &ClaudeConfig) -> (r: bool)
    ensures
        r == (config.handle_bypass_dialog && config.pre_accept_bypass_dialog),
{
    config.handle_bypass_dialog && config.pre_accept_bypass_dialog
}

/// How the wait begins: not at all where the dialog is not handled.
pub fn begin_bypass_dialog(config: &ClaudeConfig) -> (r: Option<DialogPhase>)
    ensures
        config.handle_bypass_dialog ==> r == Some(DialogPhase::Appearing),
        !config.handle_bypass_dialog ==> r is None,
{
    if config.handle_bypass_dialog {
        Some(DialogPhase::Appearing)
    } else {
        None
    }
}

/// What to do about the consent dialog.
pub open spec fn dialog_step(phase: DialogPhase, expired: bool, sight: PaneSight) -> DialogStep {
    match phase {
        DialogPhase::Appearing => if expired || sight == PaneSight::IdlePrompt {
            DialogStep::Done { gate: BypassDialogGate::Proceed }
        } else if sight == PaneSight::Dialog {
            DialogStep::BeginSettling
        } else {
            DialogStep::Wait { secs: 1 }
        },
        DialogPhase::Settling { attempts } => if expired {
            DialogStep::Done { gate: BypassDialogGate::Stuck }
        } else if sight == PaneSight::IdlePrompt {
            DialogStep::Done { gate: BypassDialogGate::Accepted }
        } else if sight == PaneSight::Dialog && attempts < BYPASS_DIALOG_MAX_ACCEPT_ATTEMPTS {
            DialogStep::Accept {
                next: DialogPhase::Settling { attempts: (attempts + 1) as u32 },
                secs: 2,
            }
        } else {
            DialogStep::Wait { secs: 1 }
        },
    }
}

/// Decides what to do about the consent dialog. `expired` says that this phase's deadline has
/// passed; what the pane shows then is not looked at.
pub fn settle_bypass_permissions_dialog(phase: DialogPhase, expired: bool, sight: PaneSight) -> (r:
    DialogStep)
    ensures
        r == dialog_step(phase, expired, sight),
{
    match phase {
        DialogPhase::Appearing => {
            if expired {
                return DialogStep::Done { gate: BypassDialogGate::Proceed };
            }
            match sight {
                PaneSight::Dialog => DialogStep::BeginSettling,
                PaneSight::IdlePrompt => DialogStep::Done { gate: BypassDialogGate::Proceed },
                _ => DialogStep::Wait { secs: 1 },
            }
        },
        DialogPhase::Settling { attempts } => {
            if expired {
                return DialogStep::Done { gate: BypassDialogGate::Stuck };
            }
            match sight {
                PaneSight::Dialog => {
                    if attempts < BYPASS_DIALOG_MAX_ACCEPT_ATTEMPTS {
                        DialogStep::Accept {
                            next: DialogPhase::Settling { attempts: attempts + 1 },
                            secs: 2,
                        }
                    } else {
                        DialogStep::Wait { secs: 1 }
                    }
                },
                PaneSight::IdlePrompt => DialogStep::Done { gate: BypassDialogGate::Accepted },
                _ => DialogStep::Wait { secs: 1 },
            }
        },
    }
}

/// Where the wait stands after a step.
pub open spec fn phase_after(phase: DialogPhase, step: DialogStep) -> DialogPhase {
    match step {
        DialogStep::BeginSettling => DialogPhase::Settling { attempts: 0 },
        DialogStep::Accept { next, secs } => next,
        _ => phase,
    }
}

/// How often the dialog was accepted in a run over what the pane showed, from a phase on.
pub open spec fn accepts(phase: DialogPhase, shown: Seq<(bool, PaneSight)>) -> nat
    decreases shown.len(),
{
    if shown.len() == 0 {
        0
    } else {
        let step = dialog_step(phase, shown[0].0, shown[0].1);
        if step is Done {
            0
        } else {
            (if step is Accept {
                1nat
            } else {
                0
            }) + accepts(phase_after(phase, step), shown.drop_first())
        }
    }
}

/// However the pane behaves, the dialog is accepted at most three times.
pub proof fn dialog_accepts_are_bounded(phase: DialogPhase, shown: Seq<(bool, PaneSight)>)
    ensures
        match phase {
            DialogPhase::Appearing => accepts(phase, shown) <= BYPASS_DIALOG_MAX_ACCEPT_ATTEMPTS,
            DialogPhase::Settling { attempts } => accepts(phase, shown) + attempts
                <= BYPASS_DIALOG_MAX_ACCEPT_ATTEMPTS || accepts(phase, shown) == 0,
        },
    decreases shown.len(),
{
    if shown.len() > 0 {
        let step = dialog_step(phase, shown[0].0, shown[0].1);
        if !(step is Done) {
            dialog_accepts_are_bounded(phase_after(phase, step), shown.drop_first());
        }
    }
}

/// While the dialog is on the pane, typing is never allowed: no step says that the way is
/// free, except where the first wait ran out before the pane was looked at.
pub proof fn dialog_never_cleared_while_shown(phase: DialogPhase, expired: bool)
    ensures
        dialog_step(phase, expired, PaneSight::Dialog) matches DialogStep::Done { gate } ==> expired
            && (gate == BypassDialogGate::Stuck || phase is Appearing),
{
}

/// Once the dialog was seen, typing is allowed only at an idle prompt.
pub proof fn settled_only_at_a_prompt(attempts: u32, expired: bool, sight: PaneSight)
    ensures
        (dialog_step(DialogPhase::Settling { attempts }, expired, sight) matches DialogStep::Done {
            gate,
        } && gate != BypassDialogGate::Stuck) ==> !expired && sight == PaneSight::IdlePrompt,
{
}

/// A deadline that has passed ends the wait, whatever the pane shows.
pub proof fn deadline_ends_the_wait(phase: DialogPhase, sight: PaneSight)
    ensures
        dialog_step(phase, true, sight) is Done,
{
}

/// A launcher that the operator names wins, for an installed session and for a relaunch.
pub proof fn named_launcher_wins(names: NamesConfig, sites: LauncherSites)
    requires
        sites.claude_bin matches Some(bin) && bin@.len() > 0,
    ensures
        installed_launcher(names, sites) == sites.claude_bin->0@,
        relaunch_launcher(names, sites) == sites.claude_bin->0@,
{
}

/// Every relaunch skips the permission prompts, and either resumes the captured session or
/// continues the last one.
pub proof fn relaunch_ends_in_its_selector(
    bin: Seq<char>,
    settings: Option<Seq<char>>,
    plugin_dir: Option<Seq<char>>,
    session_id: Option<Seq<char>>,
)
    ensures
        text::ends_with(
            relaunch_line(bin, settings, plugin_dir, session_id),
            " --dangerously-skip-permissions"@ + session_selector(session_id),
        ),
        text::ends_with(
            restart_line(bin, session_id),
            " --dangerously-skip-permissions"@ + session_selector(session_id),
        ),
        settings is None && plugin_dir is None ==> relaunch_line(
            bin,
            settings,
            plugin_dir,
            session_id,
        ) == restart_line(bin, session_id),
{
    let tail = " --dangerously-skip-permissions"@ + session_selector(session_id);
    let line = relaunch_line(bin, settings, plugin_dir, session_id);
    assert(line.subrange(line.len() - tail.len(), line.len() as int) =~= tail);
    let short = restart_line(bin, session_id);
    assert(short.subrange(short.len() - tail.len(), short.len() as int) =~= tail);
}

/// A session is launched by what the operator names; else a relaunch takes the waiting launcher
/// where it is there; else the native install counts before the package manager's, that before
/// the system-wide one, and the bare name last.
pub proof fn launchers_have_their_order(names: NamesConfig, sites: LauncherSites)
    ensures
        ({
            let installed = installed_launcher(names, sites);
            let relaunch = relaunch_launcher(names, sites);
            let named = sites.claude_bin is Some && sites.claude_bin->0@.len() > 0;
            let native = sites.home is Some && sites.native_install_exists;
            let package = sites.home is Some && sites.package_install_exists;
            let waiting = sites.relaunch_exec_exists && (sites.relaunch_exec is None
                || sites.relaunch_exec->0@.len() > 0);
            &&& named ==> installed == sites.claude_bin->0@ && relaunch == sites.claude_bin->0@
            &&& !named && native ==> installed == joined(
                sites.home->0@,
                ".local/bin/"@ + names.program@,
            )
            &&& !named && !native && package ==> installed == joined(
                sites.home->0@,
                ".npm-global/bin/"@ + names.program@,
            )
            &&& !named && !native && !package && sites.system_install_exists ==> installed
                == "/usr/bin/"@ + names.program@
            &&& !named && !native && !package && !sites.system_install_exists ==> installed
                == names.program@
            &&& !named && waiting && sites.relaunch_exec is Some ==> relaunch
                == sites.relaunch_exec->0@
            &&& !named && waiting && sites.relaunch_exec is None ==> relaunch
                == "/usr/local/bin/"@ + names.program@ + "-relaunch-exec"@
            &&& !waiting ==> relaunch == installed
        }),
{
    reveal_strlit("/usr/local/bin/");
}

/// A joined path holds the directory, then the rest, with a slash between them: the
/// directory's own, or one more; without a directory it is the rest alone.
pub proof fn paths_are_joined_by_one_slash(dir: Seq<char>, rest: Seq<char>)
    ensures
        dir.len() == 0 ==> joined(dir, rest) == rest,
        dir.len() > 0 && dir.last() == '/' ==> joined(dir, rest) == dir + rest,
        dir.len() > 0 && dir.last() != '/' ==> joined(dir, rest) == dir.push('/') + rest,
{
    reveal_strlit("/");
    assert("/"@ =~= seq!['/']);
    assert(dir + "/"@ =~= dir.push('/'));
}

/// A relaunch names the settings file first, where it has a name, then the plugin directory;
/// and it resumes the session that is given, or else continues the last one.
pub proof fn relaunch_names_its_parts(
    bin: Seq<char>,
    settings: Option<Seq<char>>,
    plugin_dir: Option<Seq<char>>,
    session_id: Option<Seq<char>>,
)
    ensures
        settings is Some && settings->0.len() > 0 ==> relaunch_line(
            bin,
            settings,
            plugin_dir,
            session_id,
        ) == relaunch_line(
            bin + " --setting-sources project,local --settings "@ + settings->0,
            None,
            plugin_dir,
            session_id,
        ),
        settings is Some && settings->0.len() == 0 ==> relaunch_line(
            bin,
            settings,
            plugin_dir,
            session_id,
        ) == relaunch_line(bin, None, plugin_dir, session_id),
        plugin_dir is Some ==> relaunch_line(bin, None, plugin_dir, session_id) == relaunch_line(
            bin + " --plugin-dir "@ + plugin_dir->0,
            None,
            None,
            session_id,
        ),
        session_id is Some ==> relaunch_line(bin, None, None, session_id) == bin
            + " --dangerously-skip-permissions"@ + (" --resume "@ + session_id->0),
        session_id is None ==> relaunch_line(bin, None, None, session_id) == bin
            + " --dangerously-skip-permissions"@ + " --continue"@,
{
}

/// The wait for the dialog: a prompt, or the end of the first wait, lets things go on; the
/// dialog begins the second wait, in which it is accepted while it shows, at most three times,
/// with two seconds between; anything else is looked at again a second later.
pub proof fn dialog_is_waited_for_and_accepted(phase: DialogPhase, expired: bool, sight: PaneSight)
    ensures
        ({
            let step = dialog_step(phase, expired, sight);
            let settling = phase is Settling;
            let tries = phase->attempts;
            let dialog = !expired && sight == PaneSight::Dialog;
            &&& step == (DialogStep::Done { gate: BypassDialogGate::Proceed }) <==> !settling && (
            expired || sight == PaneSight::IdlePrompt)
            &&& step == (DialogStep::Done { gate: BypassDialogGate::Stuck }) <==> settling
                && expired
            &&& step == (DialogStep::Done { gate: BypassDialogGate::Accepted }) <==> settling
                && !expired && sight == PaneSight::IdlePrompt
            &&& step == DialogStep::BeginSettling <==> !settling && dialog
            &&& step is Accept <==> settling && dialog && tries < 3
            &&& step matches DialogStep::Accept { next, secs } ==> secs == 2 && next
                is Settling && next->attempts == tries + 1
            &&& step matches DialogStep::Wait { secs } ==> secs == 1
            &&& step is Wait <==> !expired && sight != PaneSight::IdlePrompt && !(dialog && (
            !settling || tries < 3))
        }),
{
}

/// The dialog's acceptance is recorded ahead, and the dialog is waited for, only where it is
/// handled at all.
pub proof fn dialog_is_left_alone_where_it_is_not_handled(
    config: ClaudeConfig,
    recorded: bool,
    begun: Option<DialogPhase>,
)
    requires
        call_ensures(pre_accept_bypass_permissions, (&config,), recorded),
        call_ensures(begin_bypass_dialog, (&config,), begun),
    ensures
        !config.handle_bypass_dialog ==> !recorded && begun is None,
        config.handle_bypass_dialog ==> (recorded <==> config.pre_accept_bypass_dialog) && begun
            == Some(DialogPhase::Appearing),
{
}

/// A session id is written in digits, the letters from `a` to `f` and hyphens, and stands behind
/// white space, none of which is a character of an id.
pub proof fn session_ids_are_lower_case_hex(c: char)
    ensures
        is_id_char(c) <==> '0' <= c <= '9' || c == 'a' || c == 'b' || c == 'c' || c == 'd' || c
            == 'e' || c == 'f' || c == '-',
        is_gap(c) <==> c == '\t' || c == '\n' || c == '\x0b' || c == '\x0c' || c == '\r' || c
            == ' ',
        !(is_gap(c) && is_id_char(c)),
{
}

/// A history shows a session where `--resume`, white space, and 36 characters of an id stand
/// behind each other, whatever is around them; without white space between, it shows none
/// there.
pub proof fn session_shows_behind_resume(
    before: Seq<char>,
    gap: Seq<char>,
    sid: Seq<char>,
    after: Seq<char>,
)
    requires
        forall|j: int| 0 <= j < gap.len() ==> is_gap(#[trigger] gap[j]),
        sid.len() == 36,
        forall|j: int| 0 <= j < 36 ==> is_id_char(#[trigger] sid[j]),
    ensures
        ({
            let hay = before + "--resume"@ + gap + sid + after;
            let at = before.len() as int;
            let id = at + 8 + gap.len();
            &&& gap.len() > 0 ==> resume_shown(hay, at, id)
            &&& gap.len() == 0 ==> forall|i: int| !resume_shown(hay, at, i)
            &&& hay.subrange(id, id + 36) == sid
        }),
{
    reveal_strlit("--resume");
    let hay = before + "--resume"@ + gap + sid + after;
    let at = before.len() as int;
    let id = at + 8 + gap.len();
    assert(hay.subrange(at, at + 8) =~= "--resume"@);
    assert(hay.subrange(id, id + 36) =~= sid);
    assert forall|j: int| at + 8 <= j < id implies is_gap(#[trigger] hay[j]) by {
        assert(hay[j] == gap[j - at - 8]);
    }
    assert forall|j: int| id <= j < id + 36 implies is_id_char(#[trigger] hay[j]) by {
        assert(hay[j] == sid[j - id]);
    }
    if gap.len() == 0 {
        assert forall|i: int| !resume_shown(hay, at, i) by {
            if resume_shown(hay, at, i) {
                assert(is_gap(hay[at + 8]));
                assert(hay[at + 8] == sid[0]);
                assert(is_id_char(sid[0]));
            }
        }
    }
}

/// What shows as a session is enclosed on both sides: white space from the word to the id, and
/// 36 characters of an id, of which the text holds the last one too.
pub proof fn shown_session_is_whole(hay: Seq<char>, at: int, id: int)
    requires
        resume_shown(hay, at, id),
    ensures
        0 <= at,
        at + 8 < id,
        is_gap(hay[at + 8]) && is_gap(hay[id - 1]),
        is_id_char(hay[id]) && is_id_char(hay[id + 35]),
        id + 36 <= hay.len(),
{
    reveal_strlit("--resume");
}

} // verus!
