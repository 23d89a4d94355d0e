//! The command lines that bring the session back, and the dialog at its start.
use claude_watch_policy::config::{ClaudeConfig, Config, NamesConfig};
use claude_watch_policy::relaunch::{
    begin_bypass_dialog, build_relaunch_claude_argv, build_relaunch_inject_cmd, find_session_id,
    plan_restart, pre_accept_bypass_permissions, resolve_claude_bin, resolve_relaunch_bin,
    settle_bypass_permissions_dialog, BypassDialogGate, DialogPhase, DialogStep, LauncherSites,
    PaneSight, BYPASS_DIALOG_MAX_ACCEPT_ATTEMPTS,
};

fn names() -> NamesConfig {
    NamesConfig {
        program: "agent".to_string(),
        product: "Agent".to_string(),
        short: "Agent".to_string(),
        daemon: "agent-watch".to_string(),
        tag: "AGENT-WATCH".to_string(),
    }
}

fn no_sites() -> LauncherSites {
    LauncherSites {
        claude_bin: None,
        home: None,
        native_install_exists: false,
        package_install_exists: false,
        system_install_exists: false,
        relaunch_exec: None,
        relaunch_exec_exists: false,
    }
}

#[test]
fn relaunch_argv_always_skips_permissions_and_continues() {
    let cmd = build_relaunch_claude_argv(&resolve_relaunch_bin(&names(), &no_sites()), None, None, None);
    let first = cmd.split_whitespace().next().unwrap_or("");
    assert!(
        first == "agent" || first.ends_with("/agent"),
        "argv must start with a agent binary token: {cmd}"
    );
    assert!(
        cmd.contains("--dangerously-skip-permissions"),
        "harness-managed relaunch must skip permissions: {cmd}"
    );
    assert!(
        cmd.trim_end().ends_with("--continue"),
        "no session id => --continue: {cmd}"
    );
    assert!(!cmd.contains("--resume"), "no session id => no --resume: {cmd}");
}

#[test]
fn relaunch_argv_resumes_with_session_id() {
    let sid = "12345678-1234-1234-1234-123456789abc";
    let cmd = build_relaunch_claude_argv(&resolve_relaunch_bin(&names(), &no_sites()), None, None, Some(sid));
    assert!(
        cmd.contains(&format!("--resume {sid}")),
        "session id => --resume <sid>: {cmd}"
    );
    assert!(!cmd.contains("--continue"), "session id => no --continue: {cmd}");
    assert!(
        cmd.contains("--dangerously-skip-permissions"),
        "skip-permissions present on resume path too: {cmd}"
    );
}

#[test]
fn relaunch_inject_cmd_runs_script_when_present() {
    let path = "/var/run/agent/agent-relaunch.sh";
    let launch = "cd $HOME && agent --dangerously-skip-permissions --continue";
    let cmd = build_relaunch_inject_cmd(path, launch);
    assert!(
        cmd.contains(&format!("bash {path}")),
        "must bash the script path: {cmd}"
    );
    assert!(
        cmd.contains(&format!("[ -f {path} ]")),
        "must guard on the file existing: {cmd}"
    );
}

#[test]
fn relaunch_inject_cmd_falls_back_to_inline_launch() {
    let path = "/var/run/agent/agent-relaunch.sh";
    let launch = "cd $HOME && agent --dangerously-skip-permissions --resume abc";
    let cmd = build_relaunch_inject_cmd(path, launch);
    let (_before, after) = cmd.split_once("||").expect("must have an || fallback");
    assert!(
        after.contains(launch),
        "inline launch must appear after ||: {cmd}"
    );
    assert!(
        after.contains('{') && after.contains('}'),
        "fallback must be brace-grouped for sh/bash: {cmd}"
    );
}

#[test]
fn relaunch_inject_cmd_is_single_line() {
    let cmd = build_relaunch_inject_cmd(
        "/var/run/agent/agent-relaunch.sh",
        "cd $HOME && agent --dangerously-skip-permissions --continue",
    );
    assert!(
        !cmd.contains('\n'),
        "injected command must be a single line: {cmd}"
    );
}

#[test]
fn resolve_claude_bin_honors_env_override_else_falls_back() {
    let mut sites = no_sites();
    sites.claude_bin = Some("/opt/custom/agent".to_string());
    assert_eq!(resolve_claude_bin(&names(), &sites), "/opt/custom/agent");

    sites.claude_bin = Some("".to_string());
    let resolved = resolve_claude_bin(&names(), &sites);
    assert!(
        resolved == "agent" || resolved.ends_with("/agent"),
        "empty override => probe result (bare or absolute): {resolved}"
    );
}

#[test]
fn resolve_relaunch_bin_prefers_shim_but_env_override_wins() {
    let mut sites = no_sites();
    sites.claude_bin = Some("/opt/custom/agent".to_string());
    assert_eq!(resolve_relaunch_bin(&names(), &sites), "/opt/custom/agent");

    sites.claude_bin = None;
    sites.relaunch_exec = Some("/bin/sh".to_string());
    sites.relaunch_exec_exists = true;
    assert_eq!(
        resolve_relaunch_bin(&names(), &sites),
        "/bin/sh",
        "an existing shim path must be preferred over the direct launcher"
    );

    sites.relaunch_exec = Some("/nonexistent/agent-relaunch-exec".to_string());
    sites.relaunch_exec_exists = false;
    let fell_back = resolve_relaunch_bin(&names(), &sites);
    assert!(
        fell_back == "agent" || fell_back.ends_with("/agent"),
        "missing shim => fall back to a agent token: {fell_back}"
    );
}

#[test]
fn relaunch_argv_uses_resolved_absolute_bin_when_env_set() {
    let mut sites = no_sites();
    sites.claude_bin = Some("/opt/custom/agent".to_string());
    let cmd = build_relaunch_claude_argv(&resolve_relaunch_bin(&names(), &sites), None, None, None);
    assert!(
        cmd.starts_with("/opt/custom/agent "),
        "argv must lead with the resolved absolute bin: {cmd}"
    );
    assert!(
        cmd.contains("--dangerously-skip-permissions") && cmd.trim_end().ends_with("--continue"),
        "flag logic must be unchanged by the bin swap: {cmd}"
    );
}

#[test]
fn installs_are_tried_in_their_order() {
    let mut sites = no_sites();
    sites.system_install_exists = true;
    assert_eq!(resolve_claude_bin(&names(), &sites), "/usr/bin/agent");
    sites.home = Some("/home/op".to_string());
    sites.package_install_exists = true;
    assert_eq!(resolve_claude_bin(&names(), &sites), "/home/op/.npm-global/bin/agent");
    sites.native_install_exists = true;
    assert_eq!(resolve_claude_bin(&names(), &sites), "/home/op/.local/bin/agent");
    sites.home = Some("/".to_string());
    assert_eq!(resolve_claude_bin(&names(), &sites), "/.local/bin/agent");
    sites.home = None;
    assert_eq!(resolve_claude_bin(&names(), &sites), "/usr/bin/agent");
}

#[test]
fn the_waiting_launcher_has_a_default_path() {
    let mut sites = no_sites();
    sites.relaunch_exec_exists = true;
    assert_eq!(resolve_relaunch_bin(&names(), &sites), "/usr/local/bin/agent-relaunch-exec");
    sites.relaunch_exec = Some("".to_string());
    assert_eq!(resolve_relaunch_bin(&names(), &sites), "agent");
}

#[test]
fn relaunch_argv_is_written_out() {
    assert_eq!(
        build_relaunch_claude_argv("agent", Some("/etc/s.json"), Some("/opt/p"), Some("abc")),
        "agent --setting-sources project,local --settings /etc/s.json --plugin-dir /opt/p \
         --dangerously-skip-permissions --resume abc"
    );
    assert_eq!(
        build_relaunch_claude_argv("agent", Some(""), None, None),
        "agent --dangerously-skip-permissions --continue"
    );
}

#[test]
fn the_session_id_is_found_in_a_panes_history() {
    let history = "$ agent --resume  0123abcd-0123-0123-0123-0123456789ab\nBye\n$ ";
    assert_eq!(
        find_session_id(history).as_deref(),
        Some("0123abcd-0123-0123-0123-0123456789ab")
    );
    assert_eq!(find_session_id("$ agent --resume short").as_deref(), None);
    assert_eq!(find_session_id("").as_deref(), None);
    let two = "--resume ABC --resume\t\n11111111-1111-1111-1111-111111111111ff \
               --resume 22222222-2222-2222-2222-222222222222";
    assert_eq!(
        find_session_id(two).as_deref(),
        Some("11111111-1111-1111-1111-111111111111")
    );
    let wide = "--resume\u{a0}22222222-2222-2222-2222-222222222222";
    assert_eq!(find_session_id(wide).as_deref(), None);
}

#[test]
fn a_restart_is_planned() {
    let plan = plan_restart(&Config::for_names(names()), &no_sites(), Some("abc"));
    assert_eq!(
        plan.script,
        "#!/bin/bash\ncd $HOME\nagent --dangerously-skip-permissions --resume abc\n\
         echo \"\\n[agent-watch-relaunch] Agent exited with code $?\"\n"
    );
    assert_eq!(
        plan.inject,
        "[ -f /var/run/agent/agent-relaunch.sh ] && bash /var/run/agent/agent-relaunch.sh \
         || { cd $HOME && agent --dangerously-skip-permissions --resume abc; }"
    );
}

#[test]
fn acceptance_is_recorded_only_where_the_dialog_is_handled() {
    let mut config = ClaudeConfig::for_program("agent");
    assert!(pre_accept_bypass_permissions(&config));
    config.pre_accept_bypass_dialog = false;
    assert!(!pre_accept_bypass_permissions(&config));
    config.pre_accept_bypass_dialog = true;
    config.handle_bypass_dialog = false;
    assert!(!pre_accept_bypass_permissions(&config));
    assert_eq!(begin_bypass_dialog(&config), None);
}

#[test]
fn the_dialog_is_accepted_three_times_and_then_waited_for() {
    let mut phase = begin_bypass_dialog(&ClaudeConfig::for_program("agent")).unwrap();
    assert_eq!(
        settle_bypass_permissions_dialog(phase, false, PaneSight::Unseen),
        DialogStep::Wait { secs: 1 }
    );
    assert_eq!(
        settle_bypass_permissions_dialog(phase, false, PaneSight::Dialog),
        DialogStep::BeginSettling
    );
    phase = DialogPhase::Settling { attempts: 0 };
    let mut accepted = 0;
    for _ in 0..10 {
        match settle_bypass_permissions_dialog(phase, false, PaneSight::Dialog) {
            DialogStep::Accept { next, secs } => {
                assert_eq!(secs, 2);
                accepted += 1;
                phase = next;
            }
            step => assert_eq!(step, DialogStep::Wait { secs: 1 }),
        }
    }
    assert_eq!(accepted, BYPASS_DIALOG_MAX_ACCEPT_ATTEMPTS);
    assert_eq!(
        settle_bypass_permissions_dialog(phase, false, PaneSight::IdlePrompt),
        DialogStep::Done { gate: BypassDialogGate::Accepted }
    );
    assert_eq!(
        settle_bypass_permissions_dialog(phase, true, PaneSight::IdlePrompt),
        DialogStep::Done { gate: BypassDialogGate::Stuck }
    );
}

#[test]
fn without_a_dialog_the_way_is_free() {
    for (expired, sight) in [(false, PaneSight::IdlePrompt), (true, PaneSight::Busy)] {
        assert_eq!(
            settle_bypass_permissions_dialog(DialogPhase::Appearing, expired, sight),
            DialogStep::Done { gate: BypassDialogGate::Proceed }
        );
    }
}
