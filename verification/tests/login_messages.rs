//! What the operator is told about logins.
use claude_watch_policy::config::NamesConfig;
use claude_watch_policy::login::{SelfLoginReply, SelfLoginTrigger};
use claude_watch_policy::login_messages::{
    banner_alert_message, expiry_alert_message, login_reply_message, login_screen_message,
    self_login_cancel_args, self_login_start_args,
};

fn names() -> NamesConfig {
    NamesConfig {
        program: "agent".to_string(),
        product: "Agent".to_string(),
        short: "Agent".to_string(),
        daemon: "agent-watch".to_string(),
        tag: "AGENT-WATCH".to_string(),
    }
}

#[test]
fn a_held_banner_is_explained() {
    let names = names();
    assert_eq!(
        banner_alert_message(&names, true, true, "retry spacing"),
        "Agent login needed: API Error 401, OAuth access token expired. \
         Auto-login did not fire: retry spacing."
    );
    assert_eq!(
        banner_alert_message(&names, false, false, "auto-login disabled"),
        "Agent login needed: API Error 401, OAuth access token expired (seen on the pane only \
         — the credential store was not readable). Auto-login is disabled; run `self-login \
         start` or `/login`."
    );
}

#[test]
fn an_expiry_is_announced() {
    let names = names();
    assert_eq!(
        expiry_alert_message(&names, true, 3, true, true),
        "Agent login expires in 3 day(s). Auto-login fired; watch for the OAuth URL."
    );
    assert_eq!(
        expiry_alert_message(&names, true, 12, true, false),
        "Agent login expires in 12 day(s). Auto-login has not fired yet."
    );
    assert_eq!(
        expiry_alert_message(&names, false, 0, false, false),
        "Agent login expires in 0 day(s) (seen on the pane only — the credential store was not \
         readable). Auto-login is disabled; run `self-login start` when convenient."
    );
    assert_eq!(
        login_screen_message(&names, "https://x/y"),
        "Agent login needed. URL: https://x/y"
    );
}

#[test]
fn a_reply_of_the_login_command_is_passed_on() {
    let names = names();
    assert_eq!(
        login_reply_message(
            &names,
            SelfLoginTrigger::Banner401,
            &SelfLoginReply::Url("https://x/y".to_string()),
        ),
        "Agent hit API Error 401 (OAuth access token expired) and auto-login has opened the \
         dialog. Authorize at https://x/y then run: self-login code <CODE>"
    );
    assert_eq!(
        login_reply_message(
            &names,
            SelfLoginTrigger::ExpiryWarning { days_left: 2 },
            &SelfLoginReply::Failed("no pane".to_string()),
        ),
        "Agent login is expiring and auto-login FAILED: no pane. Log in by hand before the \
         credentials lapse."
    );
}

#[test]
fn the_login_dialog_has_its_commands() {
    assert_eq!(
        self_login_start_args("self-login", "%3"),
        vec!["self-login", "--pane", "%3", "--json", "start", "--foreground"]
    );
    assert_eq!(
        self_login_cancel_args("self-login", "%3"),
        vec!["self-login", "--pane", "%3", "--json", "cancel"]
    );
}
