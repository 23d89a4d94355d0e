//! Logins: banners, screens, expiries, and what the login command replies.
use claude_watch_policy::config::{Config, NamesConfig};
use claude_watch_policy::login::{
    check_login_expiry, check_reauth, credentials_path, fire_self_login, login_reply_from,
    observe_login_expiry, run_self_login_abandon_watchdog, self_login_reply, AbandonDecision,
    AccessTokenState, BannerAction, CredentialExpiry, ExpiryAction, ExpiryReport,
    LoginScreenReport, ReauthSignal, SelfLoginReply, SelfLoginTrigger,
};
use claude_watch_policy::state::State;
use claude_watch_policy::time::Moment;

fn names() -> NamesConfig {
    NamesConfig {
        program: "agent".to_string(),
        product: "Agent".to_string(),
        short: "Agent".to_string(),
        daemon: "agent-watch".to_string(),
        tag: "AGENT-WATCH".to_string(),
    }
}

const BASE: i64 = 1_767_225_600;

fn at(secs: i64) -> Moment {
    Moment { secs: BASE + secs, nanos: 0 }
}

fn stamp(secs: i64) -> String {
    chrono::DateTime::from_timestamp(BASE + secs, 0).unwrap().to_rfc3339()
}

fn url(reply: SelfLoginReply) -> Option<String> {
    match reply {
        SelfLoginReply::Url(u) => Some(u),
        SelfLoginReply::Failed(_) => None,
    }
}

fn reason(reply: SelfLoginReply) -> Option<String> {
    match reply {
        SelfLoginReply::Url(_) => None,
        SelfLoginReply::Failed(r) => Some(r),
    }
}

#[test]
fn the_login_commands_reply_is_read() {
    assert_eq!(
        url(self_login_reply("  {\"url\": \"https://a/b\"}\n", true)).as_deref(),
        Some("https://a/b")
    );
    assert_eq!(
        reason(self_login_reply("{\"url\": \"https://a/b\", \"reason\": \"no pane\"}", false))
            .as_deref(),
        Some("no pane")
    );
    for output in ["", "not json", "{}", "{\"url\": 7}", "{\"url\": \"\"}"] {
        assert_eq!(
            reason(self_login_reply(output, true)).as_deref(),
            Some("self-login produced no URL and gave no reason"),
            "{output}"
        );
    }
    assert_eq!(
        url(login_reply_from(Some("u".to_string()), None, true)).as_deref(),
        Some("u")
    );
}

#[test]
fn a_banner_starts_a_login_once() {
    let config = Config::for_names(names());
    let mut state = State::default();
    let s0 = stamp(0);
    let r = check_reauth(
        &config, &mut state, &ReauthSignal::Banner401, AccessTokenState::Expired, &s0, at(0),
    );
    let banner = r.banner.expect("a banner shows");
    assert_eq!(banner.action, BannerAction::AutoLogin);
    assert!(banner.first_detection);
    assert_eq!(state.self_login_attempts_this_window, 1);
    assert_eq!(state.self_login_dialog_opened_at, Some(stamp(0)));
    let r = check_reauth(
        &config, &mut state, &ReauthSignal::Banner401, AccessTokenState::Expired, &stamp(9), at(9),
    );
    let banner = r.banner.expect("a banner shows");
    assert_eq!(
        banner.action,
        BannerAction::AlertOnly { corroborated: true, reason: "login dialog already open" }
    );
    assert!(banner.alert && !banner.first_detection);
    assert_eq!(state.last_reauth_alert, Some(stamp(9)));
    let r = check_reauth(
        &config, &mut state, &ReauthSignal::Quiet, AccessTokenState::Valid, &stamp(20), at(20),
    );
    assert!(r.banner.is_none() && r.banner_resolved);
    assert!(!state.reauth_banner_detected);
}

#[test]
fn a_login_screen_is_told_with_its_address() {
    let config = Config::for_names(names());
    let mut state = State::default();
    let screen = |u: &str| ReauthSignal::LoginScreen { url: u.to_string() };
    let r = check_reauth(
        &config, &mut state, &screen(""), AccessTokenState::Unknown, &stamp(0), at(0),
    );
    assert_eq!(
        r.screen,
        LoginScreenReport::Present { first_detection: true, inject: true, alert: false }
    );
    let r = check_reauth(
        &config, &mut state, &screen("https://x"), AccessTokenState::Unknown, &stamp(5), at(5),
    );
    assert_eq!(
        r.screen,
        LoginScreenReport::Present { first_detection: false, inject: false, alert: true }
    );
    assert_eq!(state.reauth_inject_interrupts_total, 1);
    let r = check_reauth(
        &config, &mut state, &ReauthSignal::Quiet, AccessTokenState::Valid, &stamp(9), at(9),
    );
    assert_eq!(r.screen, LoginScreenReport::Gone);
    let r = check_reauth(
        &config, &mut state, &ReauthSignal::Quiet, AccessTokenState::Valid, &stamp(9), at(9),
    );
    assert_eq!(r.screen, LoginScreenReport::Absent);
}

#[test]
fn an_expiry_is_announced_renewed_and_over() {
    let config = Config::for_names(names());
    let mut state = State::default();
    let expiring = CredentialExpiry::Expiring { days_left: 3 };
    let action = observe_login_expiry(&config, &mut state, Some(3), expiring, Some(100), at(0));
    assert_eq!(action, ExpiryAction::AlertOnly { days_left: 3, corroborated: true });
    let r = check_login_expiry(&config, &mut state, action, expiring, &stamp(0), at(0));
    assert_eq!(
        r,
        ExpiryReport::Announced {
            days_left: 3,
            corroborated: true,
            first_detection: true,
            login: false,
            alert: true,
        }
    );
    assert_eq!(state.login_expiry_days_left, Some(3));
    let soon = CredentialExpiry::Expiring { days_left: 1 };
    let action = observe_login_expiry(&config, &mut state, Some(1), soon, Some(100), at(9));
    let r = check_login_expiry(&config, &mut state, action, soon, &stamp(9), at(9));
    assert_eq!(
        r,
        ExpiryReport::Announced {
            days_left: 1,
            corroborated: true,
            first_detection: false,
            login: true,
            alert: false,
        }
    );
    assert_eq!(state.self_login_attempts_this_window, 1);
    let action =
        observe_login_expiry(&config, &mut state, None, CredentialExpiry::Healthy, Some(200), at(20));
    assert_eq!(action, ExpiryAction::Idle);
    assert_eq!(state.self_login_attempts_this_window, 0);
    assert_eq!(state.self_login_dialog_opened_at, None);
    assert!(!state.login_expiry_detected);
    state.reauth_detected = true;
    let healthy = CredentialExpiry::Healthy;
    let r = check_login_expiry(&config, &mut state, action, healthy, &stamp(20), at(20));
    assert_eq!(r, ExpiryReport::Blocked);
    state.reauth_detected = false;
    let r = check_login_expiry(&config, &mut state, action, healthy, &stamp(20), at(20));
    assert_eq!(r, ExpiryReport::Idle { resolved: false });
}

#[test]
fn an_expiry_seen_on_the_pane_alone_is_said_to_stand_alone() {
    let config = Config::for_names(names());
    let mut state = State::default();
    let unknown = CredentialExpiry::Unknown;
    let action = observe_login_expiry(&config, &mut state, Some(1), unknown, None, at(0));
    assert_eq!(action, ExpiryAction::AutoLogin { days_left: 1 });
    let r = check_login_expiry(&config, &mut state, action, unknown, &stamp(0), at(0));
    assert_eq!(
        r,
        ExpiryReport::Announced {
            days_left: 1,
            corroborated: false,
            first_detection: true,
            login: true,
            alert: true,
        }
    );
}

#[test]
fn an_open_dialog_is_given_up_in_time() {
    let config = Config::for_names(names());
    let mut state = State::default();
    assert_eq!(
        run_self_login_abandon_watchdog(&config, &mut state, at(0)),
        AbandonDecision::Nothing
    );
    assert_eq!(fire_self_login(&mut state, &stamp(0)), 1);
    assert_eq!(
        run_self_login_abandon_watchdog(&config, &mut state, at(1799)),
        AbandonDecision::Nothing
    );
    assert_eq!(
        run_self_login_abandon_watchdog(&config, &mut state, at(1800)),
        AbandonDecision::Cancel
    );
    assert_eq!(state.self_login_dialog_opened_at, None);
    state.self_login_dialog_opened_at = Some("never".to_string());
    assert_eq!(
        run_self_login_abandon_watchdog(&config, &mut state, at(0)),
        AbandonDecision::Forget
    );
}

#[test]
fn triggers_are_worded() {
    let n = names();
    assert_eq!(SelfLoginTrigger::Banner401.situation(&n),
        "Agent hit API Error 401 (OAuth access token expired)");
    assert_eq!(
        SelfLoginTrigger::ExpiryWarning { days_left: 1 }.situation(&n),
        "Agent login is expiring"
    );
    assert_eq!(
        SelfLoginTrigger::ExpiryWarning { days_left: 1 }.advice(),
        "Log in by hand before the credentials lapse."
    );
    assert_eq!(
        SelfLoginTrigger::Banner401.advice(),
        "The session cannot make API calls until somebody runs /login."
    );
}

#[test]
fn the_credential_store_may_be_configured() {
    let mut config = Config::for_names(names());
    assert_eq!(credentials_path(&config, "/usual"), "/usual");
    config.reauth.credentials_file = "/other".to_string();
    assert_eq!(credentials_path(&config, "/usual"), "/other");
}
