//! Logins: authentication errors, announced expiries, and the login dialog that
//! is opened for them.
use crate::config::{Config, NamesConfig, ReauthConfig};
use crate::state::{State, StateView};
use crate::text;
use crate::time;
use crate::time::{as_opt_str, elapsed_at, stamp_under, Moment};
use crate::watcher_health::copy_opt;
use vstd::prelude::*;
use vstd::string::StringExecFns;

verus! {

/// What the credential store says of the access token.
#[derive(Debug, Clone, Copy, PartialEq, Eq, Structural)]
pub enum AccessTokenState {
    Valid,
    Expired,
    Missing,
    /// The store could not be read.
    Unknown,
}

impl AccessTokenState {
    /// The store bears out an authentication error.
    pub open spec fn bears_out_401(self) -> bool {
        self == AccessTokenState::Expired || self == AccessTokenState::Missing
    }

    /// Whether the store bears out an authentication error.
    pub fn corroborates_401(self) -> (r: bool)
        ensures
            r == self.bears_out_401(),
    {
        match self {
            AccessTokenState::Expired => true,
            AccessTokenState::Missing => true,
            _ => false,
        }
    }
}

/// What the credential store says of the expiry of the login.
#[derive(Debug, Clone, Copy, PartialEq, Eq, Structural)]
pub enum CredentialExpiry {
    Expired,
    Healthy,
    Expiring { days_left: u32 },
    /// The store could not be read.
    Unknown,
}

/// What to do about an authentication-error banner.
#[derive(Debug, Clone, PartialEq, Eq)]
pub enum BannerAction {
    /// Leave it: the text is part of the conversation.
    Ignore,
    /// Tell the operator only, for the given reason.
    AlertOnly { corroborated: bool, reason: &'static str },
    /// Open the login dialog.
    AutoLogin,
}

/// What a [`BannerAction`] holds.
pub enum BannerActionView {
    Ignore,
    AlertOnly { corroborated: bool, reason: Seq<char> },
    AutoLogin,
}

impl View for BannerAction {
    type V = BannerActionView;

    open spec fn view(&self) -> BannerActionView {
        match self {
            BannerAction::Ignore => BannerActionView::Ignore,
            BannerAction::AlertOnly { corroborated, reason } => BannerActionView::AlertOnly {
                corroborated: *corroborated,
                reason: reason@,
            },
            BannerAction::AutoLogin => BannerActionView::AutoLogin,
        }
    }
}

/// What the decision on a banner goes by.
#[derive(Debug, Clone)]
pub struct BannerEvidence {
    /// What the credential store says of the access token.
    pub access_token: AccessTokenState,
    /// Whether the login dialog may be opened without being asked.
    pub auto_enabled: bool,
    /// Milliseconds since the last attempt.
    pub since_last_attempt: Option<i128>,
    /// Seconds between two attempts.
    pub retry_seconds: u64,
    /// Attempts of the running window.
    pub attempts: u32,
    /// Attempts that a window allows.
    pub max_attempts: u32,
    /// Whether a login dialog is open.
    pub login_pending: bool,
}

/// The brakes on opening a login dialog: one dialog at a time, a budget of
/// attempts per window, and time between two attempts.
pub open spec fn login_brake(
    login_pending: bool,
    attempts: u32,
    max_attempts: u32,
    since_last_attempt: Option<i128>,
    retry_seconds: u64,
) -> Option<Seq<char>> {
    if login_pending {
        Some("login dialog already open"@)
    } else if attempts >= max_attempts {
        Some("attempt budget exhausted"@)
    } else if since_last_attempt matches Some(ms) && ms < retry_seconds * 1000 {
        Some("retry spacing"@)
    } else {
        None
    }
}

/// The decision on a banner. A valid token makes the banner conversation text; an
/// unreadable store is not enough to open a dialog on.
pub open spec fn banner_decision(ev: BannerEvidence) -> BannerActionView {
    if ev.access_token == AccessTokenState::Valid {
        BannerActionView::Ignore
    } else if !ev.access_token.bears_out_401() {
        BannerActionView::AlertOnly {
            corroborated: false,
            reason: "credential store unreadable"@,
        }
    } else if !ev.auto_enabled {
        BannerActionView::AlertOnly { corroborated: true, reason: "auto-login disabled"@ }
    } else {
        match login_brake(
            ev.login_pending,
            ev.attempts,
            ev.max_attempts,
            ev.since_last_attempt,
            ev.retry_seconds,
        ) {
            Some(reason) => BannerActionView::AlertOnly { corroborated: true, reason },
            None => BannerActionView::AutoLogin,
        }
    }
}

fn brake_on_login(
    login_pending: bool,
    attempts: u32,
    max_attempts: u32,
    since_last_attempt: Option<i128>,
    retry_seconds: u64,
) -> (r: Option<&'static str>)
    ensures
        time::opt_str_view(r) == login_brake(
            login_pending,
            attempts,
            max_attempts,
            since_last_attempt,
            retry_seconds,
        ),
{
    if login_pending {
        return Some("login dialog already open");
    }
    if attempts >= max_attempts {
        return Some("attempt budget exhausted");
    }
    match since_last_attempt {
        Some(ms) => {
            if ms < (retry_seconds as i128) * 1000 {
                return Some("retry spacing");
            }
        },
        None => {},
    }
    None
}

/// [`banner_decision`], executable.
pub fn decide_banner_action(ev: &BannerEvidence) -> (r: BannerAction)
    ensures
        r@ == banner_decision(*ev),
{
    if ev.access_token == AccessTokenState::Valid {
        return BannerAction::Ignore;
    }
    if !ev.access_token.corroborates_401() {
        return BannerAction::AlertOnly {
            corroborated: false,
            reason: "credential store unreadable",
        };
    }
    if !ev.auto_enabled {
        return BannerAction::AlertOnly { corroborated: true, reason: "auto-login disabled" };
    }
    match brake_on_login(
        ev.login_pending,
        ev.attempts,
        ev.max_attempts,
        ev.since_last_attempt,
        ev.retry_seconds,
    ) {
        Some(reason) => BannerAction::AlertOnly { corroborated: true, reason },
        None => BannerAction::AutoLogin,
    }
}

/// What to do about an announced expiry.
#[derive(Debug, Clone, Copy, PartialEq, Eq, Structural)]
pub enum ExpiryAction {
    /// Nothing is announced, or nothing needs doing.
    Idle,
    /// Tell the operator only.
    AlertOnly { days_left: u32, corroborated: bool },
    /// Open the login dialog.
    AutoLogin { days_left: u32 },
}

/// What the decision on an expiry goes by.
#[derive(Debug, Clone)]
pub struct ExpiryEvidence {
    /// Days left, as the pane announces them.
    pub pane_days_left: Option<u32>,
    /// What the credential store says.
    pub credentials: CredentialExpiry,
    /// Whether the store alone may announce an expiry.
    pub credentials_may_trigger: bool,
    /// Whether the login dialog may be opened without being asked.
    pub auto_enabled: bool,
    /// Days left from which it may.
    pub auto_days: u32,
    /// Milliseconds since the last attempt.
    pub since_last_attempt: Option<i128>,
    /// Seconds between two attempts.
    pub retry_seconds: u64,
    /// Attempts of the running window.
    pub attempts: u32,
    /// Attempts that a window allows.
    pub max_attempts: u32,
    /// Whether a login dialog is open.
    pub login_pending: bool,
}

/// The days left and whether the store bears them out, if an expiry is announced.
/// An expired login is not announced, it is over; a healthy store overrules the
/// pane; of two announcements the more urgent one stands.
pub open spec fn announced_expiry(
    pane_days_left: Option<u32>,
    credentials: CredentialExpiry,
    credentials_may_trigger: bool,
) -> Option<(u32, bool)> {
    match (pane_days_left, credentials) {
        (_, CredentialExpiry::Expired) => None,
        (_, CredentialExpiry::Healthy) => None,
        (Some(pane), CredentialExpiry::Expiring { days_left }) => Some(
            (
                if pane <= days_left {
                    pane
                } else {
                    days_left
                },
                true,
            ),
        ),
        (Some(pane), CredentialExpiry::Unknown) => Some((pane, false)),
        (None, CredentialExpiry::Expiring { days_left }) => if credentials_may_trigger {
            Some((days_left, true))
        } else {
            None
        },
        (None, CredentialExpiry::Unknown) => None,
    }
}

/// The decision on an expiry.
pub open spec fn expiry_decision(ev: ExpiryEvidence) -> ExpiryAction {
    match announced_expiry(ev.pane_days_left, ev.credentials, ev.credentials_may_trigger) {
        None => ExpiryAction::Idle,
        Some((days_left, corroborated)) => if ev.auto_enabled && days_left <= ev.auto_days
            && login_brake(
            ev.login_pending,
            ev.attempts,
            ev.max_attempts,
            ev.since_last_attempt,
            ev.retry_seconds,
        ) is None {
            ExpiryAction::AutoLogin { days_left }
        } else {
            ExpiryAction::AlertOnly { days_left, corroborated }
        },
    }
}

fn find_announced_expiry(
    pane_days_left: Option<u32>,
    credentials: CredentialExpiry,
    credentials_may_trigger: bool,
) -> (r: Option<(u32, bool)>)
    ensures
        r == announced_expiry(pane_days_left, credentials, credentials_may_trigger),
{
    match credentials {
        CredentialExpiry::Expired => None,
        CredentialExpiry::Healthy => None,
        CredentialExpiry::Expiring { days_left } => match pane_days_left {
            Some(pane) => Some(
                (
                    if pane <= days_left {
                        pane
                    } else {
                        days_left
                    },
                    true,
                ),
            ),
            None => if credentials_may_trigger {
                Some((days_left, true))
            } else {
                None
            },
        },
        CredentialExpiry::Unknown => match pane_days_left {
            Some(pane) => Some((pane, false)),
            None => None,
        },
    }
}

/// [`expiry_decision`], executable.
pub fn decide_expiry_action(ev: &ExpiryEvidence) -> (r: ExpiryAction)
    ensures
        r == expiry_decision(*ev),
{
    match find_announced_expiry(ev.pane_days_left, ev.credentials, ev.credentials_may_trigger) {
        None => ExpiryAction::Idle,
        Some((days_left, corroborated)) => {
            if !ev.auto_enabled || days_left > ev.auto_days {
                return ExpiryAction::AlertOnly { days_left, corroborated };
            }
            match brake_on_login(
                ev.login_pending,
                ev.attempts,
                ev.max_attempts,
                ev.since_last_attempt,
                ev.retry_seconds,
            ) {
                Some(_) => ExpiryAction::AlertOnly { days_left, corroborated },
                None => ExpiryAction::AutoLogin { days_left },
            }
        },
    }
}

/// Why a login dialog is opened.
#[derive(Debug, Clone, Copy, PartialEq, Eq, Structural)]
pub enum SelfLoginTrigger {
    ExpiryWarning { days_left: u32 },
    Banner401,
}

impl SelfLoginTrigger {
    /// The label of the trigger.
    pub fn as_str(self) -> (r: &'static str)
        ensures
            r@ == match self {
                SelfLoginTrigger::ExpiryWarning { .. } => "expiry_warning"@,
                SelfLoginTrigger::Banner401 => "401_banner"@,
            },
    {
        match self {
            SelfLoginTrigger::ExpiryWarning { .. } => "expiry_warning",
            SelfLoginTrigger::Banner401 => "401_banner",
        }
    }

    /// The days that the trigger leaves, if it is an announced expiry.
    pub fn days_left(self) -> (r: Option<u32>)
        ensures
            r == match self {
                SelfLoginTrigger::ExpiryWarning { days_left } => Some(days_left),
                SelfLoginTrigger::Banner401 => None,
            },
    {
        match self {
            SelfLoginTrigger::ExpiryWarning { days_left } => Some(days_left),
            SelfLoginTrigger::Banner401 => None,
        }
    }

    /// The situation in words.
    pub open spec fn situation_text(self, names: NamesConfig) -> Seq<char> {
        names.product@ + (match self {
            SelfLoginTrigger::ExpiryWarning { .. } => " login is expiring"@,
            SelfLoginTrigger::Banner401 => " hit API Error 401 (OAuth access token expired)"@,
        })
    }

    /// What the operator is advised when the login fails.
    pub open spec fn advice_text(self) -> Seq<char> {
        match self {
            SelfLoginTrigger::ExpiryWarning { .. } =>
                "Log in by hand before the credentials lapse."@,
            SelfLoginTrigger::Banner401 =>
                "The session cannot make API calls until somebody runs /login."@,
        }
    }

    /// [`SelfLoginTrigger::situation_text`], executable.
    pub fn situation(self, names: &NamesConfig) -> (r: String)
        ensures
            r@ == self.situation_text(*names),
    {
        match self {
            SelfLoginTrigger::ExpiryWarning { .. } => names.product.clone().concat(
                " login is expiring",
            ),
            SelfLoginTrigger::Banner401 => names.product.clone().concat(
                " hit API Error 401 (OAuth access token expired)",
            ),
        }
    }

    /// [`SelfLoginTrigger::advice_text`], executable.
    pub fn advice(self) -> (r: &'static str)
        ensures
            r@ == self.advice_text(),
    {
        match self {
            SelfLoginTrigger::ExpiryWarning { .. } => "Log in by hand before the credentials lapse.",
            SelfLoginTrigger::Banner401 => "The session cannot make API calls until somebody runs /login.",
        }
    }
}

/// The state once a login attempt is booked: its stamp, its place in the budget,
/// and the dialog it opens. The booking precedes the attempt, so that one which
/// never reports back still counts.
pub open spec fn login_booked(s: StateView, stamp: Seq<char>) -> StateView {
    StateView {
        last_self_login_attempt: Some(stamp),
        self_login_attempts_this_window: s.self_login_attempts_this_window.saturating_add(1),
        self_login_autofire_total: s.self_login_autofire_total.saturating_add(1),
        self_login_dialog_opened_at: Some(stamp),
        ..s
    }
}

/// Books a login attempt; the result is its number within the window.
pub fn fire_self_login(state: &mut State, stamp: &str) -> (r: u32)
    ensures
        final(state)@ == login_booked(old(state)@, stamp@),
        r == final(state)@.self_login_attempts_this_window,
{
    proof {
        reveal(crate::state::state_view);
    }
    let attempts: u32 = state.self_login_attempts_this_window.saturating_add(1);
    let total: u64 = state.self_login_autofire_total.saturating_add(1);
    state.last_self_login_attempt = Some(stamp.to_owned());
    state.self_login_attempts_this_window = attempts;
    state.self_login_autofire_total = total;
    state.self_login_dialog_opened_at = Some(stamp.to_owned());
    attempts
}

/// The text of the string member `key` of the JSON object that a text holds, as
/// `serde_json` reads it; nothing when the text is no JSON, or holds no such
/// member.
pub uninterp spec fn json_text_member(json: Seq<char>, key: Seq<char>) -> Option<Seq<char>>;

/// Calls `serde_json::from_str` and picks the member `key` of the value it
/// returns, if that is a string. Which texts parse, and to what, is not stated:
/// the result is only said to depend on the text and the key.
#[verifier::external_body]
fn read_json_text(json: &str, key: &str) -> (r: Option<String>)
    ensures
        time::opt_string_view(r) == json_text_member(json@, key@),
{
    let value = serde_json::from_str::<serde_json::Value>(json).ok()?;
    value.get(key)?.as_str().map(str::to_string)
}

/// What the login command came back with.
#[derive(Debug, Clone)]
pub enum SelfLoginReply {
    /// The address at which the operator authorises the login.
    Url(String),
    /// Why there is none.
    Failed(String),
}

/// What a [`SelfLoginReply`] holds.
pub enum SelfLoginReplyView {
    Url(Seq<char>),
    Failed(Seq<char>),
}

impl View for SelfLoginReply {
    type V = SelfLoginReplyView;

    open spec fn view(&self) -> SelfLoginReplyView {
        match self {
            SelfLoginReply::Url(u) => SelfLoginReplyView::Url(u@),
            SelfLoginReply::Failed(r) => SelfLoginReplyView::Failed(r@),
        }
    }
}

/// What the members of a reply come to: an address, if the command succeeded and
/// gave one; else its reason, or the fact that it gave none.
pub open spec fn reply_of(
    url: Option<Seq<char>>,
    reason: Option<Seq<char>>,
    ok: bool,
) -> SelfLoginReplyView {
    match url {
        Some(u) if ok && u.len() > 0 => SelfLoginReplyView::Url(u),
        _ => SelfLoginReplyView::Failed(
            match reason {
                Some(r) => r,
                None => "self-login produced no URL and gave no reason"@,
            },
        ),
    }
}

/// [`reply_of`], executable.
pub fn login_reply_from(url: Option<String>, reason: Option<String>, ok: bool) -> (r:
    SelfLoginReply)
    ensures
        r@ == reply_of(time::opt_string_view(url), time::opt_string_view(reason), ok),
{
    match url {
        Some(u) => {
            if ok && !u.as_str().is_empty() {
                return SelfLoginReply::Url(u);
            }
        },
        None => {},
    }
    match reason {
        Some(t) => SelfLoginReply::Failed(t),
        None => SelfLoginReply::Failed("self-login produced no URL and gave no reason".to_owned()),
    }
}

/// Reads the output of the login command.
pub fn self_login_reply(output: &str, ok: bool) -> (r: SelfLoginReply)
    ensures
        r@ == reply_of(
            json_text_member(text::trimmed(output@), "url"@),
            json_text_member(text::trimmed(output@), "reason"@),
            ok,
        ),
{
    let json = text::trim(output);
    let url = read_json_text(json, "url");
    let reason = read_json_text(json, "reason");
    login_reply_from(url, reason, ok)
}

/// What to do about a login dialog that stays open.
#[derive(Debug, Clone, Copy, PartialEq, Eq, Structural)]
pub enum AbandonDecision {
    /// Leave it.
    Nothing,
    /// Its stamp does not parse: forget it.
    Forget,
    /// It has been open for too long: cancel it, then forget it.
    Cancel,
}

/// The decision on a login dialog that stays open. A bound of zero is no bound.
pub open spec fn abandon_decision(s: StateView, abandon_seconds: u64, now: Moment) -> AbandonDecision {
    if abandon_seconds == 0 || s.self_login_dialog_opened_at is None {
        AbandonDecision::Nothing
    } else {
        match time::opt_elapsed_ms(s.self_login_dialog_opened_at, now) {
            None => AbandonDecision::Forget,
            Some(ms) => if ms < abandon_seconds * 1000 {
                AbandonDecision::Nothing
            } else {
                AbandonDecision::Cancel
            },
        }
    }
}

/// The state after the decision on the open dialog was carried out.
pub open spec fn abandon_next(s: StateView, abandon_seconds: u64, now: Moment) -> StateView {
    if abandon_decision(s, abandon_seconds, now) == AbandonDecision::Nothing {
        s
    } else {
        StateView { self_login_dialog_opened_at: None, ..s }
    }
}

fn forget_dialog(state: &mut State)
    ensures
        final(state)@ == (StateView { self_login_dialog_opened_at: None, ..old(state)@ }),
{
    proof {
        reveal(crate::state::state_view);
    }
    state.self_login_dialog_opened_at = None;
}

/// Looks after a login dialog that stays open: forgets it when it is to be given
/// up. On [`AbandonDecision::Cancel`] the dialog on the pane is cancelled.
pub fn run_self_login_abandon_watchdog(config: &Config, state: &mut State, now: Moment) -> (r:
    AbandonDecision)
    ensures
        r == abandon_decision(old(state)@, config.reauth.self_login_abandon_seconds, now),
        final(state)@ == abandon_next(
            old(state)@,
            config.reauth.self_login_abandon_seconds,
            now,
        ),
{
    proof {
        reveal(crate::state::state_view);
    }
    if config.reauth.self_login_abandon_seconds == 0 {
        return AbandonDecision::Nothing;
    }
    let age = match &state.self_login_dialog_opened_at {
        Some(opened) => elapsed_at(opened.as_str(), now),
        None => {
            return AbandonDecision::Nothing;
        },
    };
    match age {
        None => {
            forget_dialog(state);
            AbandonDecision::Forget
        },
        Some(ms) => {
            if ms < (config.reauth.self_login_abandon_seconds as i128) * 1000 {
                return AbandonDecision::Nothing;
            }
            forget_dialog(state);
            AbandonDecision::Cancel
        },
    }
}

/// The last alert is older than the interval, or there was none, or its stamp
/// does not parse.
pub open spec fn alert_due(last: Option<Seq<char>>, interval_secs: u64, now: Moment) -> bool {
    !time::elapsed_under(last, now, interval_secs as int)
}

/// What the pane shows of a login.
#[derive(Debug, Clone)]
pub enum ReauthSignal {
    /// Nothing of the kind.
    Quiet,
    /// An authentication-error banner.
    Banner401,
    /// A login screen, with the address it shows (empty until it does).
    LoginScreen { url: String },
}

/// What a [`ReauthSignal`] holds.
pub enum ReauthSignalView {
    Quiet,
    Banner401,
    LoginScreen { url: Seq<char> },
}

impl View for ReauthSignal {
    type V = ReauthSignalView;

    open spec fn view(&self) -> ReauthSignalView {
        match self {
            ReauthSignal::Quiet => ReauthSignalView::Quiet,
            ReauthSignal::Banner401 => ReauthSignalView::Banner401,
            ReauthSignal::LoginScreen { url } => ReauthSignalView::LoginScreen { url: url@ },
        }
    }
}

/// What is known about a banner in state `s`.
pub open spec fn banner_evidence(
    c: ReauthConfig,
    s: StateView,
    access: AccessTokenState,
    now: Moment,
) -> BannerEvidence {
    BannerEvidence {
        access_token: access,
        auto_enabled: c.auth_error_auto_self_login,
        since_last_attempt: match time::opt_elapsed_ms(s.last_self_login_attempt, now) {
            Some(ms) => Some(ms as i128),
            None => None,
        },
        retry_seconds: c.self_login_retry_seconds,
        attempts: s.self_login_attempts_this_window,
        max_attempts: c.self_login_max_attempts,
        login_pending: s.self_login_dialog_opened_at is Some,
    }
}

/// What came of a banner on the pane.
#[derive(Debug, Clone)]
pub struct BannerReport {
    /// What to do about it.
    pub action: BannerAction,
    /// Whether it was not there before.
    pub first_detection: bool,
    /// Whether the operator is told now.
    pub alert: bool,
}

/// The state after a banner was dealt with: it is on record; a login is booked if
/// one is started; an alert that goes out leaves its stamp.
pub open spec fn banner_next(
    c: ReauthConfig,
    s: StateView,
    access: AccessTokenState,
    stamp: Seq<char>,
    now: Moment,
) -> StateView {
    let seen = StateView { reauth_banner_detected: true, ..s };
    match banner_decision(banner_evidence(c, s, access, now)) {
        BannerActionView::Ignore => seen,
        BannerActionView::AutoLogin => login_booked(seen, stamp),
        BannerActionView::AlertOnly { .. } => if alert_due(
            s.last_reauth_alert,
            c.alert_interval_seconds,
            now,
        ) {
            StateView { last_reauth_alert: Some(stamp), ..seen }
        } else {
            seen
        },
    }
}

fn note_banner(state: &mut State)
    ensures
        final(state)@ == (StateView { reauth_banner_detected: true, ..old(state)@ }),
{
    proof {
        reveal(crate::state::state_view);
    }
    state.reauth_banner_detected = true;
}

fn note_reauth_alert(state: &mut State, stamp: &str)
    ensures
        final(state)@ == (StateView { last_reauth_alert: Some(stamp@), ..old(state)@ }),
{
    proof {
        reveal(crate::state::state_view);
    }
    state.last_reauth_alert = Some(stamp.to_owned());
}

fn since(stamp: &Option<String>, now: Moment) -> (r: Option<i128>)
    ensures
        time::opt_millis(r) == time::opt_elapsed_ms(time::opt_string_view(*stamp), now),
{
    match stamp {
        Some(s) => elapsed_at(s.as_str(), now),
        None => None,
    }
}

fn gather_banner_evidence(
    config: &Config,
    state: &State,
    access: AccessTokenState,
    now: Moment,
) -> (r: BannerEvidence)
    ensures
        r == banner_evidence(config.reauth, state@, access, now),
{
    proof {
        reveal(crate::state::state_view);
    }
    BannerEvidence {
        access_token: access,
        auto_enabled: config.reauth.auth_error_auto_self_login,
        since_last_attempt: since(&state.last_self_login_attempt, now),
        retry_seconds: config.reauth.self_login_retry_seconds,
        attempts: state.self_login_attempts_this_window,
        max_attempts: config.reauth.self_login_max_attempts,
        login_pending: state.self_login_dialog_opened_at.is_some(),
    }
}

/// Deals with an authentication-error banner on the pane.
pub fn check_reauth_banner(
    config: &Config,
    state: &mut State,
    access: AccessTokenState,
    stamp: &str,
    now: Moment,
) -> (r: BannerReport)
    ensures
        r.action@ == banner_decision(banner_evidence(config.reauth, old(state)@, access, now)),
        r.first_detection == !old(state)@.reauth_banner_detected,
        r.alert == (r.action is AlertOnly && alert_due(
            old(state)@.last_reauth_alert,
            config.reauth.alert_interval_seconds,
            now,
        )),
        final(state)@ == banner_next(config.reauth, old(state)@, access, stamp@, now),
{
    proof {
        reveal(crate::state::state_view);
    }
    let ev = gather_banner_evidence(config, state, access, now);
    let action = decide_banner_action(&ev);
    let first_detection = !state.reauth_banner_detected;
    let due = !stamp_under(
        as_opt_str(&state.last_reauth_alert),
        now,
        config.reauth.alert_interval_seconds,
    );
    note_banner(state);
    match action {
        BannerAction::Ignore => BannerReport { action, first_detection, alert: false },
        BannerAction::AutoLogin => {
            fire_self_login(state, stamp);
            BannerReport { action, first_detection, alert: false }
        },
        BannerAction::AlertOnly { corroborated, reason } => {
            if due {
                note_reauth_alert(state, stamp);
            }
            BannerReport {
                action: BannerAction::AlertOnly { corroborated, reason },
                first_detection,
                alert: due,
            }
        },
    }
}

/// The state once a banner is gone. Only a store with a valid token ends the
/// window of attempts: without one the login has not come back.
pub open spec fn banner_resolved_next(s: StateView, access: AccessTokenState) -> StateView {
    let gone = StateView { reauth_banner_detected: false, ..s };
    if access == AccessTokenState::Valid {
        StateView {
            self_login_attempts_this_window: 0,
            last_self_login_attempt: None,
            self_login_dialog_opened_at: None,
            ..gone
        }
    } else {
        gone
    }
}

fn clear_banner(state: &mut State)
    ensures
        final(state)@ == (StateView { reauth_banner_detected: false, ..old(state)@ }),
{
    proof {
        reveal(crate::state::state_view);
    }
    state.reauth_banner_detected = false;
}

fn clear_attempt_window(state: &mut State)
    ensures
        final(state)@ == (StateView {
            self_login_attempts_this_window: 0,
            last_self_login_attempt: None,
            self_login_dialog_opened_at: None,
            ..old(state)@
        }),
{
    proof {
        reveal(crate::state::state_view);
    }
    state.self_login_attempts_this_window = 0;
    state.last_self_login_attempt = None;
    state.self_login_dialog_opened_at = None;
}

fn resolve_banner(state: &mut State, access: AccessTokenState)
    ensures
        final(state)@ == banner_resolved_next(old(state)@, access),
{
    clear_banner(state);
    if access == AccessTokenState::Valid {
        clear_attempt_window(state);
    }
}

/// Whether `/login` is typed into a pane that shows a login screen: once per
/// screen, and not while a dialog opened from here is already up.
pub open spec fn login_inject_due(s: StateView) -> bool {
    !s.login_injected && s.self_login_dialog_opened_at is None
}

/// The state after a login screen was dealt with.
pub open spec fn login_screen_next(
    c: ReauthConfig,
    s: StateView,
    url: Seq<char>,
    stamp: Seq<char>,
    now: Moment,
) -> StateView {
    StateView {
        reauth_detected: true,
        login_injected: s.login_injected || login_inject_due(s),
        reauth_inject_interrupts_total: if login_inject_due(s) {
            s.reauth_inject_interrupts_total.saturating_add(1)
        } else {
            s.reauth_inject_interrupts_total
        },
        last_reauth_alert: if url.len() > 0 && alert_due(
            s.last_reauth_alert,
            c.alert_interval_seconds,
            now,
        ) {
            Some(stamp)
        } else {
            s.last_reauth_alert
        },
        ..s
    }
}

/// The state once a login screen is gone.
pub open spec fn login_screen_gone(s: StateView) -> StateView {
    StateView { reauth_detected: false, last_reauth_alert: None, login_injected: false, ..s }
}

fn set_login_screen(
    state: &mut State,
    injected: bool,
    total: u64,
    last_alert: Option<String>,
)
    ensures
        final(state)@ == (StateView {
            reauth_detected: true,
            login_injected: injected,
            reauth_inject_interrupts_total: total,
            last_reauth_alert: time::opt_string_view(last_alert),
            ..old(state)@
        }),
{
    proof {
        reveal(crate::state::state_view);
    }
    state.reauth_detected = true;
    state.login_injected = injected;
    state.reauth_inject_interrupts_total = total;
    state.last_reauth_alert = last_alert;
}

fn clear_login_screen(state: &mut State)
    ensures
        final(state)@ == login_screen_gone(old(state)@),
{
    proof {
        reveal(crate::state::state_view);
    }
    state.reauth_detected = false;
    state.last_reauth_alert = None;
    state.login_injected = false;
}

/// What came of a login screen, or of its absence.
#[derive(Debug, Clone, Copy, PartialEq, Eq, Structural)]
pub enum LoginScreenReport {
    /// There is none, and there was none.
    Absent,
    /// It is gone.
    Gone,
    /// It is there.
    Present {
        /// It was not there before.
        first_detection: bool,
        /// `/login` is typed now.
        inject: bool,
        /// The operator is told the address now.
        alert: bool,
    },
}

fn deal_with_login_screen(
    config: &Config,
    state: &mut State,
    url: &str,
    stamp: &str,
    now: Moment,
) -> (r: LoginScreenReport)
    ensures
        final(state)@ == login_screen_next(config.reauth, old(state)@, url@, stamp@, now),
        r == (LoginScreenReport::Present {
            first_detection: !old(state)@.reauth_detected,
            inject: login_inject_due(old(state)@),
            alert: url@.len() > 0 && alert_due(
                old(state)@.last_reauth_alert,
                config.reauth.alert_interval_seconds,
                now,
            ),
        }),
{
    proof {
        reveal(crate::state::state_view);
    }
    let first_detection = !state.reauth_detected;
    let inject = !state.login_injected && state.self_login_dialog_opened_at.is_none();
    let alert = !url.is_empty() && !stamp_under(
        as_opt_str(&state.last_reauth_alert),
        now,
        config.reauth.alert_interval_seconds,
    );
    let injected = state.login_injected || inject;
    let total: u64 = if inject {
        state.reauth_inject_interrupts_total.saturating_add(1)
    } else {
        state.reauth_inject_interrupts_total
    };
    let last_alert = if alert {
        Some(stamp.to_owned())
    } else {
        copy_opt(&state.last_reauth_alert)
    };
    set_login_screen(state, injected, total, last_alert);
    LoginScreenReport::Present { first_detection, inject, alert }
}

/// What came of a look at the pane for logins.
#[derive(Debug, Clone)]
pub struct ReauthReport {
    /// The banner, if there is one.
    pub banner: Option<BannerReport>,
    /// Whether a banner is gone.
    pub banner_resolved: bool,
    /// The login screen.
    pub screen: LoginScreenReport,
}

/// The state after the banner part of a look: a banner that shows is dealt with;
/// one that no longer shows, with no login screen in its place, is over.
pub open spec fn reauth_banner_part(
    c: ReauthConfig,
    s: StateView,
    signal: ReauthSignalView,
    access: AccessTokenState,
    stamp: Seq<char>,
    now: Moment,
) -> StateView {
    match signal {
        ReauthSignalView::Banner401 => banner_next(c, s, access, stamp, now),
        ReauthSignalView::Quiet => if s.reauth_banner_detected {
            banner_resolved_next(s, access)
        } else {
            s
        },
        ReauthSignalView::LoginScreen { .. } => s,
    }
}

/// The state after a look at the pane for logins.
pub open spec fn reauth_next(
    c: ReauthConfig,
    s: StateView,
    signal: ReauthSignalView,
    access: AccessTokenState,
    stamp: Seq<char>,
    now: Moment,
) -> StateView {
    let b = reauth_banner_part(c, s, signal, access, stamp, now);
    match signal {
        ReauthSignalView::LoginScreen { url } => login_screen_next(c, b, url, stamp, now),
        _ => if b.reauth_detected {
            login_screen_gone(b)
        } else {
            b
        },
    }
}

/// Looks at the pane for logins: a banner, a login screen, or the end of either.
/// `access` is what the credential store says of the access token.
pub fn check_reauth(
    config: &Config,
    state: &mut State,
    signal: &ReauthSignal,
    access: AccessTokenState,
    stamp: &str,
    now: Moment,
) -> (r: ReauthReport)
    ensures
        final(state)@ == reauth_next(config.reauth, old(state)@, signal@, access, stamp@, now),
        r.banner is Some <==> signal is Banner401,
        r.banner matches Some(b) ==> b.action@ == banner_decision(
            banner_evidence(config.reauth, old(state)@, access, now),
        ) && b.first_detection == !old(state)@.reauth_banner_detected && b.alert == (
        b.action is AlertOnly && alert_due(
            old(state)@.last_reauth_alert,
            config.reauth.alert_interval_seconds,
            now,
        )),
        r.banner_resolved == (signal is Quiet && old(state)@.reauth_banner_detected),
        r.screen == (match signal@ {
            ReauthSignalView::LoginScreen { url } => LoginScreenReport::Present {
                first_detection: !old(state)@.reauth_detected,
                inject: login_inject_due(old(state)@),
                alert: url.len() > 0 && alert_due(
                    old(state)@.last_reauth_alert,
                    config.reauth.alert_interval_seconds,
                    now,
                ),
            },
            _ => if old(state)@.reauth_detected {
                LoginScreenReport::Gone
            } else {
                LoginScreenReport::Absent
            },
        }),
{
    proof {
        reveal(crate::state::state_view);
    }
    let was_detected = state.reauth_detected;
    match signal {
        ReauthSignal::LoginScreen { url } => {
            let screen = deal_with_login_screen(config, state, url.as_str(), stamp, now);
            ReauthReport { banner: None, banner_resolved: false, screen }
        },
        ReauthSignal::Banner401 => {
            let banner = check_reauth_banner(config, state, access, stamp, now);
            let screen = leave_login_screen(state, was_detected);
            ReauthReport { banner: Some(banner), banner_resolved: false, screen }
        },
        ReauthSignal::Quiet => {
            let resolved = state.reauth_banner_detected;
            if resolved {
                resolve_banner(state, access);
            }
            let screen = leave_login_screen(state, was_detected);
            ReauthReport { banner: None, banner_resolved: resolved, screen }
        },
    }
}

fn leave_login_screen(state: &mut State, was_detected: bool) -> (r: LoginScreenReport)
    requires
        was_detected == old(state)@.reauth_detected,
    ensures
        final(state)@ == (if was_detected {
            login_screen_gone(old(state)@)
        } else {
            old(state)@
        }),
        r == (if was_detected {
            LoginScreenReport::Gone
        } else {
            LoginScreenReport::Absent
        }),
{
    if was_detected {
        clear_login_screen(state);
        LoginScreenReport::Gone
    } else {
        LoginScreenReport::Absent
    }
}

/// The credential store: the configured file, or the usual one.
pub fn credentials_path(config: &Config, default_path: &str) -> (r: String)
    ensures
        r@ == (if config.reauth.credentials_file@.len() == 0 {
            default_path@
        } else {
            config.reauth.credentials_file@
        }),
{
    if config.reauth.credentials_file.as_str().is_empty() {
        default_path.to_owned()
    } else {
        config.reauth.credentials_file.clone()
    }
}

/// The store holds a later expiry than it did before: the login was renewed.
pub open spec fn renewed(s: StateView, refresh_expiry_ms: Option<i64>) -> bool {
    match (refresh_expiry_ms, s.last_seen_refresh_expiry_ms) {
        (Some(current), Some(prev)) => current > prev,
        _ => false,
    }
}

/// The state with no expiry announced and no window of login attempts.
pub open spec fn expiry_window_closed(s: StateView) -> StateView {
    StateView {
        login_expiry_detected: false,
        login_expiry_days_left: None,
        last_login_expiry_alert: None,
        last_self_login_attempt: None,
        self_login_attempts_this_window: 0,
        ..s
    }
}

/// The state after the expiry in the credential store was read. A renewed login
/// closes the window and the dialog.
pub open spec fn refresh_expiry_noted(s: StateView, refresh_expiry_ms: Option<i64>) -> StateView {
    let n = StateView { last_seen_refresh_expiry_ms: refresh_expiry_ms, ..s };
    if renewed(s, refresh_expiry_ms) {
        StateView { self_login_dialog_opened_at: None, ..expiry_window_closed(n) }
    } else {
        n
    }
}

/// What is known about an expiry in state `s`.
pub open spec fn expiry_evidence(
    c: ReauthConfig,
    s: StateView,
    pane_days_left: Option<u32>,
    credentials: CredentialExpiry,
    now: Moment,
) -> ExpiryEvidence {
    ExpiryEvidence {
        pane_days_left,
        credentials,
        credentials_may_trigger: c.expiry_from_credentials,
        auto_enabled: c.expiry_auto_self_login,
        auto_days: c.expiry_auto_days,
        since_last_attempt: match time::opt_elapsed_ms(s.last_self_login_attempt, now) {
            Some(ms) => Some(ms as i128),
            None => None,
        },
        retry_seconds: c.self_login_retry_seconds,
        attempts: s.self_login_attempts_this_window,
        max_attempts: c.self_login_max_attempts,
        login_pending: s.self_login_dialog_opened_at is Some,
    }
}

fn set_refresh_expiry(state: &mut State, refresh_expiry_ms: Option<i64>)
    ensures
        final(state)@ == (StateView {
            last_seen_refresh_expiry_ms: refresh_expiry_ms,
            ..old(state)@
        }),
{
    proof {
        reveal(crate::state::state_view);
    }
    state.last_seen_refresh_expiry_ms = refresh_expiry_ms;
}

fn close_expiry_window(state: &mut State)
    ensures
        final(state)@ == expiry_window_closed(old(state)@),
{
    proof {
        reveal(crate::state::state_view);
    }
    state.login_expiry_detected = false;
    state.login_expiry_days_left = None;
    state.last_login_expiry_alert = None;
    state.last_self_login_attempt = None;
    state.self_login_attempts_this_window = 0;
}

/// The first half of the look for an announced expiry: takes note of the expiry
/// in the credential store, and decides. The second half is
/// [`check_login_expiry`]; between them the open dialog is looked after
/// ([`run_self_login_abandon_watchdog`]).
pub fn observe_login_expiry(
    config: &Config,
    state: &mut State,
    pane_days_left: Option<u32>,
    credentials: CredentialExpiry,
    refresh_expiry_ms: Option<i64>,
    now: Moment,
) -> (r: ExpiryAction)
    ensures
        final(state)@ == refresh_expiry_noted(old(state)@, refresh_expiry_ms),
        r == expiry_decision(
            expiry_evidence(config.reauth, final(state)@, pane_days_left, credentials, now),
        ),
{
    proof {
        reveal(crate::state::state_view);
    }
    let is_renewed = match refresh_expiry_ms {
        Some(current) => match state.last_seen_refresh_expiry_ms {
            Some(prev) => current > prev,
            None => false,
        },
        None => false,
    };
    set_refresh_expiry(state, refresh_expiry_ms);
    if is_renewed {
        close_expiry_window(state);
        forget_dialog(state);
    }
    let ev = gather_expiry_evidence(config, state, pane_days_left, credentials, now);
    decide_expiry_action(&ev)
}

fn gather_expiry_evidence(
    config: &Config,
    state: &State,
    pane_days_left: Option<u32>,
    credentials: CredentialExpiry,
    now: Moment,
) -> (r: ExpiryEvidence)
    ensures
        r == expiry_evidence(config.reauth, state@, pane_days_left, credentials, now),
{
    proof {
        reveal(crate::state::state_view);
    }
    ExpiryEvidence {
        pane_days_left,
        credentials,
        credentials_may_trigger: config.reauth.expiry_from_credentials,
        auto_enabled: config.reauth.expiry_auto_self_login,
        auto_days: config.reauth.expiry_auto_days,
        since_last_attempt: since(&state.last_self_login_attempt, now),
        retry_seconds: config.reauth.self_login_retry_seconds,
        attempts: state.self_login_attempts_this_window,
        max_attempts: config.reauth.self_login_max_attempts,
        login_pending: state.self_login_dialog_opened_at.is_some(),
    }
}

/// What came of the look for an announced expiry.
#[derive(Debug, Clone, Copy, PartialEq, Eq, Structural)]
pub enum ExpiryReport {
    /// Nothing is announced; whether an announcement is thereby over.
    Idle { resolved: bool },
    /// Nothing is announced, but a login error shows: nothing is concluded.
    Blocked,
    /// An expiry is announced.
    Announced {
        days_left: u32,
        /// Whether the credential store bears it out.
        corroborated: bool,
        /// Whether it was not announced before.
        first_detection: bool,
        /// Whether a login is started.
        login: bool,
        /// Whether the operator is told now.
        alert: bool,
    },
}

/// The days left of an announced expiry, whether the store bears it out, and
/// whether a login is started.
pub open spec fn announcement(action: ExpiryAction, credentials: CredentialExpiry) -> Option<
    (u32, bool, bool),
> {
    match action {
        ExpiryAction::Idle => None,
        ExpiryAction::AlertOnly { days_left, corroborated } => Some((days_left, corroborated, false)),
        ExpiryAction::AutoLogin { days_left } => Some(
            (days_left, credentials != CredentialExpiry::Unknown, true),
        ),
    }
}

/// The state after the decision on an expiry was carried out. With nothing
/// announced, and no login error in the way, an announcement is over and an open
/// dialog is forgotten.
pub open spec fn expiry_next(
    c: ReauthConfig,
    s: StateView,
    action: ExpiryAction,
    credentials: CredentialExpiry,
    stamp: Seq<char>,
    now: Moment,
) -> StateView {
    match announcement(action, credentials) {
        None => if s.reauth_detected || s.reauth_banner_detected {
            s
        } else {
            StateView {
                self_login_dialog_opened_at: None,
                ..if s.login_expiry_detected {
                    expiry_window_closed(s)
                } else {
                    s
                }
            }
        },
        Some((days_left, _, login)) => {
            let seen = StateView {
                login_expiry_detected: true,
                login_expiry_days_left: Some(days_left),
                ..s
            };
            let fired = if login {
                login_booked(seen, stamp)
            } else {
                seen
            };
            if alert_due(s.last_login_expiry_alert, c.alert_interval_seconds, now) {
                StateView { last_login_expiry_alert: Some(stamp), ..fired }
            } else {
                fired
            }
        },
    }
}

/// What the decision on an expiry comes to in state `s`.
pub open spec fn expiry_report(
    c: ReauthConfig,
    s: StateView,
    action: ExpiryAction,
    credentials: CredentialExpiry,
    now: Moment,
) -> ExpiryReport {
    match announcement(action, credentials) {
        None => if s.reauth_detected || s.reauth_banner_detected {
            ExpiryReport::Blocked
        } else {
            ExpiryReport::Idle { resolved: s.login_expiry_detected }
        },
        Some((days_left, corroborated, login)) => ExpiryReport::Announced {
            days_left,
            corroborated,
            first_detection: !s.login_expiry_detected,
            login,
            alert: alert_due(s.last_login_expiry_alert, c.alert_interval_seconds, now),
        },
    }
}

fn note_expiry(state: &mut State, days_left: u32)
    ensures
        final(state)@ == (StateView {
            login_expiry_detected: true,
            login_expiry_days_left: Some(days_left),
            ..old(state)@
        }),
{
    proof {
        reveal(crate::state::state_view);
    }
    state.login_expiry_detected = true;
    state.login_expiry_days_left = Some(days_left);
}

fn note_expiry_alert(state: &mut State, stamp: &str)
    ensures
        final(state)@ == (StateView { last_login_expiry_alert: Some(stamp@), ..old(state)@ }),
{
    proof {
        reveal(crate::state::state_view);
    }
    state.last_login_expiry_alert = Some(stamp.to_owned());
}

/// The second half of the look for an announced expiry: carries the decision
/// out. `credentials` is what the credential store says.
pub fn check_login_expiry(
    config: &Config,
    state: &mut State,
    action: ExpiryAction,
    credentials: CredentialExpiry,
    stamp: &str,
    now: Moment,
) -> (r: ExpiryReport)
    ensures
        final(state)@ == expiry_next(config.reauth, old(state)@, action, credentials, stamp@, now),
        r == expiry_report(config.reauth, old(state)@, action, credentials, now),
{
    proof {
        reveal(crate::state::state_view);
    }
    let (days_left, corroborated, login) = match action {
        ExpiryAction::Idle => {
            if state.reauth_detected || state.reauth_banner_detected {
                return ExpiryReport::Blocked;
            }
            let resolved = state.login_expiry_detected;
            if resolved {
                close_expiry_window(state);
            }
            forget_dialog(state);
            return ExpiryReport::Idle { resolved };
        },
        ExpiryAction::AlertOnly { days_left, corroborated } => (days_left, corroborated, false),
        ExpiryAction::AutoLogin { days_left } => (
            days_left,
            credentials != CredentialExpiry::Unknown,
            true,
        ),
    };
    let first_detection = !state.login_expiry_detected;
    let alert = !stamp_under(
        as_opt_str(&state.last_login_expiry_alert),
        now,
        config.reauth.alert_interval_seconds,
    );
    note_expiry(state, days_left);
    if login {
        fire_self_login(state, stamp);
    }
    if alert {
        note_expiry_alert(state, stamp);
    }
    ExpiryReport::Announced { days_left, corroborated, first_detection, login, alert }
}

/// A banner that the credential store contradicts starts nothing, whatever the
/// brakes allow; one that the store cannot bear out never opens a dialog.
pub proof fn contradicted_banner_is_ignored(ev: BannerEvidence)
    ensures
        banner_decision(ev) == BannerActionView::Ignore <==> ev.access_token
            == AccessTokenState::Valid,
        banner_decision(ev) == BannerActionView::AutoLogin ==> ev.access_token.bears_out_401(),
{
    reveal_strlit("login dialog already open");
}

/// An expiry that the credential store contradicts, and one that is past, starts
/// nothing.
pub proof fn contradicted_expiry_is_ignored(ev: ExpiryEvidence)
    requires
        ev.credentials == CredentialExpiry::Healthy || ev.credentials == CredentialExpiry::Expired,
    ensures
        expiry_decision(ev) == ExpiryAction::Idle,
{
}

/// An expiry that only the pane announces is acted on, and said to stand alone: its
/// announcement is corroborated exactly if the credential store could be read.
pub proof fn unread_store_is_admitted(ev: ExpiryEvidence)
    ensures
        announcement(expiry_decision(ev), ev.credentials) matches Some((_, corroborated, _))
            ==> corroborated == (ev.credentials != CredentialExpiry::Unknown),
        ev.pane_days_left is Some && ev.credentials == CredentialExpiry::Unknown ==> expiry_decision(
            ev,
        ) != ExpiryAction::Idle,
{
}

/// Whichever path opens a dialog, it was open to it: no dialog was up, the window
/// had an attempt left, and the last attempt was long enough ago.
pub proof fn dialogs_are_rationed(b: BannerEvidence, e: ExpiryEvidence)
    ensures
        banner_decision(b) == BannerActionView::AutoLogin ==> b.auto_enabled && !b.login_pending
            && b.attempts < b.max_attempts && (b.since_last_attempt matches Some(ms) ==> ms
            >= b.retry_seconds * 1000),
        expiry_decision(e) is AutoLogin ==> e.auto_enabled && !e.login_pending && e.attempts
            < e.max_attempts && (e.since_last_attempt matches Some(ms) ==> ms >= e.retry_seconds
            * 1000),
{
}

/// The two paths share one budget and one dialog: right after either of them has
/// booked a login, neither opens another.
pub proof fn paths_share_the_dialog(
    c: ReauthConfig,
    s: StateView,
    stamp: Seq<char>,
    access: AccessTokenState,
    pane_days_left: Option<u32>,
    credentials: CredentialExpiry,
    now: Moment,
)
    ensures
        banner_decision(banner_evidence(c, login_booked(s, stamp), access, now))
            != BannerActionView::AutoLogin,
        !(expiry_decision(
            expiry_evidence(c, login_booked(s, stamp), pane_days_left, credentials, now),
        ) is AutoLogin),
        login_booked(s, stamp).self_login_attempts_this_window >= s.self_login_attempts_this_window,
{
}

/// A spent budget silences no alert: a corroborated banner that opens no dialog
/// is still told to the operator.
pub proof fn held_banner_still_alerts(ev: BannerEvidence)
    requires
        ev.access_token != AccessTokenState::Valid,
    ensures
        banner_decision(ev) == BannerActionView::AutoLogin || banner_decision(ev) is AlertOnly,
{
}

/// A dialog is never up twice: `/login` is typed only while none is, and at most
/// once per login screen.
pub proof fn login_typed_once_per_screen(
    c: ReauthConfig,
    s: StateView,
    url: Seq<char>,
    stamp: Seq<char>,
    now: Moment,
)
    requires
        login_inject_due(s),
    ensures
        s.self_login_dialog_opened_at is None,
        !login_inject_due(login_screen_next(c, s, url, stamp, now)),
{
}

/// While a login error shows, silence about the expiry concludes nothing: the window, its
/// budget and the open dialog stay as they are.
pub proof fn login_error_freezes_the_window(
    c: ReauthConfig,
    s: StateView,
    credentials: CredentialExpiry,
    stamp: Seq<char>,
    now: Moment,
)
    requires
        s.reauth_detected || s.reauth_banner_detected,
    ensures
        expiry_next(c, s, ExpiryAction::Idle, credentials, stamp, now) == s,
{
}

/// A renewed login ends the window: the next one has the full budget, and no dialog is held
/// to be open.
pub proof fn renewal_restores_the_budget(s: StateView, refresh_expiry_ms: Option<i64>)
    requires
        renewed(s, refresh_expiry_ms),
    ensures
        ({
            let n = refresh_expiry_noted(s, refresh_expiry_ms);
            &&& n.self_login_attempts_this_window == 0
            &&& n.last_self_login_attempt is None
            &&& n.self_login_dialog_opened_at is None
            &&& !n.login_expiry_detected
            &&& !renewed(n, refresh_expiry_ms)
        }),
{
}

/// An alert about a login is held back only within the interval. Where none went out, where
/// the stamp of the last one names no instant, and once the last one is at least the interval
/// old, a banner that opens no dialog and is not ignored is told, and so are a login screen
/// that shows an address and an announced expiry; each leaves its stamp.
pub proof fn login_alerts_return_after_the_interval(
    c: ReauthConfig,
    s: StateView,
    access: AccessTokenState,
    url: Seq<char>,
    action: ExpiryAction,
    credentials: CredentialExpiry,
    stamp: Seq<char>,
    now: Moment,
)
    ensures
        s.last_reauth_alert is None || time::stamp_moment(s.last_reauth_alert->0) is None
            || time::elapsed_at_least(
            s.last_reauth_alert,
            now,
            c.alert_interval_seconds as int,
        ) ==> {
            &&& alert_due(s.last_reauth_alert, c.alert_interval_seconds, now)
            &&& banner_decision(banner_evidence(c, s, access, now)) is AlertOnly ==> banner_next(
                c,
                s,
                access,
                stamp,
                now,
            ).last_reauth_alert == Some(stamp)
            &&& url.len() > 0 ==> login_screen_next(c, s, url, stamp, now).last_reauth_alert
                == Some(stamp)
        },
        s.last_login_expiry_alert is None || time::stamp_moment(s.last_login_expiry_alert->0)
            is None || time::elapsed_at_least(
            s.last_login_expiry_alert,
            now,
            c.alert_interval_seconds as int,
        ) ==> {
            &&& alert_due(s.last_login_expiry_alert, c.alert_interval_seconds, now)
            &&& action != ExpiryAction::Idle ==> expiry_next(
                c,
                s,
                action,
                credentials,
                stamp,
                now,
            ).last_login_expiry_alert == Some(stamp) && (expiry_report(
                c,
                s,
                action,
                credentials,
                now,
            ) matches ExpiryReport::Announced { alert, .. } && alert)
        },
{
}

/// Within the interval after an alert about a login, none goes out: neither about a banner,
/// nor about a login screen, nor about an expiry. The stamp of the last one stays.
pub proof fn login_alerts_are_rate_limited(
    c: ReauthConfig,
    s: StateView,
    access: AccessTokenState,
    url: Seq<char>,
    action: ExpiryAction,
    credentials: CredentialExpiry,
    stamp: Seq<char>,
    now: Moment,
)
    ensures
        time::elapsed_under(s.last_reauth_alert, now, c.alert_interval_seconds as int) ==> {
            &&& !alert_due(s.last_reauth_alert, c.alert_interval_seconds, now)
            &&& banner_next(c, s, access, stamp, now).last_reauth_alert == s.last_reauth_alert
            &&& login_screen_next(c, s, url, stamp, now).last_reauth_alert == s.last_reauth_alert
        },
        time::elapsed_under(s.last_login_expiry_alert, now, c.alert_interval_seconds as int)
            && action != ExpiryAction::Idle ==> {
            &&& expiry_next(c, s, action, credentials, stamp, now).last_login_expiry_alert
                == s.last_login_expiry_alert
            &&& expiry_report(c, s, action, credentials, now) matches ExpiryReport::Announced {
                alert,
                ..
            } && !alert
        },
{
}

/// A login screen that shows no address yet, a banner that is ignored, and one for which the
/// dialog is opened, are not told as alerts.
pub proof fn silent_cases_leave_no_alert_stamp(
    c: ReauthConfig,
    s: StateView,
    access: AccessTokenState,
    stamp: Seq<char>,
    now: Moment,
)
    ensures
        login_screen_next(c, s, seq![], stamp, now).last_reauth_alert == s.last_reauth_alert,
        !(banner_decision(banner_evidence(c, s, access, now)) is AlertOnly) ==> banner_next(
            c,
            s,
            access,
            stamp,
            now,
        ).last_reauth_alert == s.last_reauth_alert,
{
}

/// The login dialog is opened for a banner exactly where the credential store bears the error
/// out, opening it is allowed, no dialog is up, the window has an attempt left, and the last
/// attempt, if there was one with a readable stamp, is long enough ago. A valid token makes it
/// ignored; in every other case the operator is told, and that the store could not be read is
/// said.
pub proof fn banner_opens_a_dialog_when_it_may(
    c: ReauthConfig,
    s: StateView,
    access: AccessTokenState,
    now: Moment,
)
    ensures
        ({
            let action = banner_decision(banner_evidence(c, s, access, now));
            let may = c.auth_error_auto_self_login && s.self_login_dialog_opened_at is None
                && s.self_login_attempts_this_window < c.self_login_max_attempts
                && !time::elapsed_under(
                s.last_self_login_attempt,
                now,
                c.self_login_retry_seconds as int,
            );
            let gone = access == AccessTokenState::Expired || access == AccessTokenState::Missing;
            &&& action == BannerActionView::AutoLogin <==> gone && may
            &&& action == BannerActionView::Ignore <==> access == AccessTokenState::Valid
            &&& action is AlertOnly <==> access == AccessTokenState::Unknown || (gone && !may)
            &&& action matches BannerActionView::AlertOnly { corroborated, .. } ==> corroborated
                == gone
        }),
{
    lemma_since_fits(s.last_self_login_attempt, now);
}

/// Why a dialog was not opened for a banner, in order: the store could not be read, opening it
/// is not allowed, one is up, the attempts are spent, or the last one was too recent.
pub proof fn held_banner_says_why(ev: BannerEvidence)
    ensures
        ({
            let gone = ev.access_token == AccessTokenState::Expired || ev.access_token
                == AccessTokenState::Missing;
            let action = banner_decision(ev);
            &&& ev.access_token == AccessTokenState::Unknown ==> action == (
            BannerActionView::AlertOnly {
                corroborated: false,
                reason: "credential store unreadable"@,
            })
            &&& gone && !ev.auto_enabled ==> action == (BannerActionView::AlertOnly {
                corroborated: true,
                reason: "auto-login disabled"@,
            })
            &&& gone && ev.auto_enabled && ev.login_pending ==> action == (
            BannerActionView::AlertOnly { corroborated: true, reason: "login dialog already open"@ })
            &&& gone && ev.auto_enabled && !ev.login_pending && ev.attempts >= ev.max_attempts
                ==> action == (BannerActionView::AlertOnly {
                corroborated: true,
                reason: "attempt budget exhausted"@,
            })
            &&& gone && ev.auto_enabled && !ev.login_pending && ev.attempts < ev.max_attempts && (
            ev.since_last_attempt matches Some(ms) && ms < ev.retry_seconds * 1000) ==> action == (
            BannerActionView::AlertOnly { corroborated: true, reason: "retry spacing"@ })
        }),
{
}

/// The time since a stamp fits its type.
proof fn lemma_since_fits(stamp: Option<Seq<char>>, now: Moment)
    ensures
        time::opt_elapsed_ms(stamp, now) matches Some(ms) ==> ms as i128 == ms,
{
    if time::opt_elapsed_ms(stamp, now) is Some {
        let then = time::stamp_moment(stamp->0)->0;
        let d = now.total_nanos() - then.total_nanos() + time::leap_seconds_between(then, now)
            * 1_000_000_000;
        assert(-0x1_0000_0000_0000_0000_0000_0000_0000 <= d
            <= 0x1_0000_0000_0000_0000_0000_0000_0000);
    }
}

/// An expiry is announced by the pane or by a credential store that holds one, the more urgent
/// of the two; a healthy store overrules the pane, a login that has expired is over, and the
/// store alone announces nothing where it may not.
pub proof fn urgent_expiry_is_announced(ev: ExpiryEvidence)
    ensures
        ({
            let told = expiry_decision(ev) != ExpiryAction::Idle;
            let days = match expiry_decision(ev) {
                ExpiryAction::AlertOnly { days_left, .. } => days_left,
                ExpiryAction::AutoLogin { days_left } => days_left,
                ExpiryAction::Idle => 0,
            };
            &&& ev.credentials == CredentialExpiry::Expired || ev.credentials
                == CredentialExpiry::Healthy ==> !told
            &&& ev.credentials == CredentialExpiry::Unknown ==> (told <==> ev.pane_days_left
                is Some) && (told ==> days == ev.pane_days_left->0)
            &&& ev.credentials matches CredentialExpiry::Expiring { days_left } ==> {
                &&& told <==> ev.pane_days_left is Some || ev.credentials_may_trigger
                &&& told ==> days <= days_left && (ev.pane_days_left matches Some(pane) ==> days
                    <= pane) && (days == days_left || ev.pane_days_left == Some(days))
            }
        }),
{
}

/// The login dialog is opened for an announced expiry exactly where that is allowed, few enough
/// days are left, no dialog is up, the window has an attempt left, and the last attempt is long
/// enough ago; otherwise the operator alone is told.
pub proof fn expiry_opens_a_dialog_when_it_may(
    c: ReauthConfig,
    s: StateView,
    pane_days_left: Option<u32>,
    credentials: CredentialExpiry,
    now: Moment,
)
    ensures
        ({
            let action = expiry_decision(
                expiry_evidence(c, s, pane_days_left, credentials, now),
            );
            let may = c.expiry_auto_self_login && s.self_login_dialog_opened_at is None
                && s.self_login_attempts_this_window < c.self_login_max_attempts
                && !time::elapsed_under(
                s.last_self_login_attempt,
                now,
                c.self_login_retry_seconds as int,
            );
            &&& action matches ExpiryAction::AutoLogin { days_left } ==> may && days_left
                <= c.expiry_auto_days
            &&& action matches ExpiryAction::AlertOnly { days_left, corroborated } ==> !(may
                && days_left <= c.expiry_auto_days) && corroborated == (credentials
                != CredentialExpiry::Unknown)
        }),
{
    lemma_since_fits(s.last_self_login_attempt, now);
}

/// A booked login leaves its stamp, opens the dialog with it, and uses up an attempt; nothing
/// that is known of banners, screens and expiries changes.
pub proof fn booked_login_uses_an_attempt(s: StateView, stamp: Seq<char>)
    ensures
        ({
            let n = login_booked(s, stamp);
            &&& n.last_self_login_attempt == Some(stamp)
            &&& n.self_login_dialog_opened_at == Some(stamp)
            &&& s.self_login_attempts_this_window < u32::MAX ==> n.self_login_attempts_this_window
                == s.self_login_attempts_this_window + 1
            &&& s.self_login_autofire_total < u64::MAX ==> n.self_login_autofire_total
                == s.self_login_autofire_total + 1
            &&& n.reauth_banner_detected == s.reauth_banner_detected
            &&& n.reauth_detected == s.reauth_detected
            &&& n.last_reauth_alert == s.last_reauth_alert
            &&& n.login_injected == s.login_injected
            &&& n.last_login_expiry_alert == s.last_login_expiry_alert
        }),
{
}

/// A banner is on record while it shows, and the dialog that it opens is booked exactly where
/// it is opened.
pub proof fn banner_is_on_record(
    c: ReauthConfig,
    s: StateView,
    access: AccessTokenState,
    stamp: Seq<char>,
    now: Moment,
)
    ensures
        ({
            let n = banner_next(c, s, access, stamp, now);
            let opened = banner_decision(banner_evidence(c, s, access, now))
                == BannerActionView::AutoLogin;
            &&& n.reauth_banner_detected
            &&& opened ==> n.self_login_dialog_opened_at == Some(stamp)
                && n.last_self_login_attempt == Some(stamp)
            &&& !opened ==> n.self_login_dialog_opened_at == s.self_login_dialog_opened_at
                && n.last_self_login_attempt == s.last_self_login_attempt
                && n.self_login_attempts_this_window == s.self_login_attempts_this_window
            &&& n.reauth_detected == s.reauth_detected
            &&& n.login_injected == s.login_injected
        }),
{
}

/// A login dialog is given up once it has stayed open for the configured time, and forgotten
/// where its stamp names no instant; before that, and with no bound set, it is left alone.
pub proof fn open_dialog_is_given_up_in_time(s: StateView, abandon_seconds: u64, now: Moment)
    ensures
        ({
            let decision = abandon_decision(s, abandon_seconds, now);
            &&& decision == AbandonDecision::Cancel <==> abandon_seconds > 0
                && time::elapsed_at_least(
                s.self_login_dialog_opened_at,
                now,
                abandon_seconds as int,
            )
            &&& decision == AbandonDecision::Forget <==> abandon_seconds > 0 && (
            s.self_login_dialog_opened_at matches Some(t) && time::stamp_moment(t) is None)
            &&& decision != AbandonDecision::Nothing ==> abandon_next(
                s,
                abandon_seconds,
                now,
            ).self_login_dialog_opened_at is None
            &&& decision == AbandonDecision::Nothing ==> abandon_next(s, abandon_seconds, now) == s
            &&& abandon_next(s, abandon_seconds, now).self_login_attempts_this_window
                == s.self_login_attempts_this_window
        }),
{
}

/// `/login` is typed into a login screen exactly once per screen, and only while no dialog
/// opened from here is up; the screen is on record, and each such prompt is counted.
pub proof fn login_screen_is_answered_once(
    c: ReauthConfig,
    s: StateView,
    url: Seq<char>,
    stamp: Seq<char>,
    now: Moment,
)
    ensures
        ({
            let n = login_screen_next(c, s, url, stamp, now);
            let typed = !s.login_injected && s.self_login_dialog_opened_at is None;
            &&& login_inject_due(s) == typed
            &&& n.reauth_detected
            &&& n.login_injected == (s.login_injected || typed)
            &&& typed && s.reauth_inject_interrupts_total < u64::MAX
                ==> n.reauth_inject_interrupts_total == s.reauth_inject_interrupts_total + 1
            &&& !typed ==> n.reauth_inject_interrupts_total == s.reauth_inject_interrupts_total
            &&& n.self_login_dialog_opened_at == s.self_login_dialog_opened_at
        }),
{
}

/// What a look at the pane leaves behind: a banner that is gone, with nothing in its place, is
/// off the record, and a valid token then ends the window of attempts and the dialog; a login
/// screen that is gone may be answered and told again; a login screen in the place of a banner
/// leaves the banner on record.
pub proof fn quiet_pane_ends_what_is_over(
    c: ReauthConfig,
    s: StateView,
    access: AccessTokenState,
    url: Seq<char>,
    stamp: Seq<char>,
    now: Moment,
)
    ensures
        ({
            let quiet = reauth_next(c, s, ReauthSignalView::Quiet, access, stamp, now);
            let screen = reauth_next(
                c,
                s,
                ReauthSignalView::LoginScreen { url },
                access,
                stamp,
                now,
            );
            let banner = reauth_next(c, s, ReauthSignalView::Banner401, access, stamp, now);
            &&& !quiet.reauth_banner_detected && !quiet.reauth_detected
            &&& s.reauth_detected ==> !quiet.login_injected && quiet.last_reauth_alert is None
            &&& !s.reauth_detected ==> quiet.login_injected == s.login_injected
                && quiet.last_reauth_alert == s.last_reauth_alert
            &&& s.reauth_banner_detected && access == AccessTokenState::Valid
                ==> quiet.self_login_attempts_this_window == 0 && quiet.last_self_login_attempt
                is None && quiet.self_login_dialog_opened_at is None
            &&& !s.reauth_banner_detected || access != AccessTokenState::Valid
                ==> quiet.self_login_attempts_this_window == s.self_login_attempts_this_window
                && quiet.last_self_login_attempt == s.last_self_login_attempt
                && quiet.self_login_dialog_opened_at == s.self_login_dialog_opened_at
            &&& screen.reauth_banner_detected == s.reauth_banner_detected && screen.reauth_detected
            &&& screen.self_login_attempts_this_window == s.self_login_attempts_this_window
            &&& banner.reauth_banner_detected && !banner.reauth_detected
            &&& s.reauth_detected ==> !banner.login_injected && banner.last_reauth_alert is None
        }),
{
}

/// A later expiry in the credential store, against one that was seen before, is a renewal:
/// what it ends is ended, and every reading is remembered for the next comparison.
pub proof fn later_expiry_is_a_renewal(s: StateView, refresh_expiry_ms: Option<i64>)
    ensures
        ({
            let n = refresh_expiry_noted(s, refresh_expiry_ms);
            let later = refresh_expiry_ms is Some && s.last_seen_refresh_expiry_ms is Some
                && refresh_expiry_ms->0 > s.last_seen_refresh_expiry_ms->0;
            &&& n.last_seen_refresh_expiry_ms == refresh_expiry_ms
            &&& later ==> n.self_login_attempts_this_window == 0 && n.last_self_login_attempt
                is None && n.self_login_dialog_opened_at is None && !n.login_expiry_detected
                && n.login_expiry_days_left is None && n.last_login_expiry_alert is None
            &&& !later ==> n.self_login_attempts_this_window == s.self_login_attempts_this_window
                && n.last_self_login_attempt == s.last_self_login_attempt
                && n.self_login_dialog_opened_at == s.self_login_dialog_opened_at
                && n.login_expiry_detected == s.login_expiry_detected
                && n.last_login_expiry_alert == s.last_login_expiry_alert
            &&& n.last_reauth_alert == s.last_reauth_alert
        }),
{
}

/// An announced expiry is on record with its days, and its login is booked where one is
/// started. With nothing announced, and no login error in the way, the announcement is over:
/// its window is closed, and an open dialog is forgotten.
pub proof fn expiry_is_on_record_while_announced(
    c: ReauthConfig,
    s: StateView,
    action: ExpiryAction,
    credentials: CredentialExpiry,
    stamp: Seq<char>,
    now: Moment,
)
    ensures
        ({
            let n = expiry_next(c, s, action, credentials, stamp, now);
            let report = expiry_report(c, s, action, credentials, now);
            &&& action matches ExpiryAction::AlertOnly { days_left: days, corroborated: told } ==> {
                &&& n.login_expiry_detected && n.login_expiry_days_left == Some(days)
                &&& n.self_login_dialog_opened_at == s.self_login_dialog_opened_at
                &&& n.self_login_attempts_this_window == s.self_login_attempts_this_window
                &&& report matches ExpiryReport::Announced {
                    days_left,
                    corroborated,
                    first_detection,
                    login,
                    ..
                } && days_left == days && corroborated == told && first_detection
                    == !s.login_expiry_detected && !login
            }
            &&& action matches ExpiryAction::AutoLogin { days_left: days } ==> {
                &&& n.login_expiry_detected && n.login_expiry_days_left == Some(days)
                &&& n.self_login_dialog_opened_at == Some(stamp)
                &&& n.last_self_login_attempt == Some(stamp)
                &&& report matches ExpiryReport::Announced {
                    days_left,
                    corroborated,
                    first_detection,
                    login,
                    ..
                } && days_left == days && corroborated == (credentials
                    != CredentialExpiry::Unknown) && first_detection == !s.login_expiry_detected
                    && login
            }
            &&& action == ExpiryAction::Idle && !s.reauth_detected && !s.reauth_banner_detected
                ==> !n.login_expiry_detected && n.self_login_dialog_opened_at is None && report == (
            ExpiryReport::Idle { resolved: s.login_expiry_detected }) && (
            s.login_expiry_detected ==> n.self_login_attempts_this_window == 0
                && n.last_self_login_attempt is None && n.last_login_expiry_alert is None) && (
            !s.login_expiry_detected ==> n.self_login_attempts_this_window
                == s.self_login_attempts_this_window && n.last_self_login_attempt
                == s.last_self_login_attempt)
            &&& action == ExpiryAction::Idle && (s.reauth_detected || s.reauth_banner_detected)
                ==> report == ExpiryReport::Blocked
        }),
{
}

/// The login command succeeded exactly where it says so and gives an address; otherwise the
/// reason it gives is passed on, or that it gave none.
pub proof fn reply_without_an_address_failed(
    url: Option<Seq<char>>,
    reason: Option<Seq<char>>,
    ok: bool,
)
    ensures
        reply_of(url, reason, ok) is Url <==> ok && (url matches Some(u) && u.len() > 0),
        reply_of(url, reason, ok) matches SelfLoginReplyView::Url(u) ==> url == Some(u),
        reply_of(url, reason, ok) matches SelfLoginReplyView::Failed(why) ==> (reason matches Some(
            r,
        ) ==> why == r) && (reason is None ==> why
            == "self-login produced no URL and gave no reason"@),
{
}

/// The credential store is the one that is configured, or else the default one.
pub proof fn configured_store_is_read(config: Config, default_path: &str, r: String)
    requires
        call_ensures(credentials_path, (&config, default_path), r),
    ensures
        config.reauth.credentials_file@.len() > 0 ==> r@ == config.reauth.credentials_file@,
        config.reauth.credentials_file@.len() == 0 ==> r@ == default_path@,
{
}

} // verus!
