//! Decisions about the login: announced expiries and authentication errors.
use claude_watch_policy::login::{
    decide_banner_action, decide_expiry_action, AccessTokenState, BannerAction, BannerEvidence,
    CredentialExpiry, ExpiryAction, ExpiryEvidence, SelfLoginTrigger,
};

fn secs(s: f64) -> Option<i128> {
    Some((s * 1000.0) as i128)
}

fn evidence() -> ExpiryEvidence {
    ExpiryEvidence {
        pane_days_left: None,
        credentials: CredentialExpiry::Unknown,
        credentials_may_trigger: true,
        auto_enabled: true,
        auto_days: 1,
        since_last_attempt: None,
        retry_seconds: 3600,
        attempts: 0,
        max_attempts: 3,
        login_pending: false,
    }
}

#[test]
fn no_evidence_is_idle() {
    assert_eq!(decide_expiry_action(&evidence()), ExpiryAction::Idle);
}

#[test]
fn a_pane_sighting_a_healthy_credential_contradicts_is_ignored() {
    let ev = ExpiryEvidence {
        pane_days_left: Some(2),
        credentials: CredentialExpiry::Healthy,
        ..evidence()
    };
    assert_eq!(decide_expiry_action(&ev), ExpiryAction::Idle);
}

#[test]
fn an_already_expired_credential_is_left_to_the_reactive_path() {
    let ev = ExpiryEvidence {
        pane_days_left: Some(1),
        credentials: CredentialExpiry::Expired,
        ..evidence()
    };
    assert_eq!(decide_expiry_action(&ev), ExpiryAction::Idle);
}

#[test]
fn an_unreadable_credential_store_still_acts_but_uncorroborated() {
    let ev = ExpiryEvidence {
        pane_days_left: Some(2),
        credentials: CredentialExpiry::Unknown,
        ..evidence()
    };
    assert_eq!(
        decide_expiry_action(&ev),
        ExpiryAction::AlertOnly {
            days_left: 2,
            corroborated: false,
        }
    );
}

#[test]
fn the_credential_store_alone_can_carry_the_decision() {
    let ev = ExpiryEvidence {
        pane_days_left: None,
        credentials: CredentialExpiry::Expiring { days_left: 1 },
        ..evidence()
    };
    assert_eq!(decide_expiry_action(&ev), ExpiryAction::AutoLogin { days_left: 1 });
}

#[test]
fn the_credential_store_does_not_trigger_on_its_own_unless_allowed() {
    let ev = ExpiryEvidence {
        pane_days_left: None,
        credentials: CredentialExpiry::Expiring { days_left: 1 },
        credentials_may_trigger: false,
        ..evidence()
    };
    assert_eq!(decide_expiry_action(&ev), ExpiryAction::Idle);

    let vetoed = ExpiryEvidence {
        pane_days_left: Some(2),
        credentials: CredentialExpiry::Healthy,
        credentials_may_trigger: false,
        ..evidence()
    };
    assert_eq!(decide_expiry_action(&vetoed), ExpiryAction::Idle);

    let agreed = ExpiryEvidence {
        pane_days_left: Some(1),
        credentials: CredentialExpiry::Expiring { days_left: 1 },
        credentials_may_trigger: false,
        ..evidence()
    };
    assert_eq!(decide_expiry_action(&agreed), ExpiryAction::AutoLogin { days_left: 1 });
}

#[test]
fn a_warning_outside_the_auto_window_only_alerts() {
    let ev = ExpiryEvidence {
        pane_days_left: Some(3),
        credentials: CredentialExpiry::Expiring { days_left: 3 },
        ..evidence()
    };
    assert_eq!(
        decide_expiry_action(&ev),
        ExpiryAction::AlertOnly {
            days_left: 3,
            corroborated: true,
        }
    );
}

#[test]
fn disagreeing_sources_resolve_to_the_more_urgent_one() {
    let ev = ExpiryEvidence {
        pane_days_left: Some(3),
        credentials: CredentialExpiry::Expiring { days_left: 1 },
        ..evidence()
    };
    assert_eq!(decide_expiry_action(&ev), ExpiryAction::AutoLogin { days_left: 1 });
}

#[test]
fn a_recent_attempt_blocks_a_re_fire_and_an_old_one_does_not() {
    let recent = ExpiryEvidence {
        credentials: CredentialExpiry::Expiring { days_left: 1 },
        since_last_attempt: secs(60.0),
        attempts: 1,
        ..evidence()
    };
    assert_eq!(
        decide_expiry_action(&recent),
        ExpiryAction::AlertOnly {
            days_left: 1,
            corroborated: true,
        }
    );

    let stale = ExpiryEvidence {
        since_last_attempt: secs(3601.0),
        ..recent
    };
    assert_eq!(decide_expiry_action(&stale), ExpiryAction::AutoLogin { days_left: 1 });
}

#[test]
fn the_attempt_budget_stops_auto_fire_but_not_the_alert() {
    let ev = ExpiryEvidence {
        credentials: CredentialExpiry::Expiring { days_left: 1 },
        since_last_attempt: secs(99999.0),
        attempts: 3,
        max_attempts: 3,
        ..evidence()
    };
    assert_eq!(
        decide_expiry_action(&ev),
        ExpiryAction::AlertOnly {
            days_left: 1,
            corroborated: true,
        }
    );
}

#[test]
fn a_pending_login_dialog_blocks_a_second_fire() {
    let ev = ExpiryEvidence {
        credentials: CredentialExpiry::Expiring { days_left: 1 },
        since_last_attempt: secs(99999.0),
        login_pending: true,
        ..evidence()
    };
    assert_eq!(
        decide_expiry_action(&ev),
        ExpiryAction::AlertOnly {
            days_left: 1,
            corroborated: true,
        }
    );
}

#[test]
fn auto_fire_disabled_degrades_to_alert_only() {
    let ev = ExpiryEvidence {
        credentials: CredentialExpiry::Expiring { days_left: 1 },
        auto_enabled: false,
        ..evidence()
    };
    assert_eq!(
        decide_expiry_action(&ev),
        ExpiryAction::AlertOnly {
            days_left: 1,
            corroborated: true,
        }
    );
}

fn banner_evidence() -> BannerEvidence {
    BannerEvidence {
        access_token: AccessTokenState::Expired,
        auto_enabled: true,
        since_last_attempt: None,
        retry_seconds: 3600,
        attempts: 0,
        max_attempts: 3,
        login_pending: false,
    }
}

#[test]
fn banner_with_expired_access_token_fires_self_login() {
    assert_eq!(decide_banner_action(&banner_evidence()), BannerAction::AutoLogin);
    let missing = BannerEvidence {
        access_token: AccessTokenState::Missing,
        ..banner_evidence()
    };
    assert_eq!(decide_banner_action(&missing), BannerAction::AutoLogin);
}

#[test]
fn banner_with_a_valid_access_token_is_ignored_outright() {
    let ev = BannerEvidence {
        access_token: AccessTokenState::Valid,
        ..banner_evidence()
    };
    assert_eq!(decide_banner_action(&ev), BannerAction::Ignore);
    let ev = BannerEvidence {
        access_token: AccessTokenState::Valid,
        since_last_attempt: secs(99999.0),
        attempts: 0,
        ..banner_evidence()
    };
    assert_eq!(decide_banner_action(&ev), BannerAction::Ignore);
}

#[test]
fn banner_with_an_unreadable_store_alerts_uncorroborated_and_never_fires() {
    let ev = BannerEvidence {
        access_token: AccessTokenState::Unknown,
        ..banner_evidence()
    };
    assert_eq!(
        decide_banner_action(&ev),
        BannerAction::AlertOnly {
            corroborated: false,
            reason: "credential store unreadable",
        }
    );
}

#[test]
fn banner_auto_disabled_degrades_to_alert_only() {
    let ev = BannerEvidence {
        auto_enabled: false,
        ..banner_evidence()
    };
    assert_eq!(
        decide_banner_action(&ev),
        BannerAction::AlertOnly {
            corroborated: true,
            reason: "auto-login disabled",
        }
    );
}

#[test]
fn banner_fire_is_bounded_by_the_shared_self_login_knobs() {
    let max_attempts = 3;
    let retry_seconds = 3600;
    let mut attempts = 0;

    let ev = BannerEvidence {
        attempts,
        max_attempts,
        retry_seconds,
        ..banner_evidence()
    };
    assert_eq!(decide_banner_action(&ev), BannerAction::AutoLogin);
    attempts += 1;

    let ev = BannerEvidence {
        attempts,
        since_last_attempt: secs(10.0),
        login_pending: true,
        ..banner_evidence()
    };
    assert_eq!(
        decide_banner_action(&ev),
        BannerAction::AlertOnly {
            corroborated: true,
            reason: "login dialog already open",
        }
    );

    let ev = BannerEvidence {
        attempts,
        since_last_attempt: secs(retry_seconds as f64 - 1.0),
        login_pending: false,
        ..banner_evidence()
    };
    assert_eq!(
        decide_banner_action(&ev),
        BannerAction::AlertOnly {
            corroborated: true,
            reason: "retry spacing",
        }
    );

    while attempts < max_attempts {
        let ev = BannerEvidence {
            attempts,
            since_last_attempt: secs(retry_seconds as f64),
            ..banner_evidence()
        };
        assert_eq!(decide_banner_action(&ev), BannerAction::AutoLogin, "attempt {attempts}");
        attempts += 1;
    }

    let ev = BannerEvidence {
        attempts,
        since_last_attempt: secs(99999.0),
        ..banner_evidence()
    };
    assert_eq!(
        decide_banner_action(&ev),
        BannerAction::AlertOnly {
            corroborated: true,
            reason: "attempt budget exhausted",
        }
    );
}

#[test]
fn banner_and_expiry_paths_share_one_budget_and_one_latch() {
    let proactive_pending = ExpiryEvidence {
        pane_days_left: Some(1),
        credentials: CredentialExpiry::Expiring { days_left: 1 },
        since_last_attempt: secs(5.0),
        attempts: 1,
        login_pending: true,
        ..evidence()
    };
    assert!(matches!(
        decide_expiry_action(&proactive_pending),
        ExpiryAction::AlertOnly { .. }
    ));
    let banner_same_state = BannerEvidence {
        since_last_attempt: secs(5.0),
        attempts: 1,
        login_pending: true,
        ..banner_evidence()
    };
    assert_eq!(
        decide_banner_action(&banner_same_state),
        BannerAction::AlertOnly {
            corroborated: true,
            reason: "login dialog already open",
        }
    );
}

#[test]
fn self_login_trigger_labels_are_stable() {
    assert_eq!(
        SelfLoginTrigger::ExpiryWarning { days_left: 2 }.as_str(),
        "expiry_warning"
    );
    assert_eq!(SelfLoginTrigger::Banner401.as_str(), "401_banner");
    assert_eq!(
        SelfLoginTrigger::ExpiryWarning { days_left: 2 }.days_left(),
        Some(2)
    );
    assert_eq!(SelfLoginTrigger::Banner401.days_left(), None);
}
