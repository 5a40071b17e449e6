use ipv6_watch::config::{Config, SmtpConfig, CONFIG_TEMPLATE};
use ipv6_watch::detector::{accepts_event, begin, step, Action, Event, Outcome, RunError, Stage};
use ipv6_watch::notifier::{compose, sender_display, NotificationEvent};
use ipv6_watch::probe::{AddressProbe, ProbeAction};

fn smtp(login: &str, password: &str) -> SmtpConfig {
    SmtpConfig {
        server: "smtp.example.com".to_string(),
        port: 587,
        login: login.to_string(),
        password: password.to_string(),
        from_addr: "watch@example.com".to_string(),
        to_addr: "ops@example.com".to_string(),
    }
}

fn config(ipv6: Option<&str>) -> Config {
    Config { smtp: smtp("user", "secret"), ipv6: ipv6.map(|s| s.to_string()) }
}

fn probed(stage: Stage, addr: &str) -> (Stage, Action) {
    step(stage, Event::AddressProbed(Some(addr.to_string())))
}

fn loaded(cfg: Config) -> Stage {
    let (stage, _) = begin();
    let (stage, action) = step(stage, Event::ConfigLoaded(cfg));
    assert!(matches!(action, Action::Probe));
    stage
}

#[test]
fn scenario_same_address_is_unchanged() {
    let stage = loaded(config(Some("2001:db8::1")));
    let (next, action) = probed(stage, "2001:db8::1");
    assert!(matches!(next, Stage::Done));
    match action {
        Action::Finish(r) => assert_eq!(r, Ok(Outcome::Unchanged)),
        _ => panic!("expected the run to finish"),
    }
}

#[test]
fn scenario_empty_record_notifies_and_saves() {
    let stage = loaded(config(Some("")));
    let (stage, action) = probed(stage, "2001:db8::2");
    match action {
        Action::Send(relay, notice) => {
            assert_eq!(relay.to_addr, "ops@example.com");
            assert!(notice.body.contains("旧地址: 无"));
            assert!(notice.body.contains("新地址: 2001:db8::2"));
            assert_eq!(notice.subject, "IPv6地址更新通知");
            assert_eq!(notice.previous, None);
        }
        _ => panic!("expected a notification"),
    }
    let (stage, action) = step(stage, Event::Delivered(true));
    match action {
        Action::Save(cfg) => {
            assert_eq!(cfg.ipv6, Some("2001:db8::2".to_string()));
            assert_eq!(cfg.smtp.login, "user");
        }
        _ => panic!("expected the configuration to be saved"),
    }
    let (stage, action) = step(stage, Event::Persisted(true));
    assert!(matches!(stage, Stage::Done));
    assert!(matches!(action, Action::Finish(Ok(Outcome::Notified))));
}

#[test]
fn scenario_absent_config_writes_template_and_stops() {
    let (stage, action) = begin();
    assert!(matches!(action, Action::LoadConfig));
    let (stage, action) = step(stage, Event::ConfigAbsent);
    assert!(matches!(action, Action::WriteTemplate));
    let (stage, action) = step(stage, Event::TemplateWritten(true));
    assert!(matches!(stage, Stage::Done));
    match action {
        Action::Finish(r) => assert_eq!(r, Err(RunError::ConfigIncomplete)),
        _ => panic!("expected the run to stop"),
    }
}

#[test]
fn template_has_empty_credentials() {
    let table: toml::Table = toml::from_str(CONFIG_TEMPLATE).unwrap();
    let smtp = table["smtp"].as_table().unwrap();
    assert_eq!(smtp["login"].as_str(), Some(""));
    assert_eq!(smtp["password"].as_str(), Some(""));
    assert_eq!(smtp["port"].as_integer(), Some(587));
    assert_eq!(table["ipv6"].as_str(), Some(""));
}

#[test]
fn template_write_failure_is_config_missing() {
    let (stage, _) = begin();
    let (stage, _) = step(stage, Event::ConfigAbsent);
    let (_, action) = step(stage, Event::TemplateWritten(false));
    assert!(matches!(action, Action::Finish(Err(RunError::ConfigMissing))));
}

#[test]
fn unreadable_config_is_config_missing() {
    let (stage, _) = begin();
    let (_, action) = step(stage, Event::ConfigUnreadable);
    assert!(matches!(action, Action::Finish(Err(RunError::ConfigMissing))));
}

#[test]
fn empty_password_is_incomplete_without_probe() {
    let (stage, _) = begin();
    let cfg = Config { smtp: smtp("user", ""), ipv6: None };
    let (stage, action) = step(stage, Event::ConfigLoaded(cfg));
    assert!(matches!(stage, Stage::Done));
    assert!(matches!(action, Action::Finish(Err(RunError::ConfigIncomplete))));
}

#[test]
fn empty_login_is_incomplete() {
    let cfg = Config { smtp: smtp("", "secret"), ipv6: None };
    assert!(!cfg.is_configured());
    assert!(config(None).is_configured());
}

#[test]
fn undetectable_address_ends_run() {
    let stage = loaded(config(Some("2001:db8::1")));
    let (stage, action) = step(stage, Event::AddressProbed(None));
    assert!(matches!(stage, Stage::Done));
    assert!(matches!(action, Action::Finish(Err(RunError::AddressUndetectable))));
}

#[test]
fn second_run_with_same_address_is_unchanged() {
    let stage = loaded(config(Some("2001:db8::1")));
    let (stage, action) = probed(stage, "2001:db8::5");
    assert!(matches!(action, Action::Send(_, _)));
    let (_, action) = step(stage, Event::Delivered(true));
    let saved = match action {
        Action::Save(cfg) => cfg,
        _ => panic!("expected the configuration to be saved"),
    };
    let stage = loaded(saved);
    let (_, action) = probed(stage, "2001:db8::5");
    assert!(matches!(action, Action::Finish(Ok(Outcome::Unchanged))));
}

#[test]
fn failed_delivery_saves_nothing() {
    let stage = loaded(config(Some("2001:db8::1")));
    let (stage, _) = probed(stage, "2001:db8::9");
    let (stage, action) = step(stage, Event::Delivered(false));
    assert!(matches!(action, Action::Finish(Err(RunError::DeliveryFailed))));
    assert!(!accepts_event(&stage, &Event::Persisted(true)));
}

#[test]
fn failed_save_is_persistence_failed() {
    let stage = loaded(config(None));
    let (stage, _) = probed(stage, "2001:db8::3");
    let (stage, _) = step(stage, Event::Delivered(true));
    let (_, action) = step(stage, Event::Persisted(false));
    assert!(matches!(action, Action::Finish(Err(RunError::PersistenceFailed))));
}

#[test]
fn absent_record_always_notifies() {
    let stage = loaded(config(None));
    let (_, action) = probed(stage, "2001:db8::7");
    match action {
        Action::Send(_, notice) => {
            assert_eq!(notice.body, "IPv6地址已更新\n旧地址: 无\n新地址: 2001:db8::7");
            assert_eq!(notice.current, "2001:db8::7");
        }
        _ => panic!("expected a notification"),
    }
}

#[test]
fn changed_address_names_previous() {
    let stage = loaded(config(Some("2001:db8::1")));
    let (_, action) = probed(stage, "2001:db8::2");
    match action {
        Action::Send(_, notice) => {
            assert_eq!(notice.previous, Some("2001:db8::1".to_string()));
            assert_eq!(notice.body, "IPv6地址已更新\n旧地址: 2001:db8::1\n新地址: 2001:db8::2");
        }
        _ => panic!("expected a notification"),
    }
}

#[test]
fn stage_accepts_only_its_event() {
    let (stage, _) = begin();
    assert!(accepts_event(&stage, &Event::ConfigAbsent));
    assert!(!accepts_event(&stage, &Event::Delivered(true)));
}

#[test]
fn last_observed_reads_empty_as_none() {
    assert_eq!(config(Some("")).last_observed(), None);
    assert_eq!(config(None).last_observed(), None);
    assert_eq!(config(Some("2001:db8::1")).last_observed(), Some("2001:db8::1".to_string()));
    let c = config(None).with_observed("2001:db8::4".to_string());
    assert_eq!(c.ipv6, Some("2001:db8::4".to_string()));
}

#[test]
fn probe_tries_candidates_in_order() {
    let mut probe = AddressProbe::public_resolvers();
    match probe.first_action() {
        ProbeAction::Attempt(c) => assert_eq!(c, "[2001:4860:4860::8888]:80"),
        _ => panic!("expected an attempt"),
    }
    match probe.observe(None) {
        ProbeAction::Attempt(c) => assert_eq!(c, "[2001:4860:4860::8844]:80"),
        _ => panic!("expected an attempt"),
    }
    match probe.observe(Some("2001:db8::abcd".to_string())) {
        ProbeAction::Detected(a) => assert_eq!(a, "2001:db8::abcd"),
        _ => panic!("expected a detected address"),
    }
}

#[test]
fn probe_exhausts_when_all_fail() {
    let mut probe = AddressProbe::public_resolvers();
    assert!(matches!(probe.first_action(), ProbeAction::Attempt(_)));
    for _ in 0..3 {
        assert!(matches!(probe.observe(None), ProbeAction::Attempt(_)));
    }
    assert!(matches!(probe.observe(None), ProbeAction::Exhausted));
}

#[test]
fn probe_over_no_candidates_is_exhausted() {
    let probe = AddressProbe::new(Vec::new());
    assert!(matches!(probe.first_action(), ProbeAction::Exhausted));
}

#[test]
fn sender_has_display_name() {
    assert_eq!(sender_display(&"a@example.com".to_string()), "IPv6监控 <a@example.com>");
}

#[test]
fn compose_builds_message() {
    let notice = NotificationEvent::new(None, "2001:db8::2".to_string());
    let msg = compose(&smtp("user", "secret"), &notice).unwrap();
    let text = String::from_utf8(msg.formatted()).unwrap();
    assert!(text.contains("ops@example.com"));
    assert!(text.contains("watch@example.com"));
}

#[test]
fn compose_rejects_bad_recipient() {
    let notice = NotificationEvent::new(None, "2001:db8::2".to_string());
    let mut relay = smtp("user", "secret");
    relay.to_addr = "not an address".to_string();
    assert!(matches!(compose(&relay, &notice), Err(RunError::DeliveryFailed)));
}

#[test]
fn compose_rejects_bad_sender() {
    let notice = NotificationEvent::new(None, "2001:db8::2".to_string());
    let mut relay = smtp("user", "secret");
    relay.from_addr = "nobody".to_string();
    assert!(matches!(compose(&relay, &notice), Err(RunError::DeliveryFailed)));
}
