use dwd::address::IpAddress;
use dwd::update_loop::{elapsed_millis, LoopAction, LoopEvent, LoopState, Phase, Skip, UpdateLoop};

fn found(provider: &str, ip: &str) -> Option<(String, String)> {
    Some((provider.to_string(), ip.to_string()))
}

fn address(text: &str) -> IpAddress {
    IpAddress::parse(text).expect("an address")
}

/// A loop that has published `ip` at `at` and is idle again.
fn loop_after_publishing(ip: &str, at: u64) -> UpdateLoop {
    let updater = UpdateLoop::new();
    let (updater, action) = updater.step(LoopEvent::Tick { now: at - 30 });
    assert_eq!(action, LoopAction::Discover);
    let (updater, action) =
        updater.step(LoopEvent::Discovered { found: found("myip.la", ip), now: at - 20 });
    assert_eq!(
        action,
        LoopAction::Publish {
            provider: "myip.la".to_string(),
            ip: address(ip),
            discovery_took: Some(10)
        }
    );
    let (updater, action) = updater.step(LoopEvent::Published { now: at });
    assert_eq!(action, LoopAction::Completed { took: Some(20) });
    assert_eq!(updater.phase, Phase::Idle);
    updater
}

#[test]
fn elapsed_time_never_fails() {
    assert_eq!(elapsed_millis(1_000, 1_250), Some(250));
    assert_eq!(elapsed_millis(7, 7), Some(0));
    assert_eq!(elapsed_millis(0, u64::MAX), Some(u64::MAX));
    assert_eq!(elapsed_millis(1_250, 1_000), None);
    assert_eq!(elapsed_millis(u64::MAX, 0), None);
}

#[test]
fn a_new_loop_is_idle_and_remembers_nothing() {
    let updater = UpdateLoop::new();
    assert_eq!(updater.phase, Phase::Idle);
    assert_eq!(updater.state, LoopState::new());
    assert_eq!(updater.state.last_published_ip(), None);
    assert_eq!(updater.state.last_published_at(), None);
}

#[test]
fn an_address_is_only_what_parses() {
    assert_eq!(IpAddress::parse("203.0.113.7").map(|ip| ip.as_str().to_string()), Some("203.0.113.7".to_string()));
    assert_eq!(IpAddress::parse("2001:DB8:2de::e13").map(|ip| ip.as_str().to_string()), Some("2001:DB8:2de::e13".to_string()));
    assert!(IpAddress::parse("not-an-ip").is_none());
    assert!(IpAddress::parse("203.0.113.7\n").is_none());
    assert!(IpAddress::parse("").is_none());
    let ip = address("203.0.113.7");
    assert!(ip.same_as(&address("203.0.113.7")));
    assert!(!ip.same_as(&address("203.0.113.8")));
    assert!(ip.duplicate().same_as(&ip));
    assert!(!address("2001:db8::1").same_as(&address("2001:DB8::1")));
}

#[test]
fn the_first_address_is_published_and_remembered() {
    let updater = loop_after_publishing("203.0.113.7", 1_000);
    assert_eq!(updater.state.last_published_ip(), Some(&address("203.0.113.7")));
    assert_eq!(updater.state.last_published_at(), Some(1_000));
}

#[test]
fn nothing_discovered_means_no_publishing() {
    let updater = loop_after_publishing("203.0.113.7", 1_000);
    let (updater, _) = updater.step(LoopEvent::Tick { now: 2_000 });
    let (updater, action) = updater.step(LoopEvent::Discovered { found: None, now: 2_500 });
    assert_eq!(
        action,
        LoopAction::Skip { reason: Skip::NoneSucceeded, discovery_took: Some(500) }
    );
    assert_eq!(updater.phase, Phase::Idle);
    assert_eq!(updater.state.last_published_ip(), Some(&address("203.0.113.7")));
    assert_eq!(updater.state.last_published_at(), Some(1_000));
    // publishing that was never asked for changes nothing
    let (updater, action) = updater.step(LoopEvent::Published { now: 2_600 });
    assert_eq!(action, LoopAction::Nothing);
    assert_eq!(updater.state.last_published_at(), Some(1_000));
}

#[test]
fn the_same_address_is_not_published_again() {
    let updater = loop_after_publishing("203.0.113.7", 1_000);
    let (updater, action) = updater.step(LoopEvent::Tick { now: 61_000 });
    assert_eq!(action, LoopAction::Discover);
    let (updater, action) = updater
        .step(LoopEvent::Discovered { found: found("ipip.net", "203.0.113.7"), now: 61_400 });
    assert_eq!(
        action,
        LoopAction::Skip {
            reason: Skip::Unchanged {
                provider: "ipip.net".to_string(),
                ip: address("203.0.113.7"),
                since_last: Some(60_400),
            },
            discovery_took: Some(400),
        }
    );
    assert_eq!(updater.phase, Phase::Idle);
    assert_eq!(updater.state.last_published_ip(), Some(&address("203.0.113.7")));
    assert_eq!(updater.state.last_published_at(), Some(1_000));
}

#[test]
fn the_same_address_is_skipped_however_long_ago_it_was_published() {
    let updater = loop_after_publishing("203.0.113.7", 1_000);
    let (updater, _) = updater.step(LoopEvent::Tick { now: u64::MAX - 10 });
    let (updater, action) = updater
        .step(LoopEvent::Discovered { found: found("myip.la", "203.0.113.7"), now: u64::MAX });
    assert_eq!(
        action,
        LoopAction::Skip {
            reason: Skip::Unchanged {
                provider: "myip.la".to_string(),
                ip: address("203.0.113.7"),
                since_last: Some(u64::MAX - 1_000),
            },
            discovery_took: Some(10),
        }
    );
    assert_eq!(updater.state.last_published_at(), Some(1_000));
}

#[test]
fn a_changed_address_is_published_and_takes_the_place_of_the_old_one() {
    let updater = loop_after_publishing("203.0.113.7", 1_000);
    let (updater, _) = updater.step(LoopEvent::Tick { now: 61_000 });
    let (updater, action) = updater
        .step(LoopEvent::Discovered { found: found("vnet.one", "203.0.113.8"), now: 61_200 });
    assert_eq!(
        action,
        LoopAction::Publish {
            provider: "vnet.one".to_string(),
            ip: address("203.0.113.8"),
            discovery_took: Some(200),
        }
    );
    assert_eq!(updater.phase, Phase::Publishing { ip: address("203.0.113.8"), since: 61_200 });
    // until publishing has come back the old address is still the last one
    assert_eq!(updater.state.last_published_ip(), Some(&address("203.0.113.7")));
    assert_eq!(updater.state.last_published_at(), Some(1_000));
    let (updater, action) = updater.step(LoopEvent::Published { now: 62_000 });
    assert_eq!(action, LoopAction::Completed { took: Some(800) });
    assert_eq!(updater.phase, Phase::Idle);
    assert_eq!(updater.state.last_published_ip(), Some(&address("203.0.113.8")));
    assert_eq!(updater.state.last_published_at(), Some(62_000));
}

#[test]
fn what_is_no_address_is_neither_published_nor_remembered() {
    let updater = UpdateLoop::new();
    let (updater, _) = updater.step(LoopEvent::Tick { now: 10 });
    let (updater, action) =
        updater.step(LoopEvent::Discovered { found: found("myip.la", "not-an-ip"), now: 20 });
    assert_eq!(
        action,
        LoopAction::Skip {
            reason: Skip::InvalidAddress { provider: "myip.la".to_string() },
            discovery_took: Some(10),
        }
    );
    assert_eq!(updater.phase, Phase::Idle);
    assert_eq!(updater.state.last_published_ip(), None);
    assert_eq!(updater.state.last_published_at(), None);

    let updater = loop_after_publishing("203.0.113.7", 1_000);
    let (updater, _) = updater.step(LoopEvent::Tick { now: 2_000 });
    let (updater, action) =
        updater.step(LoopEvent::Discovered { found: found("vnet.one", "203.0.113.7\n"), now: 2_001 });
    assert_eq!(
        action,
        LoopAction::Skip {
            reason: Skip::InvalidAddress { provider: "vnet.one".to_string() },
            discovery_took: Some(1),
        }
    );
    assert_eq!(updater.state.last_published_ip(), Some(&address("203.0.113.7")));
    assert_eq!(updater.state.last_published_at(), Some(1_000));
}

#[test]
fn ticks_during_a_cycle_start_no_second_cycle() {
    let updater = UpdateLoop::new();
    let (updater, action) = updater.step(LoopEvent::Tick { now: 100 });
    assert_eq!(action, LoopAction::Discover);
    let (updater, action) = updater.step(LoopEvent::Tick { now: 200 });
    assert_eq!(action, LoopAction::Nothing);
    assert_eq!(updater.phase, Phase::Discovering { since: 100 });
    let (updater, action) =
        updater.step(LoopEvent::Discovered { found: found("myip.la", "192.0.2.1"), now: 250 });
    assert_eq!(
        action,
        LoopAction::Publish {
            provider: "myip.la".to_string(),
            ip: address("192.0.2.1"),
            discovery_took: Some(150),
        }
    );
    let (updater, action) = updater.step(LoopEvent::Tick { now: 300 });
    assert_eq!(action, LoopAction::Nothing);
    let (updater, action) =
        updater.step(LoopEvent::Discovered { found: found("myip.la", "192.0.2.2"), now: 310 });
    assert_eq!(action, LoopAction::Nothing);
    assert_eq!(updater.phase, Phase::Publishing { ip: address("192.0.2.1"), since: 250 });
    let (updater, action) = updater.step(LoopEvent::Published { now: 400 });
    assert_eq!(action, LoopAction::Completed { took: Some(150) });
    let (updater, action) = updater.step(LoopEvent::Tick { now: 500 });
    assert_eq!(action, LoopAction::Discover);
    assert_eq!(updater.phase, Phase::Discovering { since: 500 });
}

#[test]
fn events_that_nothing_waits_for_are_passed_over() {
    let updater = UpdateLoop::new();
    let (updater, action) =
        updater.step(LoopEvent::Discovered { found: found("myip.la", "192.0.2.1"), now: 5 });
    assert_eq!(action, LoopAction::Nothing);
    let (updater, action) = updater.step(LoopEvent::Published { now: 6 });
    assert_eq!(action, LoopAction::Nothing);
    assert_eq!(updater, UpdateLoop::new());
}

#[test]
fn a_clock_that_goes_backwards_stops_nothing() {
    let updater = loop_after_publishing("203.0.113.7", 10_000);
    let (updater, _) = updater.step(LoopEvent::Tick { now: 9_000 });
    let (updater, action) = updater
        .step(LoopEvent::Discovered { found: found("myip.la", "203.0.113.7"), now: 8_000 });
    assert_eq!(
        action,
        LoopAction::Skip {
            reason: Skip::Unchanged {
                provider: "myip.la".to_string(),
                ip: address("203.0.113.7"),
                since_last: None,
            },
            discovery_took: None,
        }
    );
    let (updater, _) = updater.step(LoopEvent::Tick { now: 7_000 });
    let (updater, action) = updater
        .step(LoopEvent::Discovered { found: found("myip.la", "203.0.113.9"), now: 6_000 });
    assert_eq!(
        action,
        LoopAction::Publish {
            provider: "myip.la".to_string(),
            ip: address("203.0.113.9"),
            discovery_took: None,
        }
    );
    let (updater, action) = updater.step(LoopEvent::Published { now: 5_000 });
    assert_eq!(action, LoopAction::Completed { took: None });
    assert_eq!(updater.state.last_published_ip(), Some(&address("203.0.113.9")));
    assert_eq!(updater.state.last_published_at(), Some(5_000));
}
