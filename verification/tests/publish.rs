use dwd::config::Config;
use dwd::dns_provider::dynv6_com::{self, ConfigDynv6Com};
use dwd::dns_provider::http::{
    decoding, is_error_status, reply_of, Decoding, Method, Reading, Reply, Request,
};
use dwd::dns_provider::name_com::{self, find_record, ConfigNameCom, Record};
use dwd::dns_provider::{
    conclude, pick_credential, update, update_dns_for_all, update_record, Action, DnsProvider,
    Environment, Progress, PublishAction, PublishEvent, Publishing, UnknownProvider, UpdateError,
    Variable,
};

fn text(s: &str) -> String {
    s.to_string()
}

fn record(id: i32, host: Option<&str>, answer: &str) -> Record {
    Record {
        id,
        domain_name: text("xieal.me"),
        record_host: host.map(text),
        record_type: text("A"),
        record_answer: text(answer),
        record_ttl: 300,
    }
}

fn name_com_conf(host: Option<&str>) -> ConfigNameCom {
    ConfigNameCom {
        domain: text("xieal.me"),
        record_type: text("A"),
        record_host: host.map(text),
        record_ttl: 600,
        username: Some(text("alice")),
        token: Some(text("s3cr3t")),
    }
}

fn dynv6_conf() -> ConfigDynv6Com {
    ConfigDynv6Com { zone: text("dwd-unittest.dynv6.net"), token: Some(text("t0k3n")) }
}

fn no_environment() -> Environment {
    Environment { name_com_username: None, name_com_token: None, dynv6_com_token: None }
}

fn config(names: &[&str], name_com: Option<ConfigNameCom>, dynv6_com: Option<ConfigDynv6Com>) -> Config {
    Config {
        dns_provider: names.iter().map(|n| text(n)).collect(),
        ip_provider: vec![text("myip.la")],
        interval: 60,
        name_com,
        dynv6_com,
    }
}

/// Updates one provider to its end. `replies` are handed out one by one
/// for the requests that are sent.
fn run_update(
    conf: &Config,
    provider: DnsProvider,
    ip: &str,
    environment: &Environment,
    replies: Vec<Reply>,
) -> (Result<(), UpdateError>, Vec<Request>) {
    let mut replies = replies.into_iter();
    let mut sent = Vec::new();
    let mut progress = Progress::Start;
    let mut reply = None;
    for _ in 0..8 {
        let (next, action) = update(conf, provider, ip, environment, progress, reply);
        progress = next;
        match action {
            Action::Send(request) => {
                sent.push(request);
                reply = Some(replies.next().expect("a reply for each request"));
            }
            Action::Finished(outcome) => {
                assert_eq!(progress, Progress::Done);
                return (outcome, sent);
            }
            Action::Nothing => panic!("nothing to do in the middle of an update"),
        }
    }
    panic!("the update did not end");
}

/// Walks over all configured providers. `replies[i]` are the replies for
/// the provider named at place `i`. Returns everything the walk asked for,
/// in order.
fn publish(conf: &Config, ip: &str, replies: Vec<Vec<Reply>>) -> Vec<PublishAction> {
    let mut replies: Vec<Option<Vec<Reply>>> = replies.into_iter().map(Some).collect();
    let mut actions = Vec::new();
    let mut state = Publishing::Next(0);
    let mut event = PublishEvent::Go;
    for _ in 0..(3 * conf.dns_provider.len() + 2) {
        let (next, action) = update_dns_for_all(conf, state, event);
        state = next;
        event = match &action {
            PublishAction::Update { index, provider } => {
                let (outcome, _) = run_update(
                    conf,
                    *provider,
                    ip,
                    &no_environment(),
                    replies[*index].take().expect("each provider is updated once"),
                );
                PublishEvent::Updated(outcome)
            }
            PublishAction::Finished => {
                assert_eq!(state, Publishing::Done);
                actions.push(action);
                return actions;
            }
            _ => PublishEvent::Go,
        };
        actions.push(action);
    }
    panic!("the walk did not end");
}

#[test]
fn dns_provider_names_are_recognised() {
    assert_eq!(DnsProvider::try_from("name.com"), Ok(DnsProvider::NameCom));
    assert_eq!(DnsProvider::try_from("dynv6.com"), Ok(DnsProvider::Dynv6Com));
    assert_eq!(DnsProvider::try_from("Name.com"), Err(UnknownProvider));
    assert_eq!(DnsProvider::try_from("dynv6"), Err(UnknownProvider));
    assert_eq!(DnsProvider::try_from(""), Err(UnknownProvider));
    assert_eq!(DnsProvider::try_from("myip.la"), Err(UnknownProvider));
    assert_eq!(UnknownProvider.message(), "Unknown provider");
}

#[test]
fn every_status_but_success_is_an_error() {
    assert!(is_error_status(0));
    assert!(is_error_status(100));
    assert!(is_error_status(199));
    assert!(!is_error_status(200));
    assert!(!is_error_status(204));
    assert!(!is_error_status(299));
    assert!(is_error_status(300));
    assert!(is_error_status(302));
    assert!(is_error_status(400));
    assert!(is_error_status(404));
    assert!(is_error_status(500));
    assert!(is_error_status(599));
    assert!(is_error_status(600));
    assert!(is_error_status(u16::MAX));
}

#[test]
fn record_update_changes_type_answer_and_lifetime_only() {
    let mut r = Record {
        id: 186472068,
        domain_name: text("xieal.me"),
        record_host: Some(text("test")),
        record_type: text("A"),
        record_answer: text("127.0.0.1"),
        record_ttl: 300,
    };
    r.update("AAAA", "2001:db8::1", &3600);
    assert_eq!(
        r,
        Record {
            id: 186472068,
            domain_name: text("xieal.me"),
            record_host: Some(text("test")),
            record_type: text("AAAA"),
            record_answer: text("2001:db8::1"),
            record_ttl: 3600,
        }
    );
    assert_eq!(r.duplicate(), r);
}

#[test]
fn the_record_of_the_host_is_the_first_that_matches() {
    let records = vec![
        record(1, Some("www"), "192.0.2.1"),
        record(2, None, "192.0.2.2"),
        record(3, Some("test"), "192.0.2.3"),
        record(4, Some("test"), "192.0.2.4"),
        record(5, None, "192.0.2.5"),
        record(6, Some(""), "192.0.2.6"),
    ];
    assert_eq!(find_record(&records, &Some(text("test"))), Some(record(3, Some("test"), "192.0.2.3")));
    assert_eq!(find_record(&records, &Some(text("www"))), Some(record(1, Some("www"), "192.0.2.1")));
    assert_eq!(find_record(&records, &None), Some(record(2, None, "192.0.2.2")));
    assert_eq!(find_record(&records, &Some(text(""))), Some(record(6, Some(""), "192.0.2.6")));
    assert_eq!(find_record(&records, &Some(text("mail"))), None);
    assert_eq!(find_record(&records, &Some(text("Test"))), None);
    assert_eq!(find_record(&Vec::new(), &None), None);
    assert_eq!(find_record(&vec![record(1, Some("www"), "192.0.2.1")], &None), None);
}

#[test]
fn credentials_come_from_the_settings_first() {
    let configured = Some(text("from-settings"));
    let environment = Some(text("from-environment"));
    assert_eq!(
        pick_credential(&configured, &environment, Variable::NameComToken),
        Ok(text("from-settings"))
    );
    assert_eq!(pick_credential(&configured, &None, Variable::NameComToken), Ok(text("from-settings")));
    assert_eq!(
        pick_credential(&None, &environment, Variable::NameComToken),
        Ok(text("from-environment"))
    );
    assert_eq!(
        pick_credential(&None, &None, Variable::Dynv6ComToken),
        Err(UpdateError::MissingVariable(Variable::Dynv6ComToken))
    );
    assert_eq!(Variable::NameComUsername.name(), "NAME_COM_USERNAME");
    assert_eq!(Variable::NameComToken.name(), "NAME_COM_TOKEN");
    assert_eq!(Variable::Dynv6ComToken.name(), "DYNV6_COM_TOKEN");
}

#[test]
fn update_errors_have_their_words() {
    assert_eq!(
        UpdateError::MissingConfig(DnsProvider::NameCom).message(),
        "The config.name_com is required."
    );
    assert_eq!(
        UpdateError::MissingConfig(DnsProvider::Dynv6Com).message(),
        "The config.dynv6_com is required."
    );
    assert_eq!(
        UpdateError::MissingVariable(Variable::NameComUsername).message(),
        "Please set env variable USERNAME."
    );
    assert_eq!(
        UpdateError::MissingVariable(Variable::NameComToken).message(),
        "Please set env variable TOKEN."
    );
    assert_eq!(
        UpdateError::MissingVariable(Variable::Dynv6ComToken).message(),
        "Please set env variable DYNV6_COM_TOKEN."
    );
    assert_eq!(UpdateError::Url(text("empty host")).message(), "empty host");
    assert_eq!(UpdateError::Transport(text("timed out")).message(), "timed out");
    assert_eq!(UpdateError::Api(text("Not Found")).message(), "API response error: Not Found");
    assert_eq!(UpdateError::Undecodable(text("expected value")).message(), "expected value");
    assert_eq!(
        UpdateError::RecordNotFound.message(),
        "No record of the configured host was found."
    );
}

#[test]
fn replies_are_read_as_the_end_of_an_update() {
    assert_eq!(conclude(Reply::Accepted(Vec::new())), Ok(()));
    assert_eq!(conclude(Reply::Accepted(vec![record(1, None, "192.0.2.1")])), Ok(()));
    assert_eq!(conclude(Reply::Failed(text("dns error"))), Err(UpdateError::Transport(text("dns error"))));
    assert_eq!(conclude(Reply::Rejected(text("Unauthenticated"))), Err(UpdateError::Api(text("Unauthenticated"))));
    assert_eq!(conclude(Reply::Garbled(text("EOF"))), Err(UpdateError::Undecodable(text("EOF"))));
}

#[test]
fn name_com_addresses_are_joined_to_the_base() {
    let request = name_com::list_records("xieal.me", "alice", "s3cr3t").unwrap();
    assert_eq!(
        request,
        Request {
            method: Method::Get,
            url: text("https://api.name.com/v4/domains/xieal.me/records"),
            query: Vec::new(),
            basic_auth: Some((text("alice"), text("s3cr3t"))),
            body: None,
            reading: Reading::Records,
        }
    );
    let kept = record(186472068, Some("test"), "127.0.0.1");
    let request = name_com::update_record("alice", "s3cr3t", kept.duplicate()).unwrap();
    assert_eq!(
        request,
        Request {
            method: Method::Put,
            url: text("https://api.name.com/v4/domains/xieal.me/records/186472068"),
            query: Vec::new(),
            basic_auth: Some((text("alice"), text("s3cr3t"))),
            body: Some(kept),
            reading: Reading::Message,
        }
    );
    // the address is resolved, not pasted together
    let request = name_com::list_records("a b/../c", "u", "t").unwrap();
    assert_eq!(request.url, "https://api.name.com/v4/domains/c/records");
    let request = name_com::list_records("/top", "u", "t").unwrap();
    assert_eq!(request.url, "https://api.name.com/top/records");
    match name_com::list_records("//[bad", "u", "t") {
        Err(UpdateError::Url(_)) => {}
        other => panic!("{:?}", other),
    }
}

#[test]
fn requests_are_made_up_from_the_outcome_of_the_address() {
    assert_eq!(
        name_com::authorized(
            Method::Get,
            Ok(text("https://example.net/x")),
            text("u"),
            text("t"),
            None,
            Reading::Records
        ),
        Ok(Request {
            method: Method::Get,
            url: text("https://example.net/x"),
            query: Vec::new(),
            basic_auth: Some((text("u"), text("t"))),
            body: None,
            reading: Reading::Records,
        })
    );
    assert_eq!(
        name_com::authorized(
            Method::Put,
            Err(text("relative URL without a base")),
            text("u"),
            text("t"),
            None,
            Reading::Message
        ),
        Err(UpdateError::Url(text("relative URL without a base")))
    );
}

#[test]
fn name_com_update_lists_then_puts_the_changed_record() {
    let conf = config(&["name.com"], Some(name_com_conf(Some("test"))), None);
    let listed = vec![record(7, None, "192.0.2.7"), record(186472068, Some("test"), "127.0.0.1")];
    let (outcome, sent) = run_update(
        &conf,
        DnsProvider::NameCom,
        "203.0.113.8",
        &no_environment(),
        vec![Reply::Accepted(listed), Reply::Accepted(Vec::new())],
    );
    assert_eq!(outcome, Ok(()));
    assert_eq!(sent.len(), 2);
    assert_eq!(
        sent[0],
        Request {
            method: Method::Get,
            url: text("https://api.name.com/v4/domains/xieal.me/records"),
            query: Vec::new(),
            basic_auth: Some((text("alice"), text("s3cr3t"))),
            body: None,
            reading: Reading::Records,
        }
    );
    assert_eq!(
        sent[1],
        Request {
            method: Method::Put,
            url: text("https://api.name.com/v4/domains/xieal.me/records/186472068"),
            query: Vec::new(),
            basic_auth: Some((text("alice"), text("s3cr3t"))),
            body: Some(Record {
                id: 186472068,
                domain_name: text("xieal.me"),
                record_host: Some(text("test")),
                record_type: text("A"),
                record_answer: text("203.0.113.8"),
                record_ttl: 600,
            }),
            reading: Reading::Message,
        }
    );
}

#[test]
fn name_com_update_of_the_domain_itself_takes_the_record_without_host() {
    let conf = config(&["name.com"], Some(name_com_conf(None)), None);
    let listed = vec![record(3, Some("www"), "192.0.2.3"), record(4, None, "192.0.2.4")];
    let (outcome, sent) = run_update(
        &conf,
        DnsProvider::NameCom,
        "2001:db8::1",
        &no_environment(),
        vec![Reply::Accepted(listed), Reply::Accepted(Vec::new())],
    );
    assert_eq!(outcome, Ok(()));
    assert_eq!(sent[1].url, "https://api.name.com/v4/domains/xieal.me/records/4");
    assert_eq!(sent[1].body.as_ref().unwrap().record_answer, "2001:db8::1");
    assert_eq!(sent[1].body.as_ref().unwrap().record_host, None);
}

#[test]
fn name_com_update_fails_where_the_record_is_missing() {
    let conf = config(&["name.com"], Some(name_com_conf(Some("test"))), None);
    let (outcome, sent) = run_update(
        &conf,
        DnsProvider::NameCom,
        "203.0.113.8",
        &no_environment(),
        vec![Reply::Accepted(vec![record(1, Some("www"), "192.0.2.1"), record(2, None, "192.0.2.2")])],
    );
    assert_eq!(outcome, Err(UpdateError::RecordNotFound));
    assert_eq!(sent.len(), 1);
}

#[test]
fn name_com_update_ends_with_the_error_of_a_reply() {
    let conf = config(&["name.com"], Some(name_com_conf(Some("test"))), None);
    let listed = || Reply::Accepted(vec![record(5, Some("test"), "192.0.2.5")]);
    let cases = vec![
        (vec![Reply::Failed(text("connection reset"))], UpdateError::Transport(text("connection reset")), 1),
        (vec![Reply::Rejected(text("Unauthenticated"))], UpdateError::Api(text("Unauthenticated")), 1),
        (vec![Reply::Garbled(text("missing field"))], UpdateError::Undecodable(text("missing field")), 1),
        (vec![listed(), Reply::Failed(text("timed out"))], UpdateError::Transport(text("timed out")), 2),
        (vec![listed(), Reply::Rejected(text("Invalid TTL"))], UpdateError::Api(text("Invalid TTL")), 2),
        (vec![listed(), Reply::Garbled(text("EOF"))], UpdateError::Undecodable(text("EOF")), 2),
    ];
    for (replies, error, requests) in cases {
        let (outcome, sent) =
            run_update(&conf, DnsProvider::NameCom, "203.0.113.8", &no_environment(), replies);
        assert_eq!(outcome, Err(error));
        assert_eq!(sent.len(), requests);
    }
}

#[test]
fn name_com_credentials_fall_back_to_the_environment() {
    let mut settings = name_com_conf(Some("test"));
    settings.username = None;
    settings.token = None;
    let (progress, action) =
        name_com::update(&settings, "203.0.113.8", &no_environment(), Progress::Start, None);
    assert_eq!(progress, Progress::Done);
    assert_eq!(
        action,
        Action::Finished(Err(UpdateError::MissingVariable(Variable::NameComUsername)))
    );
    let only_user = Environment {
        name_com_username: Some(text("bob")),
        name_com_token: None,
        dynv6_com_token: Some(text("unrelated")),
    };
    let (progress, action) = name_com::update(&settings, "203.0.113.8", &only_user, Progress::Start, None);
    assert_eq!(progress, Progress::Done);
    assert_eq!(action, Action::Finished(Err(UpdateError::MissingVariable(Variable::NameComToken))));
    let both = Environment {
        name_com_username: Some(text("bob")),
        name_com_token: Some(text("env-token")),
        dynv6_com_token: None,
    };
    let (progress, action) = name_com::update(&settings, "203.0.113.8", &both, Progress::Start, None);
    assert_eq!(progress, Progress::Listing);
    match action {
        Action::Send(request) => {
            assert_eq!(request.basic_auth, Some((text("bob"), text("env-token"))))
        }
        other => panic!("{:?}", other),
    }
    // what is configured wins over the environment
    let (_, action) =
        name_com::update(&name_com_conf(None), "203.0.113.8", &both, Progress::Start, None);
    match action {
        Action::Send(request) => {
            assert_eq!(request.basic_auth, Some((text("alice"), text("s3cr3t"))))
        }
        other => panic!("{:?}", other),
    }
}

#[test]
fn an_update_waits_for_the_reply_it_asked_for() {
    let settings = name_com_conf(Some("test"));
    let environment = no_environment();
    assert_eq!(
        name_com::update(&settings, "203.0.113.8", &environment, Progress::Listing, None),
        (Progress::Listing, Action::Nothing)
    );
    assert_eq!(
        name_com::update(&settings, "203.0.113.8", &environment, Progress::Updating, None),
        (Progress::Updating, Action::Nothing)
    );
    assert_eq!(
        name_com::update(
            &settings,
            "203.0.113.8",
            &environment,
            Progress::Done,
            Some(Reply::Accepted(Vec::new()))
        ),
        (Progress::Done, Action::Nothing)
    );
    let zone = dynv6_conf();
    assert_eq!(
        dynv6_com::update(&zone, "203.0.113.8", &environment, Progress::Updating, None),
        (Progress::Updating, Action::Nothing)
    );
    assert_eq!(
        dynv6_com::update(&zone, "203.0.113.8", &environment, Progress::Listing, None),
        (Progress::Done, Action::Nothing)
    );
    assert_eq!(
        dynv6_com::update(&zone, "203.0.113.8", &environment, Progress::Done, None),
        (Progress::Done, Action::Nothing)
    );
}

#[test]
fn dynv6_update_is_one_request() {
    let conf = config(&["dynv6.com"], None, Some(dynv6_conf()));
    let (outcome, sent) = run_update(
        &conf,
        DnsProvider::Dynv6Com,
        "127.0.0.1",
        &no_environment(),
        vec![Reply::Accepted(Vec::new())],
    );
    assert_eq!(outcome, Ok(()));
    assert_eq!(
        sent,
        vec![Request {
            method: Method::Get,
            url: text("https://dynv6.com/api/update"),
            query: vec![
                (text("zone"), text("dwd-unittest.dynv6.net")),
                (text("token"), text("t0k3n")),
                (text("ipv4"), text("127.0.0.1")),
            ],
            basic_auth: None,
            body: None,
            reading: Reading::Status,
        }]
    );
    let (outcome, sent) = run_update(
        &conf,
        DnsProvider::Dynv6Com,
        "127.0.0.1",
        &no_environment(),
        vec![Reply::Rejected(text("HTTP status client error (401 Unauthorized)"))],
    );
    assert_eq!(
        outcome,
        Err(UpdateError::Api(text("HTTP status client error (401 Unauthorized)")))
    );
    assert_eq!(sent.len(), 1);
}

#[test]
fn dynv6_token_falls_back_to_the_environment() {
    let zone = ConfigDynv6Com { zone: text("example.dynv6.net"), token: None };
    let (progress, action) =
        dynv6_com::update(&zone, "203.0.113.8", &no_environment(), Progress::Start, None);
    assert_eq!(progress, Progress::Done);
    assert_eq!(action, Action::Finished(Err(UpdateError::MissingVariable(Variable::Dynv6ComToken))));
    let environment = Environment {
        name_com_username: None,
        name_com_token: None,
        dynv6_com_token: Some(text("env-token")),
    };
    let (progress, action) = dynv6_com::update(&zone, "203.0.113.8", &environment, Progress::Start, None);
    assert_eq!(progress, Progress::Updating);
    match action {
        Action::Send(request) => assert_eq!(request.query[1], (text("token"), text("env-token"))),
        other => panic!("{:?}", other),
    }
}

#[test]
fn a_provider_needs_its_settings() {
    let conf = config(&["name.com", "dynv6.com"], None, Some(dynv6_conf()));
    assert_eq!(update_record(&conf, DnsProvider::Dynv6Com), Ok(()));
    assert_eq!(
        update_record(&conf, DnsProvider::NameCom),
        Err(UpdateError::MissingConfig(DnsProvider::NameCom))
    );
    let conf = config(&["name.com"], Some(name_com_conf(None)), None);
    assert_eq!(update_record(&conf, DnsProvider::NameCom), Ok(()));
    assert_eq!(
        update_record(&conf, DnsProvider::Dynv6Com),
        Err(UpdateError::MissingConfig(DnsProvider::Dynv6Com))
    );
}

#[test]
fn one_failing_provider_does_not_stop_the_others() {
    let conf = config(
        &["name.com", "dynv6.com"],
        Some(name_com_conf(Some("test"))),
        Some(dynv6_conf()),
    );
    let actions = publish(
        &conf,
        "203.0.113.8",
        vec![
            vec![Reply::Accepted(vec![record(1, Some("www"), "192.0.2.1")])],
            vec![Reply::Accepted(Vec::new())],
        ],
    );
    assert_eq!(
        actions,
        vec![
            PublishAction::Update { index: 0, provider: DnsProvider::NameCom },
            PublishAction::Failed {
                provider: DnsProvider::NameCom,
                error: UpdateError::RecordNotFound
            },
            PublishAction::Update { index: 1, provider: DnsProvider::Dynv6Com },
            PublishAction::Succeeded { provider: DnsProvider::Dynv6Com },
            PublishAction::Finished,
        ]
    );
}

#[test]
fn every_configured_name_is_dealt_with_once() {
    let conf = config(
        &["dynv6.com", "nowhere.example", "name.com", "dynv6.com"],
        None,
        Some(dynv6_conf()),
    );
    let actions = publish(
        &conf,
        "203.0.113.8",
        vec![
            vec![Reply::Failed(text("network unreachable"))],
            Vec::new(),
            Vec::new(),
            vec![Reply::Accepted(Vec::new())],
        ],
    );
    assert_eq!(
        actions,
        vec![
            PublishAction::Update { index: 0, provider: DnsProvider::Dynv6Com },
            PublishAction::Failed {
                provider: DnsProvider::Dynv6Com,
                error: UpdateError::Transport(text("network unreachable"))
            },
            PublishAction::Unsupported { index: 1 },
            PublishAction::Failed {
                provider: DnsProvider::NameCom,
                error: UpdateError::MissingConfig(DnsProvider::NameCom)
            },
            PublishAction::Update { index: 3, provider: DnsProvider::Dynv6Com },
            PublishAction::Succeeded { provider: DnsProvider::Dynv6Com },
            PublishAction::Finished,
        ]
    );
    assert_eq!(publish(&config(&[], None, None), "203.0.113.8", Vec::new()), vec![PublishAction::Finished]);
}

#[test]
fn the_walk_over_the_providers_steps_one_by_one() {
    let conf = config(&["dynv6.com"], None, Some(dynv6_conf()));
    let (state, action) = update_dns_for_all(&conf, Publishing::Next(0), PublishEvent::Go);
    assert_eq!(state, Publishing::Updating(0));
    assert_eq!(action, PublishAction::Update { index: 0, provider: DnsProvider::Dynv6Com });
    // asking again while the update is under way repeats the request
    let (again, action) = update_dns_for_all(&conf, state, PublishEvent::Go);
    assert_eq!(again, Publishing::Updating(0));
    assert_eq!(action, PublishAction::Update { index: 0, provider: DnsProvider::Dynv6Com });
    let (state, action) = update_dns_for_all(&conf, state, PublishEvent::Updated(Ok(())));
    assert_eq!(state, Publishing::Next(1));
    assert_eq!(action, PublishAction::Succeeded { provider: DnsProvider::Dynv6Com });
    let (state, action) = update_dns_for_all(&conf, state, PublishEvent::Updated(Ok(())));
    assert_eq!(state, Publishing::Done);
    assert_eq!(action, PublishAction::Finished);
    let (state, action) = update_dns_for_all(&conf, state, PublishEvent::Go);
    assert_eq!(state, Publishing::Done);
    assert_eq!(action, PublishAction::Finished);
    let (state, action) =
        update_dns_for_all(&conf, Publishing::Updating(4), PublishEvent::Updated(Ok(())));
    assert_eq!(state, Publishing::Done);
    assert_eq!(action, PublishAction::Finished);
}

#[test]
fn an_update_goes_to_the_provider_with_its_own_settings() {
    let conf = config(&["name.com", "dynv6.com"], Some(name_com_conf(Some("test"))), Some(dynv6_conf()));
    let environment = no_environment();
    assert_eq!(
        update(&conf, DnsProvider::NameCom, "203.0.113.8", &environment, Progress::Start, None),
        name_com::update(
            conf.name_com.as_ref().unwrap(),
            "203.0.113.8",
            &environment,
            Progress::Start,
            None
        )
    );
    assert_eq!(
        update(&conf, DnsProvider::Dynv6Com, "203.0.113.8", &environment, Progress::Start, None),
        dynv6_com::update(
            conf.dynv6_com.as_ref().unwrap(),
            "203.0.113.8",
            &environment,
            Progress::Start,
            None
        )
    );
    match update(&conf, DnsProvider::Dynv6Com, "203.0.113.8", &environment, Progress::Start, None) {
        (Progress::Updating, Action::Send(request)) => {
            assert_eq!(request.url, "https://dynv6.com/api/update");
            assert_eq!(request.query[2], (text("ipv4"), text("203.0.113.8")));
        }
        other => panic!("{:?}", other),
    }
    match update(&conf, DnsProvider::NameCom, "203.0.113.8", &environment, Progress::Start, None) {
        (Progress::Listing, Action::Send(request)) => {
            assert_eq!(request.url, "https://api.name.com/v4/domains/xieal.me/records");
        }
        other => panic!("{:?}", other),
    }
}

#[test]
fn an_update_without_settings_ends_at_once() {
    let conf = config(&["name.com", "dynv6.com"], None, None);
    for provider in [DnsProvider::NameCom, DnsProvider::Dynv6Com] {
        for progress in [Progress::Start, Progress::Listing, Progress::Updating, Progress::Done] {
            assert_eq!(
                update(&conf, provider, "203.0.113.8", &no_environment(), progress, None),
                (Progress::Done, Action::Finished(Err(UpdateError::MissingConfig(provider))))
            );
        }
    }
}

#[test]
fn the_status_and_the_request_say_what_is_decoded() {
    for status in [200, 204, 299] {
        assert_eq!(decoding(Reading::Records, status), Decoding::Records);
        assert_eq!(decoding(Reading::Message, status), Decoding::Nothing);
        assert_eq!(decoding(Reading::Status, status), Decoding::Nothing);
    }
    for status in [0, 199, 300, 304, 401, 404, 500, 599, 600] {
        assert_eq!(decoding(Reading::Records, status), Decoding::Message);
        assert_eq!(decoding(Reading::Message, status), Decoding::Message);
        assert_eq!(decoding(Reading::Status, status), Decoding::Nothing);
    }
}

#[test]
fn answers_are_made_into_replies() {
    let listed = vec![record(1, Some("www"), "192.0.2.1")];
    // a list of records
    assert_eq!(
        reply_of(Reading::Records, 200, text("200 OK"), None, Some(Ok(vec![record(1, Some("www"), "192.0.2.1")]))),
        Reply::Accepted(listed)
    );
    assert_eq!(
        reply_of(Reading::Records, 200, text("200 OK"), None, Some(Err(text("missing field")))),
        Reply::Garbled(text("missing field"))
    );
    assert_eq!(
        reply_of(Reading::Records, 200, text("200 OK"), Some(Ok(text("unasked"))), None),
        Reply::Garbled(text("200 OK"))
    );
    assert_eq!(
        reply_of(Reading::Records, 404, text("404 Not Found"), Some(Ok(text("Not Found"))), None),
        Reply::Rejected(text("Not Found"))
    );
    assert_eq!(
        reply_of(Reading::Records, 500, text("500"), Some(Err(text("expected value"))), None),
        Reply::Garbled(text("expected value"))
    );
    assert_eq!(
        reply_of(Reading::Records, 301, text("301 Moved Permanently"), None, None),
        Reply::Rejected(text("301 Moved Permanently"))
    );
    // an update that answers with nothing to read
    assert_eq!(
        reply_of(Reading::Message, 200, text("200 OK"), None, None),
        Reply::Accepted(Vec::new())
    );
    assert_eq!(
        reply_of(Reading::Message, 200, text("200 OK"), Some(Ok(text("unasked"))), Some(Err(text("unasked")))),
        Reply::Accepted(Vec::new())
    );
    assert_eq!(
        reply_of(Reading::Message, 403, text("403 Forbidden"), Some(Ok(text("Permission Denied"))), None),
        Reply::Rejected(text("Permission Denied"))
    );
    assert_eq!(
        reply_of(Reading::Message, 403, text("403 Forbidden"), Some(Err(text("EOF"))), None),
        Reply::Garbled(text("EOF"))
    );
    // a status alone
    assert_eq!(
        reply_of(Reading::Status, 200, text("200 OK"), None, None),
        Reply::Accepted(Vec::new())
    );
    assert_eq!(
        reply_of(Reading::Status, 401, text("401 Unauthorized"), Some(Ok(text("unasked"))), None),
        Reply::Rejected(text("401 Unauthorized"))
    );
    assert_eq!(
        reply_of(Reading::Status, 304, text("304 Not Modified"), None, None),
        Reply::Rejected(text("304 Not Modified"))
    );
}
