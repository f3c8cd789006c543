//! Publishing the address: the DNS providers, and the walk over the
//! configured ones that tries each of them once.

use vstd::prelude::*;
use vstd::string::*;

use crate::config::{Config, ConfigView};
use crate::text::{joined, optional_text, same_text};

pub mod dynv6_com;
pub mod http;
pub mod name_com;

verus! {

/// A DNS provider that this library knows how to update.
#[derive(Debug, Clone, Copy, PartialEq, Eq, Structural)]
pub enum DnsProvider {
    NameCom,
    Dynv6Com,
}

/// A name that selects no DNS provider.
#[derive(Debug, Clone, Copy, PartialEq, Eq, Structural)]
pub struct UnknownProvider;

impl UnknownProvider {
    /// The words in which the error is reported.
    pub fn message(&self) -> (r: String)
        ensures
            r@ == "Unknown provider"@,
    {
        String::from_str("Unknown provider")
    }
}

/// The DNS provider that a configured name selects.
pub open spec fn dns_provider_named(name: Seq<char>) -> Option<DnsProvider> {
    if name == "name.com"@ {
        Some(DnsProvider::NameCom)
    } else if name == "dynv6.com"@ {
        Some(DnsProvider::Dynv6Com)
    } else {
        None
    }
}

impl DnsProvider {
    /// Finds the DNS provider that `input` names.
    pub fn try_from(input: &str) -> (r: Result<DnsProvider, UnknownProvider>)
        ensures
            r == match dns_provider_named(input@) {
                Some(provider) => Ok::<DnsProvider, UnknownProvider>(provider),
                None => Err::<DnsProvider, UnknownProvider>(UnknownProvider),
            },
    {
        if same_text(input, "name.com") {
            Ok(DnsProvider::NameCom)
        } else if same_text(input, "dynv6.com") {
            Ok(DnsProvider::Dynv6Com)
        } else {
            Err(UnknownProvider)
        }
    }
}

/// A variable of the environment that holds a credential.
#[derive(Debug, Clone, Copy, PartialEq, Eq, Structural)]
pub enum Variable {
    NameComUsername,
    NameComToken,
    Dynv6ComToken,
}

impl Variable {
    /// The name under which the environment holds the variable.
    pub fn name(&self) -> (r: &'static str)
        ensures
            r@ == match *self {
                Variable::NameComUsername => "NAME_COM_USERNAME"@,
                Variable::NameComToken => "NAME_COM_TOKEN"@,
                Variable::Dynv6ComToken => "DYNV6_COM_TOKEN"@,
            },
    {
        match self {
            Variable::NameComUsername => "NAME_COM_USERNAME",
            Variable::NameComToken => "NAME_COM_TOKEN",
            Variable::Dynv6ComToken => "DYNV6_COM_TOKEN",
        }
    }
}

/// The credentials that the environment holds, each under the name that
/// [`Variable::name`] gives.
#[derive(Debug, PartialEq, Eq)]
pub struct Environment {
    pub name_com_username: Option<String>,
    pub name_com_token: Option<String>,
    pub dynv6_com_token: Option<String>,
}

/// What an [`Environment`] holds, as sequences of characters.
pub struct EnvironmentView {
    pub name_com_username: Option<Seq<char>>,
    pub name_com_token: Option<Seq<char>>,
    pub dynv6_com_token: Option<Seq<char>>,
}

impl View for Environment {
    type V = EnvironmentView;

    open spec fn view(&self) -> EnvironmentView {
        EnvironmentView {
            name_com_username: optional_text(self.name_com_username),
            name_com_token: optional_text(self.name_com_token),
            dynv6_com_token: optional_text(self.dynv6_com_token),
        }
    }
}

/// The credential to use: the configured one, else the one of the
/// environment.
pub open spec fn credential(configured: Option<Seq<char>>, environment: Option<Seq<char>>) -> Option<
    Seq<char>,
> {
    match configured {
        Some(value) => Some(value),
        None => environment,
    }
}

/// Picks the credential to use: the configured one, else the one of the
/// environment, else an error that names the variable.
pub fn pick_credential(
    configured: &Option<String>,
    environment: &Option<String>,
    variable: Variable,
) -> (r: Result<String, UpdateError>)
    ensures
        update_view(r) == match credential(
            optional_text(*configured),
            optional_text(*environment),
        ) {
            Some(value) => Ok::<Seq<char>, UpdateErrorView>(value),
            None => Err::<Seq<char>, UpdateErrorView>(UpdateErrorView::MissingVariable(variable)),
        },
{
    match configured {
        Some(value) => Ok(value.clone()),
        None => match environment {
            Some(value) => Ok(value.clone()),
            None => Err(UpdateError::MissingVariable(variable)),
        },
    }
}

/// Why a DNS provider was not updated.
#[derive(Debug, PartialEq, Eq)]
pub enum UpdateError {
    /// The settings of the provider are missing from the configuration.
    MissingConfig(DnsProvider),
    /// Neither the settings nor the environment hold the credential.
    MissingVariable(Variable),
    /// No address to ask could be made; the text says why.
    Url(String),
    /// The request failed; the text says how.
    Transport(String),
    /// The provider answered with an error; the text is what it says of it.
    Api(String),
    /// The provider's answer could not be read; the text says why.
    Undecodable(String),
    /// The provider lists no record of the configured host.
    RecordNotFound,
}

/// What an [`UpdateError`] holds, as sequences of characters.
pub enum UpdateErrorView {
    MissingConfig(DnsProvider),
    MissingVariable(Variable),
    Url(Seq<char>),
    Transport(Seq<char>),
    Api(Seq<char>),
    Undecodable(Seq<char>),
    RecordNotFound,
}

impl View for UpdateError {
    type V = UpdateErrorView;

    open spec fn view(&self) -> UpdateErrorView {
        match *self {
            UpdateError::MissingConfig(provider) => UpdateErrorView::MissingConfig(provider),
            UpdateError::MissingVariable(variable) => UpdateErrorView::MissingVariable(variable),
            UpdateError::Url(reason) => UpdateErrorView::Url(reason@),
            UpdateError::Transport(reason) => UpdateErrorView::Transport(reason@),
            UpdateError::Api(message) => UpdateErrorView::Api(message@),
            UpdateError::Undecodable(reason) => UpdateErrorView::Undecodable(reason@),
            UpdateError::RecordNotFound => UpdateErrorView::RecordNotFound,
        }
    }
}

/// What the outcome of a step that gives a text holds.
pub open spec fn update_view(r: Result<String, UpdateError>) -> Result<Seq<char>, UpdateErrorView> {
    match r {
        Ok(text) => Ok(text@),
        Err(e) => Err(e@),
    }
}

/// What the outcome of an update holds.
pub open spec fn outcome_view(r: Result<(), UpdateError>) -> Result<(), UpdateErrorView> {
    match r {
        Ok(_) => Ok(()),
        Err(e) => Err(e@),
    }
}

/// The words in which an error is reported.
pub open spec fn error_text(error: UpdateErrorView) -> Seq<char> {
    match error {
        UpdateErrorView::MissingConfig(DnsProvider::NameCom) => "The config.name_com is required."@,
        UpdateErrorView::MissingConfig(DnsProvider::Dynv6Com) => "The config.dynv6_com is required."@,
        UpdateErrorView::MissingVariable(Variable::NameComUsername) => "Please set env variable USERNAME."@,
        UpdateErrorView::MissingVariable(Variable::NameComToken) => "Please set env variable TOKEN."@,
        UpdateErrorView::MissingVariable(Variable::Dynv6ComToken) => "Please set env variable DYNV6_COM_TOKEN."@,
        UpdateErrorView::Url(reason) => reason,
        UpdateErrorView::Transport(reason) => reason,
        UpdateErrorView::Api(message) => "API response error: "@ + message,
        UpdateErrorView::Undecodable(reason) => reason,
        UpdateErrorView::RecordNotFound => "No record of the configured host was found."@,
    }
}

impl UpdateError {
    /// The words in which the error is reported.
    pub fn message(&self) -> (r: String)
        ensures
            r@ == error_text(self@),
    {
        match self {
            UpdateError::MissingConfig(DnsProvider::NameCom) => String::from_str(
                "The config.name_com is required.",
            ),
            UpdateError::MissingConfig(DnsProvider::Dynv6Com) => String::from_str(
                "The config.dynv6_com is required.",
            ),
            UpdateError::MissingVariable(Variable::NameComUsername) => String::from_str(
                "Please set env variable USERNAME.",
            ),
            UpdateError::MissingVariable(Variable::NameComToken) => String::from_str(
                "Please set env variable TOKEN.",
            ),
            UpdateError::MissingVariable(Variable::Dynv6ComToken) => String::from_str(
                "Please set env variable DYNV6_COM_TOKEN.",
            ),
            UpdateError::Url(reason) => reason.clone(),
            UpdateError::Transport(reason) => reason.clone(),
            UpdateError::Api(message) => joined("API response error: ", message.as_str()),
            UpdateError::Undecodable(reason) => reason.clone(),
            UpdateError::RecordNotFound => String::from_str(
                "No record of the configured host was found.",
            ),
        }
    }
}

/// How far the update of one provider has come.
#[derive(Debug, Clone, Copy, PartialEq, Eq, Structural)]
pub enum Progress {
    /// Nothing has been sent.
    Start,
    /// The provider has been asked for what it holds and has not answered.
    Listing,
    /// The provider has been sent the update and has not answered.
    Updating,
    /// The update is over.
    Done,
}

/// What the update of one provider asks for.
#[derive(Debug, PartialEq, Eq)]
pub enum Action {
    /// Nothing: an answer is awaited and none was given, or the update is
    /// over.
    Nothing,
    /// Send this request and tell what came back.
    Send(http::Request),
    /// The update is over, with this outcome.
    Finished(Result<(), UpdateError>),
}

/// What an [`Action`] holds, as sequences of characters.
pub enum ActionView {
    Nothing,
    Send(http::RequestView),
    Finished(Result<(), UpdateErrorView>),
}

impl View for Action {
    type V = ActionView;

    open spec fn view(&self) -> ActionView {
        match *self {
            Action::Nothing => ActionView::Nothing,
            Action::Send(request) => ActionView::Send(request@),
            Action::Finished(outcome) => ActionView::Finished(outcome_view(outcome)),
        }
    }
}

/// What a reply that is no success means for the update.
pub open spec fn refusal(reply: http::ReplyView) -> UpdateErrorView
    recommends
        !(reply is Accepted),
{
    match reply {
        http::ReplyView::Failed(reason) => UpdateErrorView::Transport(reason),
        http::ReplyView::Rejected(message) => UpdateErrorView::Api(message),
        http::ReplyView::Garbled(reason) => UpdateErrorView::Undecodable(reason),
        http::ReplyView::Accepted(_) => UpdateErrorView::RecordNotFound,
    }
}

/// What the answer to the last request of an update means: success where
/// the provider accepted it, else the error that the reply stands for.
pub open spec fn conclusion(reply: http::ReplyView) -> Result<(), UpdateErrorView> {
    match reply {
        http::ReplyView::Accepted(_) => Ok(()),
        _ => Err(refusal(reply)),
    }
}

/// Reads the answer to the last request of an update.
pub fn conclude(reply: http::Reply) -> (r: Result<(), UpdateError>)
    ensures
        outcome_view(r) == conclusion(reply@),
{
    match reply {
        http::Reply::Failed(reason) => Err(UpdateError::Transport(reason)),
        http::Reply::Rejected(message) => Err(UpdateError::Api(message)),
        http::Reply::Garbled(reason) => Err(UpdateError::Undecodable(reason)),
        http::Reply::Accepted(_) => Ok(()),
    }
}

/// Tells whether the configuration holds the settings of `provider`.
pub open spec fn has_settings(conf: ConfigView, provider: DnsProvider) -> bool {
    match provider {
        DnsProvider::NameCom => conf.name_com is Some,
        DnsProvider::Dynv6Com => conf.dynv6_com is Some,
    }
}

/// Checks that `provider` can be updated: the configuration has to hold its
/// settings.
pub fn update_record(conf: &Config, provider: DnsProvider) -> (r: Result<(), UpdateError>)
    ensures
        outcome_view(r) == if has_settings(conf@, provider) {
            Ok::<(), UpdateErrorView>(())
        } else {
            Err::<(), UpdateErrorView>(UpdateErrorView::MissingConfig(provider))
        },
{
    let present = match provider {
        DnsProvider::NameCom => conf.name_com.is_some(),
        DnsProvider::Dynv6Com => conf.dynv6_com.is_some(),
    };
    if present {
        Ok(())
    } else {
        Err(UpdateError::MissingConfig(provider))
    }
}

/// One step of the update of `provider`: the step of the provider's own
/// update on its settings, or the end for want of them.
pub open spec fn provider_step(
    conf: ConfigView,
    provider: DnsProvider,
    ip: Seq<char>,
    environment: EnvironmentView,
    progress: Progress,
    reply: Option<http::ReplyView>,
) -> (Progress, ActionView) {
    match provider {
        DnsProvider::NameCom => match conf.name_com {
            Some(settings) => name_com::update_step(settings, ip, environment, progress, reply),
            None => (
                Progress::Done,
                ActionView::Finished(Err(UpdateErrorView::MissingConfig(provider))),
            ),
        },
        DnsProvider::Dynv6Com => match conf.dynv6_com {
            Some(settings) => dynv6_com::update_step(settings, ip, environment, progress, reply),
            None => (
                Progress::Done,
                ActionView::Finished(Err(UpdateErrorView::MissingConfig(provider))),
            ),
        },
    }
}

/// Updates the address at `provider` with the settings that the
/// configuration holds for it, step by step: called with how far the update
/// has come and what came back for the last request, it says how far the
/// update has come now and what is to be done next. An update begins at
/// `Progress::Start`.
pub fn update(
    conf: &Config,
    provider: DnsProvider,
    ip: &str,
    environment: &Environment,
    progress: Progress,
    reply: Option<http::Reply>,
) -> (r: (Progress, Action))
    ensures
        (r.0, r.1@) == provider_step(
            conf@,
            provider,
            ip@,
            environment@,
            progress,
            http::optional_reply(reply),
        ),
{
    match provider {
        DnsProvider::NameCom => match &conf.name_com {
            Some(settings) => name_com::update(settings, ip, environment, progress, reply),
            None => (Progress::Done, Action::Finished(Err(UpdateError::MissingConfig(provider)))),
        },
        DnsProvider::Dynv6Com => match &conf.dynv6_com {
            Some(settings) => dynv6_com::update(settings, ip, environment, progress, reply),
            None => (Progress::Done, Action::Finished(Err(UpdateError::MissingConfig(provider)))),
        },
    }
}

/// Where one walk over the list of configured DNS providers stands.
#[derive(Debug, Clone, Copy, PartialEq, Eq, Structural)]
pub enum Publishing {
    /// The name at this place in the list is the next to be considered.
    Next(usize),
    /// The provider named at this place is being updated.
    Updating(usize),
    /// The walk is over.
    Done,
}

/// What the walk is told.
#[derive(Debug, PartialEq, Eq)]
pub enum PublishEvent {
    /// Go on: the walk begins, or the last report has been made.
    Go,
    /// The update of the provider came to this end.
    Updated(Result<(), UpdateError>),
}

/// What the walk asks for, and what it has to report.
#[derive(Debug, PartialEq, Eq)]
pub enum PublishAction {
    /// The name at `index` selects no provider: report it, then go on.
    Unsupported { index: usize },
    /// Update `provider`, which the name at `index` selects, and tell the
    /// walk how that ended.
    Update { index: usize, provider: DnsProvider },
    /// `provider` was not updated, for this reason: report it, then go on.
    Failed { provider: DnsProvider, error: UpdateError },
    /// `provider` was updated: report it, then go on.
    Succeeded { provider: DnsProvider },
    /// The walk is over: every name has been dealt with.
    Finished,
}

/// What a [`PublishEvent`] holds, as sequences of characters.
pub enum PublishEventView {
    Go,
    Updated(Result<(), UpdateErrorView>),
}

/// What a [`PublishAction`] holds, as sequences of characters.
pub enum PublishActionView {
    Unsupported { index: usize },
    Update { index: usize, provider: DnsProvider },
    Failed { provider: DnsProvider, error: UpdateErrorView },
    Succeeded { provider: DnsProvider },
    Finished,
}

impl View for PublishEvent {
    type V = PublishEventView;

    open spec fn view(&self) -> PublishEventView {
        match *self {
            PublishEvent::Go => PublishEventView::Go,
            PublishEvent::Updated(outcome) => PublishEventView::Updated(outcome_view(outcome)),
        }
    }
}

impl View for PublishAction {
    type V = PublishActionView;

    open spec fn view(&self) -> PublishActionView {
        match *self {
            PublishAction::Unsupported { index } => PublishActionView::Unsupported { index },
            PublishAction::Update { index, provider } => PublishActionView::Update {
                index,
                provider,
            },
            PublishAction::Failed { provider, error } => PublishActionView::Failed {
                provider,
                error: error@,
            },
            PublishAction::Succeeded { provider } => PublishActionView::Succeeded { provider },
            PublishAction::Finished => PublishActionView::Finished,
        }
    }
}

/// What the walk does when it considers the name at `index`: past the end
/// of the list it is over; a name that selects no provider is reported and
/// passed over, and so is a provider without settings; any other provider
/// is updated.
pub open spec fn consider(conf: ConfigView, index: usize) -> (Publishing, PublishActionView) {
    if index >= conf.dns_provider.len() {
        (Publishing::Done, PublishActionView::Finished)
    } else {
        match dns_provider_named(conf.dns_provider[index as int]) {
            None => (
                Publishing::Next((index + 1) as usize),
                PublishActionView::Unsupported { index },
            ),
            Some(provider) => if has_settings(conf, provider) {
                (Publishing::Updating(index), PublishActionView::Update { index, provider })
            } else {
                (
                    Publishing::Next((index + 1) as usize),
                    PublishActionView::Failed {
                        provider,
                        error: UpdateErrorView::MissingConfig(provider),
                    },
                )
            },
        }
    }
}

/// One step of the walk. However the update of a provider ends, the end is
/// reported and the walk moves on to the next name: a failure stops
/// nothing. Anything told while no update is under way only makes the walk
/// go on from where it stands.
pub open spec fn publish_step(conf: ConfigView, state: Publishing, event: PublishEventView) -> (
    Publishing,
    PublishActionView,
) {
    match state {
        Publishing::Done => (Publishing::Done, PublishActionView::Finished),
        Publishing::Next(index) => consider(conf, index),
        Publishing::Updating(index) => if index >= conf.dns_provider.len() {
            (Publishing::Done, PublishActionView::Finished)
        } else {
            match (dns_provider_named(conf.dns_provider[index as int]), event) {
                (Some(provider), PublishEventView::Updated(Ok(_))) => (
                    Publishing::Next((index + 1) as usize),
                    PublishActionView::Succeeded { provider },
                ),
                (Some(provider), PublishEventView::Updated(Err(error))) => (
                    Publishing::Next((index + 1) as usize),
                    PublishActionView::Failed { provider, error },
                ),
                _ => consider(conf, index),
            }
        },
    }
}

/// Considers the name at `index`.
fn consider_at(conf: &Config, index: usize) -> (r: (Publishing, PublishAction))
    ensures
        (r.0, r.1@) == consider(conf@, index),
{
    if index >= conf.dns_provider.len() {
        (Publishing::Done, PublishAction::Finished)
    } else {
        match DnsProvider::try_from(conf.dns_provider[index].as_str()) {
            Err(_) => (Publishing::Next(index + 1), PublishAction::Unsupported { index }),
            Ok(provider) => match update_record(conf, provider) {
                Ok(_) => (Publishing::Updating(index), PublishAction::Update { index, provider }),
                Err(error) => (
                    Publishing::Next(index + 1),
                    PublishAction::Failed { provider, error },
                ),
            },
        }
    }
}

/// Updates the address at every configured DNS provider, step by step:
/// called with where the walk stands and what happened last, it says where
/// the walk stands now and what is to be done next. The walk begins at
/// `Publishing::Next(0)` with `PublishEvent::Go`.
pub fn update_dns_for_all(conf: &Config, state: Publishing, event: PublishEvent) -> (r: (
    Publishing,
    PublishAction,
))
    ensures
        (r.0, r.1@) == publish_step(conf@, state, event@),
{
    match state {
        Publishing::Done => (Publishing::Done, PublishAction::Finished),
        Publishing::Next(index) => consider_at(conf, index),
        Publishing::Updating(index) => {
            if index >= conf.dns_provider.len() {
                (Publishing::Done, PublishAction::Finished)
            } else {
                match DnsProvider::try_from(conf.dns_provider[index].as_str()) {
                    Err(_) => consider_at(conf, index),
                    Ok(provider) => match event {
                        PublishEvent::Updated(Ok(_)) => (
                            Publishing::Next(index + 1),
                            PublishAction::Succeeded { provider },
                        ),
                        PublishEvent::Updated(Err(error)) => (
                            Publishing::Next(index + 1),
                            PublishAction::Failed { provider, error },
                        ),
                        PublishEvent::Go => consider_at(conf, index),
                    },
                }
            }
        },
    }
}

/// How the end of an update is reported.
pub open spec fn report(provider: DnsProvider, outcome: Result<(), UpdateErrorView>) -> PublishActionView {
    match outcome {
        Ok(_) => PublishActionView::Succeeded { provider },
        Err(error) => PublishActionView::Failed { provider, error },
    }
}

/// What is to be done about the name at place `index`, whatever becomes of
/// the names around it: a name that selects no provider is reported, and so
/// is a provider without settings; any other provider is updated, and the
/// end of its update, which `outcome` gives, is reported.
pub open spec fn dealing_with(
    conf: ConfigView,
    index: usize,
    outcome: Result<(), UpdateErrorView>,
) -> Seq<PublishActionView> {
    match dns_provider_named(conf.dns_provider[index as int]) {
        None => seq![PublishActionView::Unsupported { index }],
        Some(provider) => if has_settings(conf, provider) {
            seq![PublishActionView::Update { index, provider }, report(provider, outcome)]
        } else {
            seq![
                PublishActionView::Failed {
                    provider,
                    error: UpdateErrorView::MissingConfig(provider),
                },
            ]
        },
    }
}

/// What a walk that starts at place `from` is to ask for: what is to be
/// done about each name from there on, in the order of the list, and then
/// the end. `outcomes` holds, place by place, how the update of the provider
/// named there ends.
pub open spec fn publishing_from(
    conf: ConfigView,
    outcomes: Seq<Result<(), UpdateErrorView>>,
    from: int,
) -> Seq<PublishActionView>
    decreases conf.dns_provider.len() - from,
{
    if from < 0 || from >= conf.dns_provider.len() || from > usize::MAX {
        seq![PublishActionView::Finished]
    } else {
        dealing_with(conf, from as usize, outcomes[from]) + publishing_from(
            conf,
            outcomes,
            from + 1,
        )
    }
}

/// A bound on the steps that a walk can still take.
pub open spec fn steps_left(len: nat, state: Publishing, event: PublishEventView) -> nat {
    match state {
        Publishing::Done => 0,
        Publishing::Next(index) => if index >= len {
            0
        } else {
            (2 * (len - index) + 2) as nat
        },
        Publishing::Updating(index) => if index >= len {
            0
        } else if event is Go {
            (2 * (len - index) + 2) as nat
        } else {
            (2 * (len - index) + 1) as nat
        },
    }
}

/// A whole walk from `state`, told `event` first, with every report made
/// and every update ending as `outcomes` has it: all that the walk asks
/// for, in order.
pub open spec fn publishing(
    conf: ConfigView,
    outcomes: Seq<Result<(), UpdateErrorView>>,
    state: Publishing,
    event: PublishEventView,
) -> Seq<PublishActionView>
    decreases steps_left(conf.dns_provider.len(), state, event),
    when conf.dns_provider.len() <= usize::MAX
{
    let (next, action) = publish_step(conf, state, event);
    match action {
        PublishActionView::Finished => seq![action],
        PublishActionView::Update { index, provider } => seq![action] + publishing(
            conf,
            outcomes,
            next,
            PublishEventView::Updated(outcomes[index as int]),
        ),
        _ => seq![action] + publishing(conf, outcomes, next, PublishEventView::Go),
    }
}

/// A walk from any place asks for what it is to ask for.
proof fn lemma_publishing_from(
    conf: ConfigView,
    outcomes: Seq<Result<(), UpdateErrorView>>,
    from: usize,
    event: PublishEventView,
)
    requires
        conf.dns_provider.len() == outcomes.len(),
        conf.dns_provider.len() <= usize::MAX,
        from <= conf.dns_provider.len(),
    ensures
        publishing(conf, outcomes, Publishing::Next(from), event) == publishing_from(
            conf,
            outcomes,
            from as int,
        ),
    decreases conf.dns_provider.len() - from,
{
    let len = conf.dns_provider.len() as int;
    if from as int >= len {
    } else {
        let next = (from + 1) as usize;
        lemma_publishing_from(conf, outcomes, next, PublishEventView::Go);
        let rest = publishing(conf, outcomes, Publishing::Next(next), PublishEventView::Go);
        let walked = publishing(conf, outcomes, Publishing::Next(from), event);
        match dns_provider_named(conf.dns_provider[from as int]) {
            None => {
                assert(walked == seq![PublishActionView::Unsupported { index: from }] + rest);
            },
            Some(provider) => {
                if has_settings(conf, provider) {
                    let outcome = outcomes[from as int];
                    let updated = publishing(
                        conf,
                        outcomes,
                        Publishing::Updating(from),
                        PublishEventView::Updated(outcome),
                    );
                    assert(walked == seq![PublishActionView::Update { index: from, provider }]
                        + updated);
                    assert(publish_step(
                        conf,
                        Publishing::Updating(from),
                        PublishEventView::Updated(outcome),
                    ) == (Publishing::Next(next), report(provider, outcome)));
                    assert(updated == seq![report(provider, outcome)] + rest);
                    assert(walked =~= dealing_with(conf, from, outcome) + rest);
                } else {
                    assert(walked == seq![
                        PublishActionView::Failed {
                            provider,
                            error: UpdateErrorView::MissingConfig(provider),
                        },
                    ] + rest);
                }
            },
        }
    }
}

/// Failures are isolated: a walk over the whole list deals with every
/// configured name once, in the order of the list, and what is done about
/// one name depends on that name, its settings and the end of its own update
/// alone. However the update of a provider ends, the providers behind it are
/// still updated.
pub proof fn law_every_provider_is_tried_once(
    conf: ConfigView,
    outcomes: Seq<Result<(), UpdateErrorView>>,
)
    requires
        conf.dns_provider.len() == outcomes.len(),
        conf.dns_provider.len() <= usize::MAX,
    ensures
        publishing(conf, outcomes, Publishing::Next(0), PublishEventView::Go) == publishing_from(
            conf,
            outcomes,
            0,
        ),
{
    lemma_publishing_from(conf, outcomes, 0, PublishEventView::Go);
}

} // verus!
