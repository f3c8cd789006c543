//! Discovery of the public address: the lookup services, and the ordered
//! fallback over the configured ones.

use vstd::prelude::*;
use vstd::string::*;

use crate::text::{optional_text, same_text, text_result, texts};

pub mod myip_ipip_net;
pub mod myip_la;
pub mod vnet_one;

verus! {

/// A lookup service that this library knows how to ask.
#[derive(Debug, Clone, Copy, PartialEq, Eq, Structural)]
pub enum IpProvider {
    IpipNet,
    MyipLa,
    VnetOne,
}

/// A name that selects no provider.
#[derive(Debug, Clone, Copy, PartialEq, Eq, Structural)]
pub struct UnknownProvider;

impl UnknownProvider {
    /// The words in which the error is reported.
    pub fn message(&self) -> (r: String)
        ensures
            r@ == "Unknown provider"@,
    {
        String::from_str("Unknown provider")
    }
}

/// The lookup service that a configured name selects.
pub open spec fn ip_provider_named(name: Seq<char>) -> Option<IpProvider> {
    if name == "ipip.net"@ {
        Some(IpProvider::IpipNet)
    } else if name == "myip.la"@ {
        Some(IpProvider::MyipLa)
    } else if name == "vnet.one"@ {
        Some(IpProvider::VnetOne)
    } else {
        None
    }
}

impl IpProvider {
    /// Finds the lookup service that `input` names.
    pub fn try_from(input: &str) -> (r: Result<IpProvider, UnknownProvider>)
        ensures
            r == match ip_provider_named(input@) {
                Some(provider) => Ok::<IpProvider, UnknownProvider>(provider),
                None => Err::<IpProvider, UnknownProvider>(UnknownProvider),
            },
    {
        if same_text(input, "ipip.net") {
            Ok(IpProvider::IpipNet)
        } else if same_text(input, "myip.la") {
            Ok(IpProvider::MyipLa)
        } else if same_text(input, "vnet.one") {
            Ok(IpProvider::VnetOne)
        } else {
            Err(UnknownProvider)
        }
    }

    /// The address at which the service is asked with a plain `GET`.
    pub fn url(&self) -> (r: &'static str)
        ensures
            r@ == match *self {
                IpProvider::IpipNet => myip_ipip_net::URL@,
                IpProvider::MyipLa => myip_la::URL@,
                IpProvider::VnetOne => vnet_one::URL@,
            },
    {
        match self {
            IpProvider::IpipNet => myip_ipip_net::URL,
            IpProvider::MyipLa => myip_la::URL,
            IpProvider::VnetOne => vnet_one::URL,
        }
    }
}

/// Why a lookup service gave no address.
#[derive(Debug, PartialEq, Eq)]
pub enum LookupError {
    /// The request failed; the text says how.
    Transport(String),
    /// The answer holds nothing that looks like an address.
    NoAddress,
    /// The pattern for the answer does not compile; the text says why.
    Pattern(String),
}

/// What a [`LookupError`] holds, as sequences of characters.
pub enum LookupErrorView {
    Transport(Seq<char>),
    NoAddress,
    Pattern(Seq<char>),
}

impl View for LookupError {
    type V = LookupErrorView;

    open spec fn view(&self) -> LookupErrorView {
        match *self {
            LookupError::Transport(e) => LookupErrorView::Transport(e@),
            LookupError::NoAddress => LookupErrorView::NoAddress,
            LookupError::Pattern(e) => LookupErrorView::Pattern(e@),
        }
    }
}

/// The words in which a failed lookup is reported.
pub open spec fn lookup_error_text(error: LookupErrorView) -> Seq<char> {
    match error {
        LookupErrorView::Transport(reason) => reason,
        LookupErrorView::NoAddress => "Can not capture IP from response"@,
        LookupErrorView::Pattern(reason) => reason,
    }
}

impl LookupError {
    /// The words in which the failure is reported.
    pub fn message(&self) -> (r: String)
        ensures
            r@ == lookup_error_text(self@),
    {
        match self {
            LookupError::Transport(reason) => reason.clone(),
            LookupError::NoAddress => String::from_str("Can not capture IP from response"),
            LookupError::Pattern(reason) => reason.clone(),
        }
    }
}

/// What the outcome of a lookup holds, as sequences of characters.
pub open spec fn lookup_view(r: Result<String, LookupError>) -> Result<Seq<char>, LookupErrorView> {
    match r {
        Ok(ip) => Ok(ip@),
        Err(e) => Err(e@),
    }
}

/// What a lookup gives once the service has answered: a failed request
/// stays a failure, an answer is read as the service writes it.
pub open spec fn looked_up(provider: IpProvider, reply: Result<Seq<char>, Seq<char>>) -> Result<
    Seq<char>,
    LookupErrorView,
> {
    match reply {
        Err(e) => Err(LookupErrorView::Transport(e)),
        Ok(body) => match provider {
            IpProvider::IpipNet => myip_ipip_net::address_found(
                myip_ipip_net::group_found(myip_ipip_net::PATTERN@, body, myip_ipip_net::GROUP),
            ),
            IpProvider::MyipLa => Ok(body),
            IpProvider::VnetOne => Ok(body),
        },
    }
}

/// Reads the address out of what came back from `provider`: `reply` is the
/// body of the answer, or the reason why the request failed.
pub fn get_ip(provider: IpProvider, reply: Result<String, String>) -> (r: Result<
    String,
    LookupError,
>)
    ensures
        lookup_view(r) == looked_up(provider, text_result(reply)),
{
    match reply {
        Err(e) => Err(LookupError::Transport(e)),
        Ok(body) => match provider {
            IpProvider::IpipNet => myip_ipip_net::get_ip(body.as_str()),
            IpProvider::MyipLa => myip_la::get_ip(body),
            IpProvider::VnetOne => vnet_one::get_ip(body),
        },
    }
}

/// Where one walk down the list of configured lookup services stands.
#[derive(Debug, Clone, Copy, PartialEq, Eq, Structural)]
pub enum Fallback {
    /// The name at this place in the list is the next to be considered.
    Next(usize),
    /// The service named at this place has been asked and has not answered.
    Asked(usize),
    /// The walk is over.
    Done,
}

/// What the walk is told.
#[derive(Debug, PartialEq, Eq)]
pub enum FallbackEvent {
    /// Go on: the walk begins, or the last report has been made.
    Go,
    /// The service that was asked gave this address, or none.
    Answered(Option<String>),
}

/// What the walk asks for.
#[derive(Debug, PartialEq, Eq)]
pub enum FallbackAction {
    /// The name at `index` selects no service: report it, then go on.
    Unsupported { index: usize },
    /// Ask `provider`, which the name at `index` selects, and tell the
    /// walk what it answered.
    Query { index: usize, provider: IpProvider },
    /// The walk is over: the name of the first service that answered and its
    /// address, or nothing where none succeeded.
    Finished(Option<(String, String)>),
}

/// What a [`FallbackEvent`] holds, as sequences of characters.
pub enum FallbackEventView {
    Go,
    Answered(Option<Seq<char>>),
}

/// What a [`FallbackAction`] holds, as sequences of characters.
pub enum FallbackActionView {
    Unsupported { index: usize },
    Query { index: usize, provider: IpProvider },
    Finished(Option<(Seq<char>, Seq<char>)>),
}

impl View for FallbackEvent {
    type V = FallbackEventView;

    open spec fn view(&self) -> FallbackEventView {
        match *self {
            FallbackEvent::Go => FallbackEventView::Go,
            FallbackEvent::Answered(ip) => FallbackEventView::Answered(optional_text(ip)),
        }
    }
}

impl View for FallbackAction {
    type V = FallbackActionView;

    open spec fn view(&self) -> FallbackActionView {
        match *self {
            FallbackAction::Unsupported { index } => FallbackActionView::Unsupported { index },
            FallbackAction::Query { index, provider } => FallbackActionView::Query {
                index,
                provider,
            },
            FallbackAction::Finished(Some((name, ip))) => FallbackActionView::Finished(
                Some((name@, ip@)),
            ),
            FallbackAction::Finished(None) => FallbackActionView::Finished(None),
        }
    }
}

/// What the walk does when it considers the name at `index`: past the end
/// of the list it is over and nothing was found; a name that selects a
/// service has that service asked; any other name is reported and passed
/// over.
pub open spec fn consider(providers: Seq<Seq<char>>, index: usize) -> (Fallback, FallbackActionView) {
    if index >= providers.len() {
        (Fallback::Done, FallbackActionView::Finished(None))
    } else {
        match ip_provider_named(providers[index as int]) {
            Some(provider) => (Fallback::Asked(index), FallbackActionView::Query { index, provider }),
            None => (
                Fallback::Next((index + 1) as usize),
                FallbackActionView::Unsupported { index },
            ),
        }
    }
}

/// One step of the walk. An address from the service that was asked ends
/// the walk with that service's name, whatever stands behind it in the list;
/// a failure moves on to the next name. Anything told while no answer is
/// awaited only makes the walk go on from where it stands.
pub open spec fn fallback_step(
    providers: Seq<Seq<char>>,
    state: Fallback,
    event: FallbackEventView,
) -> (Fallback, FallbackActionView) {
    match state {
        Fallback::Done => (Fallback::Done, FallbackActionView::Finished(None)),
        Fallback::Next(index) => consider(providers, index),
        Fallback::Asked(index) => if index >= providers.len() {
            (Fallback::Done, FallbackActionView::Finished(None))
        } else {
            match event {
                FallbackEventView::Answered(Some(ip)) => (
                    Fallback::Done,
                    FallbackActionView::Finished(Some((providers[index as int], ip))),
                ),
                FallbackEventView::Answered(None) => consider(providers, (index + 1) as usize),
                FallbackEventView::Go => consider(providers, index),
            }
        },
    }
}

/// Considers the name at `index`.
fn consider_at(providers: &[String], index: usize) -> (r: (Fallback, FallbackAction))
    ensures
        (r.0, r.1@) == consider(texts(providers@), index),
{
    if index >= providers.len() {
        (Fallback::Done, FallbackAction::Finished(None))
    } else {
        match IpProvider::try_from(providers[index].as_str()) {
            Ok(provider) => (Fallback::Asked(index), FallbackAction::Query { index, provider }),
            Err(_) => (Fallback::Next(index + 1), FallbackAction::Unsupported { index }),
        }
    }
}

/// Gets the public address from the first of the configured lookup services
/// that gives one, step by step: called with where the walk stands and what
/// happened last, it says where the walk stands now and what is to be done
/// next. The walk begins at `Fallback::Next(0)` with `FallbackEvent::Go`.
pub fn get_ip_by_fallback(providers: &[String], state: Fallback, event: FallbackEvent) -> (r: (
    Fallback,
    FallbackAction,
))
    ensures
        (r.0, r.1@) == fallback_step(texts(providers@), state, event@),
{
    match state {
        Fallback::Done => (Fallback::Done, FallbackAction::Finished(None)),
        Fallback::Next(index) => consider_at(providers, index),
        Fallback::Asked(index) => {
            if index >= providers.len() {
                (Fallback::Done, FallbackAction::Finished(None))
            } else {
                match event {
                    FallbackEvent::Answered(Some(ip)) => {
                        let name = providers[index].clone();
                        (Fallback::Done, FallbackAction::Finished(Some((name, ip))))
                    },
                    FallbackEvent::Answered(None) => consider_at(providers, index + 1),
                    FallbackEvent::Go => consider_at(providers, index),
                }
            }
        },
    }
}

/// The place of the first name at or behind `from` that selects a service
/// which gives an address. `answers` holds, place by place, what the service
/// named there gives when it is asked.
pub open spec fn first_success(
    providers: Seq<Seq<char>>,
    answers: Seq<Option<Seq<char>>>,
    from: int,
) -> Option<int>
    decreases providers.len() - from,
{
    if from < 0 || from >= providers.len() {
        None
    } else if ip_provider_named(providers[from]) is Some && answers[from] is Some {
        Some(from)
    } else {
        first_success(providers, answers, from + 1)
    }
}

/// The places from `from` up to `until`, without it, whose names select a
/// service, in order.
pub open spec fn supported_places(providers: Seq<Seq<char>>, from: int, until: int) -> Seq<int>
    decreases until - from,
{
    if from >= until {
        Seq::empty()
    } else if ip_provider_named(providers[from]) is Some {
        seq![from] + supported_places(providers, from + 1, until)
    } else {
        supported_places(providers, from + 1, until)
    }
}

/// A bound on the steps that a walk can still take.
pub open spec fn steps_left(len: nat, state: Fallback, event: FallbackEventView) -> nat {
    match state {
        Fallback::Done => 0,
        Fallback::Next(index) => if index >= len {
            0
        } else {
            (2 * (len - index) + 2) as nat
        },
        Fallback::Asked(index) => if index >= len {
            0
        } else if event is Go {
            (2 * (len - index) + 2) as nat
        } else {
            (2 * (len - index) + 1) as nat
        },
    }
}

/// A whole walk from `state`, told `event` first, with every report made
/// and every question answered as `answers` has it: what the walk finds,
/// and the places of the services that it asks, in order.
pub open spec fn walk(
    providers: Seq<Seq<char>>,
    answers: Seq<Option<Seq<char>>>,
    state: Fallback,
    event: FallbackEventView,
) -> (Option<(Seq<char>, Seq<char>)>, Seq<int>)
    decreases steps_left(providers.len(), state, event),
    when providers.len() <= usize::MAX
{
    let (next, action) = fallback_step(providers, state, event);
    match action {
        FallbackActionView::Finished(found) => (found, Seq::empty()),
        FallbackActionView::Unsupported { index } => walk(
            providers,
            answers,
            next,
            FallbackEventView::Go,
        ),
        FallbackActionView::Query { index, provider } => {
            let rest = walk(
                providers,
                answers,
                next,
                FallbackEventView::Answered(answers[index as int]),
            );
            (rest.0, seq![index as int] + rest.1)
        },
    }
}

/// What a walk that starts at place `from` is to come to: the first
/// service behind that gives an address is the one whose address is found,
/// and only the services up to that one are asked.
pub open spec fn fallback_outcome(
    providers: Seq<Seq<char>>,
    answers: Seq<Option<Seq<char>>>,
    from: int,
) -> (Option<(Seq<char>, Seq<char>)>, Seq<int>) {
    match first_success(providers, answers, from) {
        Some(winner) => (
            Some((providers[winner], answers[winner]->0)),
            supported_places(providers, from, winner + 1),
        ),
        None => (None, supported_places(providers, from, providers.len() as int)),
    }
}

/// The first success behind `from` lies in the list, not in front of
/// `from`, at a name that selects a service which gives an address.
proof fn lemma_first_success_is_a_success(
    providers: Seq<Seq<char>>,
    answers: Seq<Option<Seq<char>>>,
    from: int,
)
    requires
        0 <= from,
    ensures
        first_success(providers, answers, from) matches Some(winner) ==> {
            &&& from <= winner < providers.len()
            &&& ip_provider_named(providers[winner]) is Some
            &&& answers[winner] is Some
        },
    decreases providers.len() - from,
{
    if from < providers.len() {
        lemma_first_success_is_a_success(providers, answers, from + 1);
    }
}

/// A walk from any place comes to what it is to come to.
proof fn lemma_walk_from(
    providers: Seq<Seq<char>>,
    answers: Seq<Option<Seq<char>>>,
    from: usize,
    event: FallbackEventView,
)
    requires
        providers.len() == answers.len(),
        providers.len() <= usize::MAX,
        from <= providers.len(),
    ensures
        walk(providers, answers, Fallback::Next(from), event) == fallback_outcome(
            providers,
            answers,
            from as int,
        ),
    decreases providers.len() - from,
{
    let len = providers.len() as int;
    if from as int >= len {
        assert(supported_places(providers, from as int, len) =~= Seq::<int>::empty());
    } else {
        let next = (from + 1) as usize;
        lemma_walk_from(providers, answers, next, FallbackEventView::Go);
        lemma_first_success_is_a_success(providers, answers, next as int);
        match ip_provider_named(providers[from as int]) {
            None => {
                assert(walk(providers, answers, Fallback::Next(from), event) == walk(
                    providers,
                    answers,
                    Fallback::Next(next),
                    FallbackEventView::Go,
                ));
            },
            Some(provider) => {
                let asked = walk(
                    providers,
                    answers,
                    Fallback::Asked(from),
                    FallbackEventView::Answered(answers[from as int]),
                );
                assert(walk(providers, answers, Fallback::Next(from), event) == (
                    asked.0,
                    seq![from as int] + asked.1,
                ));
                match answers[from as int] {
                    Some(ip) => {
                        assert(asked == (Some((providers[from as int], ip)), Seq::<int>::empty()));
                        assert(supported_places(providers, from + 1, from + 1) =~= Seq::<
                            int,
                        >::empty());
                        assert(seq![from as int] + Seq::<int>::empty() =~= supported_places(
                            providers,
                            from as int,
                            from + 1,
                        ));
                    },
                    None => {
                        assert(fallback_step(
                            providers,
                            Fallback::Asked(from),
                            FallbackEventView::Answered(None),
                        ) == fallback_step(providers, Fallback::Next(next), FallbackEventView::Go));
                        assert(asked == walk(
                            providers,
                            answers,
                            Fallback::Next(next),
                            FallbackEventView::Go,
                        ));
                    },
                }
            },
        }
    }
}

/// The fallback is an ordered chain: a walk over the whole list finds the
/// address of the first service in the list that gives one, under that
/// service's name, and asks no service behind it; where no service gives an
/// address it finds nothing, after asking every service that the list names.
pub proof fn law_first_success_wins(providers: Seq<Seq<char>>, answers: Seq<Option<Seq<char>>>)
    requires
        providers.len() == answers.len(),
        providers.len() <= usize::MAX,
    ensures
        walk(providers, answers, Fallback::Next(0), FallbackEventView::Go) == fallback_outcome(
            providers,
            answers,
            0,
        ),
        first_success(providers, answers, 0) matches Some(winner) ==> {
            &&& 0 <= winner < providers.len()
            &&& ip_provider_named(providers[winner]) is Some
            &&& answers[winner] is Some
        },
{
    lemma_walk_from(providers, answers, 0, FallbackEventView::Go);
    lemma_first_success_is_a_success(providers, answers, 0);
}

} // verus!
