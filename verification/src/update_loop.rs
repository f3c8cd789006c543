//! The update loop: on each tick of its timer it has the public address
//! discovered, decides whether the address has to be published, and keeps in
//! mind what was published last.
//!
//! The loop is written as a machine that is told what happened and says what
//! is to be done. It never fails: whatever it is told, it goes on.

use vstd::prelude::*;

use crate::address::{is_ip_text, IpAddress};

verus! {

/// Time between two readings of the clock, in milliseconds; `None` where the
/// second reading lies before the first.
pub open spec fn elapsed_between(started_at: u64, finished_at: u64) -> Option<u64> {
    if finished_at >= started_at {
        Some((finished_at - started_at) as u64)
    } else {
        None
    }
}

/// Measures a step from two clock readings without ever failing: a clock
/// that moved backwards gives `None`.
pub fn elapsed_millis(started_at: u64, finished_at: u64) -> (r: Option<u64>)
    ensures
        r == elapsed_between(started_at, finished_at),
{
    if finished_at >= started_at {
        Some(finished_at - started_at)
    } else {
        None
    }
}

/// What the loop keeps in mind from one cycle to the next: the address that
/// was published last and when that was. Both are there or neither is.
#[derive(Debug, PartialEq, Eq)]
pub struct LoopState {
    last_published_ip: Option<IpAddress>,
    last_published_at: Option<u64>,
}

/// What a [`LoopState`] holds, the address as a sequence of characters.
pub struct LoopStateView {
    pub last_published_ip: Option<Seq<char>>,
    pub last_published_at: Option<u64>,
}

impl View for LoopState {
    type V = LoopStateView;

    closed spec fn view(&self) -> LoopStateView {
        LoopStateView {
            last_published_ip: match self.last_published_ip {
                Some(ip) => Some(ip@),
                None => None,
            },
            last_published_at: self.last_published_at,
        }
    }
}

impl LoopState {
    #[verifier::type_invariant]
    spec fn well_formed(&self) -> bool {
        self.last_published_ip is Some <==> self.last_published_at is Some
    }

    /// The state at the start of the loop: nothing has been published.
    pub fn new() -> (r: LoopState)
        ensures
            r@ == (LoopStateView { last_published_ip: None, last_published_at: None }),
    {
        LoopState { last_published_ip: None, last_published_at: None }
    }

    /// The address that was published last.
    pub fn last_published_ip(&self) -> (r: Option<&IpAddress>)
        ensures
            match r {
                Some(ip) => self@.last_published_ip == Some(ip@) && is_ip_text(ip@),
                None => self@.last_published_ip is None,
            },
            r is Some <==> self@.last_published_at is Some,
    {
        proof {
            use_type_invariant(self);
        }
        match &self.last_published_ip {
            Some(ip) => {
                let _ = ip.as_str();
                Some(ip)
            },
            None => None,
        }
    }

    /// When the last address was published, in milliseconds.
    pub fn last_published_at(&self) -> (r: Option<u64>)
        ensures
            r == self@.last_published_at,
            r is Some <==> self@.last_published_ip is Some,
    {
        proof {
            use_type_invariant(self);
        }
        self.last_published_at
    }
}

/// What the loop is doing.
#[derive(Debug, PartialEq, Eq)]
pub enum Phase {
    /// Waiting for the next tick of the timer.
    Idle,
    /// Discovery has been asked for at `since` and has not come back.
    Discovering { since: u64 },
    /// Publishing `ip` has been asked for at `since` and has not come back.
    Publishing { ip: IpAddress, since: u64 },
}

/// What a [`Phase`] holds, the address as a sequence of characters.
pub enum PhaseView {
    Idle,
    Discovering { since: u64 },
    Publishing { ip: Seq<char>, since: u64 },
}

impl View for Phase {
    type V = PhaseView;

    open spec fn view(&self) -> PhaseView {
        match *self {
            Phase::Idle => PhaseView::Idle,
            Phase::Discovering { since } => PhaseView::Discovering { since },
            Phase::Publishing { ip, since } => PhaseView::Publishing { ip: ip@, since },
        }
    }
}

/// The update loop: its memory and what it is doing.
#[derive(Debug, PartialEq, Eq)]
pub struct UpdateLoop {
    pub state: LoopState,
    pub phase: Phase,
}

/// What an [`UpdateLoop`] holds.
pub struct UpdateLoopView {
    pub state: LoopStateView,
    pub phase: PhaseView,
}

impl View for UpdateLoop {
    type V = UpdateLoopView;

    open spec fn view(&self) -> UpdateLoopView {
        UpdateLoopView { state: self.state@, phase: self.phase@ }
    }
}

/// What the loop is told. Every event carries the reading of the clock at
/// which it happened, in milliseconds.
#[derive(Debug, PartialEq, Eq)]
pub enum LoopEvent {
    /// The timer ticked.
    Tick { now: u64 },
    /// Discovery came back with the name of a lookup service and what it
    /// gave as the address, or with nothing.
    Discovered { found: Option<(String, String)>, now: u64 },
    /// Every configured DNS provider has been tried.
    Published { now: u64 },
}

/// What a [`LoopEvent`] holds, as sequences of characters.
pub enum LoopEventView {
    Tick { now: u64 },
    Discovered { found: Option<(Seq<char>, Seq<char>)>, now: u64 },
    Published { now: u64 },
}

impl View for LoopEvent {
    type V = LoopEventView;

    open spec fn view(&self) -> LoopEventView {
        match *self {
            LoopEvent::Tick { now } => LoopEventView::Tick { now },
            LoopEvent::Discovered { found: Some((provider, ip)), now } => LoopEventView::Discovered {
                found: Some((provider@, ip@)),
                now,
            },
            LoopEvent::Discovered { found: None, now } => LoopEventView::Discovered {
                found: None,
                now,
            },
            LoopEvent::Published { now } => LoopEventView::Published { now },
        }
    }
}

/// Why a cycle ends without publishing.
#[derive(Debug, PartialEq, Eq)]
pub enum Skip {
    /// No lookup service gave an address.
    NoneSucceeded,
    /// What `provider` gave is not the text of an address.
    InvalidAddress { provider: String },
    /// `provider` gave the address that was published last. The last
    /// publishing lies `since_last` milliseconds back, as far as the clock
    /// can tell.
    Unchanged { provider: String, ip: IpAddress, since_last: Option<u64> },
}

/// What a [`Skip`] holds, as sequences of characters.
pub enum SkipView {
    NoneSucceeded,
    InvalidAddress { provider: Seq<char> },
    Unchanged { provider: Seq<char>, ip: Seq<char>, since_last: Option<u64> },
}

impl View for Skip {
    type V = SkipView;

    open spec fn view(&self) -> SkipView {
        match *self {
            Skip::NoneSucceeded => SkipView::NoneSucceeded,
            Skip::InvalidAddress { provider } => SkipView::InvalidAddress { provider: provider@ },
            Skip::Unchanged { provider, ip, since_last } => SkipView::Unchanged {
                provider: provider@,
                ip: ip@,
                since_last,
            },
        }
    }
}

/// What the loop asks for, and what it has to report.
#[derive(Debug, PartialEq, Eq)]
pub enum LoopAction {
    /// Nothing: the loop is busy with a cycle, or was told what it did not
    /// wait for.
    Nothing,
    /// Have the public address discovered.
    Discover,
    /// The cycle is over and nothing is published, for this reason.
    /// Discovery took `discovery_took` milliseconds, as far as the clock can
    /// tell.
    Skip { reason: Skip, discovery_took: Option<u64> },
    /// `provider` gave `ip` after `discovery_took` milliseconds: have it
    /// published with every configured DNS provider.
    Publish { provider: String, ip: IpAddress, discovery_took: Option<u64> },
    /// The cycle is over: publishing took `took` milliseconds.
    Completed { took: Option<u64> },
}

/// What a [`LoopAction`] holds, as sequences of characters.
pub enum LoopActionView {
    Nothing,
    Discover,
    Skip { reason: SkipView, discovery_took: Option<u64> },
    Publish { provider: Seq<char>, ip: Seq<char>, discovery_took: Option<u64> },
    Completed { took: Option<u64> },
}

impl View for LoopAction {
    type V = LoopActionView;

    open spec fn view(&self) -> LoopActionView {
        match *self {
            LoopAction::Nothing => LoopActionView::Nothing,
            LoopAction::Discover => LoopActionView::Discover,
            LoopAction::Skip { reason, discovery_took } => LoopActionView::Skip {
                reason: reason@,
                discovery_took,
            },
            LoopAction::Publish { provider, ip, discovery_took } => LoopActionView::Publish {
                provider: provider@,
                ip: ip@,
                discovery_took,
            },
            LoopAction::Completed { took } => LoopActionView::Completed { took },
        }
    }
}

/// The time since the last publishing, where there was one and the clock
/// can tell.
pub open spec fn since_last_published(state: LoopStateView, now: u64) -> Option<u64> {
    match state.last_published_at {
        Some(at) => elapsed_between(at, now),
        None => None,
    }
}

/// What comes of a discovery that started at `since` and came back at `now`
/// with `found`, for a loop that remembers `state`.
///
/// Nothing found, or a text that is no address: the cycle is skipped. The
/// address that was published last: skipped too, however long ago that was.
/// Any other address is published.
pub open spec fn discovery_outcome(
    state: LoopStateView,
    since: u64,
    found: Option<(Seq<char>, Seq<char>)>,
    now: u64,
) -> (PhaseView, LoopActionView) {
    let discovery_took = elapsed_between(since, now);
    match found {
        None => (
            PhaseView::Idle,
            LoopActionView::Skip { reason: SkipView::NoneSucceeded, discovery_took },
        ),
        Some((provider, ip)) => if !is_ip_text(ip) {
            (
                PhaseView::Idle,
                LoopActionView::Skip {
                    reason: SkipView::InvalidAddress { provider },
                    discovery_took,
                },
            )
        } else if state.last_published_ip == Some(ip) {
            (
                PhaseView::Idle,
                LoopActionView::Skip {
                    reason: SkipView::Unchanged {
                        provider,
                        ip,
                        since_last: since_last_published(state, now),
                    },
                    discovery_took,
                },
            )
        } else {
            (PhaseView::Publishing { ip, since: now }, LoopActionView::Publish { provider, ip, discovery_took })
        },
    }
}

/// One step of the loop.
///
/// A tick starts a cycle only while the loop is idle: a cycle runs to its
/// end before the next one begins. What was published last changes in one
/// place only, when publishing comes back, and then to the address that was
/// handed out for publishing and to the time of that event, whatever the
/// providers made of it.
pub open spec fn loop_step(current: UpdateLoopView, event: LoopEventView) -> (
    UpdateLoopView,
    LoopActionView,
) {
    match (current.phase, event) {
        (PhaseView::Idle, LoopEventView::Tick { now }) => (
            UpdateLoopView { state: current.state, phase: PhaseView::Discovering { since: now } },
            LoopActionView::Discover,
        ),
        (PhaseView::Discovering { since }, LoopEventView::Discovered { found, now }) => {
            let (phase, action) = discovery_outcome(current.state, since, found, now);
            (UpdateLoopView { state: current.state, phase }, action)
        },
        (PhaseView::Publishing { ip, since }, LoopEventView::Published { now }) => (
            UpdateLoopView {
                state: LoopStateView { last_published_ip: Some(ip), last_published_at: Some(now) },
                phase: PhaseView::Idle,
            },
            LoopActionView::Completed { took: elapsed_between(since, now) },
        ),
        _ => (current, LoopActionView::Nothing),
    }
}

impl UpdateLoop {
    /// The loop before its first tick: idle, with nothing published.
    pub fn new() -> (r: UpdateLoop)
        ensures
            r@ == (UpdateLoopView {
                state: LoopStateView { last_published_ip: None, last_published_at: None },
                phase: PhaseView::Idle,
            }),
    {
        UpdateLoop { state: LoopState::new(), phase: Phase::Idle }
    }

    /// Takes the loop one step further: told what happened, it says what is
    /// to be done and what there is to report.
    pub fn step(self, event: LoopEvent) -> (r: (UpdateLoop, LoopAction))
        ensures
            (r.0@, r.1@) == loop_step(self@, event@),
            is_sound(self@),
            is_sound(r.0@),
            r.1 matches LoopAction::Publish { ip, .. } ==> is_ip_text(ip@),
    {
        self.soundness();
        let UpdateLoop { state, phase } = self;
        let r = match (phase, event) {
            (Phase::Idle, LoopEvent::Tick { now }) => (
                UpdateLoop { state, phase: Phase::Discovering { since: now } },
                LoopAction::Discover,
            ),
            (Phase::Discovering { since }, LoopEvent::Discovered { found, now }) => {
                let (phase, action) = state.after_discovery(since, found, now);
                (UpdateLoop { state, phase }, action)
            },
            (Phase::Publishing { ip, since }, LoopEvent::Published { now }) => (
                UpdateLoop {
                    state: LoopState { last_published_ip: Some(ip), last_published_at: Some(now) },
                    phase: Phase::Idle,
                },
                LoopAction::Completed { took: elapsed_millis(since, now) },
            ),
            (phase, _) => (UpdateLoop { state, phase }, LoopAction::Nothing),
        };
        r.0.soundness();
        r
    }
}

impl UpdateLoop {
    /// Brings to light what the types keep: a loop that runs is sound.
    fn soundness(&self)
        ensures
            is_sound(self@),
    {
        let _ = self.state.last_published_ip();
        match &self.phase {
            Phase::Publishing { ip, .. } => {
                let _ = ip.as_str();
            },
            _ => {},
        }
    }
}

impl LoopState {
    /// Decides what comes of a discovery.
    fn after_discovery(
        &self,
        since: u64,
        found: Option<(String, String)>,
        now: u64,
    ) -> (r: (Phase, LoopAction))
        ensures
            (r.0@, r.1@) == discovery_outcome(
                self@,
                since,
                match found {
                    Some((provider, ip)) => Some((provider@, ip@)),
                    None => None,
                },
                now,
            ),
            r.1 matches LoopAction::Publish { ip, .. } ==> is_ip_text(ip@),
    {
        proof {
            use_type_invariant(self);
        }
        let discovery_took = elapsed_millis(since, now);
        let (provider, text) = match found {
            None => {
                return (
                    Phase::Idle,
                    LoopAction::Skip { reason: Skip::NoneSucceeded, discovery_took },
                );
            },
            Some(pair) => pair,
        };
        let ip = match IpAddress::parse(text.as_str()) {
            None => {
                return (
                    Phase::Idle,
                    LoopAction::Skip { reason: Skip::InvalidAddress { provider }, discovery_took },
                );
            },
            Some(ip) => ip,
        };
        let unchanged = match &self.last_published_ip {
            Some(last) => last.same_as(&ip),
            None => false,
        };
        if unchanged {
            let since_last = match self.last_published_at {
                Some(at) => elapsed_millis(at, now),
                None => None,
            };
            (
                Phase::Idle,
                LoopAction::Skip {
                    reason: Skip::Unchanged { provider, ip, since_last },
                    discovery_took,
                },
            )
        } else {
            let handed_out = ip.duplicate();
            (
                Phase::Publishing { ip, since: now },
                LoopAction::Publish { provider, ip: handed_out, discovery_took },
            )
        }
    }
}

/// What holds of the loop at any time: the address that it remembers is
/// the text of an address and has its time with it, and so is an address
/// that is being published.
pub open spec fn is_sound(current: UpdateLoopView) -> bool {
    &&& current.state.last_published_ip is Some <==> current.state.last_published_at is Some
    &&& current.state.last_published_ip matches Some(ip) ==> is_ip_text(ip)
    &&& current.phase matches PhaseView::Publishing { ip, .. } ==> is_ip_text(ip)
}

/// No step breaks what holds of the loop: whatever it is told, nothing
/// but the text of an address is ever handed out for publishing or
/// remembered.
pub proof fn law_the_loop_stays_sound(current: UpdateLoopView, event: LoopEventView)
    requires
        is_sound(current),
    ensures
        is_sound(loop_step(current, event).0),
        loop_step(current, event).1 matches LoopActionView::Publish { ip, .. } ==> is_ip_text(ip),
{
}

/// What the loop remembers changes only when publishing comes back, and
/// then to the address that was handed out and to the time of that event.
pub proof fn law_memory_changes_only_by_publishing(current: UpdateLoopView, event: LoopEventView)
    ensures
        loop_step(current, event).0.state != current.state ==> {
            &&& current.phase matches PhaseView::Publishing { ip, .. }
            &&& event matches LoopEventView::Published { now }
            &&& loop_step(current, event).0.state == (LoopStateView {
                last_published_ip: Some(ip),
                last_published_at: Some(now),
            })
        },
{
}

/// Ticks are taken one at a time: a tick that comes while a cycle is under
/// way changes nothing and starts nothing.
pub proof fn law_a_cycle_is_not_interrupted(current: UpdateLoopView, now: u64)
    requires
        !(current.phase is Idle),
    ensures
        loop_step(current, LoopEventView::Tick { now }) == (current, LoopActionView::Nothing),
{
}

/// Where no lookup service gave an address nothing is published in that
/// cycle, and what the loop remembers stays as it is.
pub proof fn law_nothing_found_is_skipped(current: UpdateLoopView, since: u64, now: u64)
    requires
        current.phase == (PhaseView::Discovering { since }),
    ensures
        loop_step(current, LoopEventView::Discovered { found: None, now }) == (
            UpdateLoopView { state: current.state, phase: PhaseView::Idle },
            LoopActionView::Skip {
                reason: SkipView::NoneSucceeded,
                discovery_took: elapsed_between(since, now),
            },
        ),
{
}

/// A text that is no address is never published and never remembered: the
/// cycle ends, and what the loop remembers stays as it is.
pub proof fn law_no_address_is_skipped(
    current: UpdateLoopView,
    since: u64,
    provider: Seq<char>,
    text: Seq<char>,
    now: u64,
)
    requires
        current.phase == (PhaseView::Discovering { since }),
        !is_ip_text(text),
    ensures
        loop_step(current, LoopEventView::Discovered { found: Some((provider, text)), now }) == (
            UpdateLoopView { state: current.state, phase: PhaseView::Idle },
            LoopActionView::Skip {
                reason: SkipView::InvalidAddress { provider },
                discovery_took: elapsed_between(since, now),
            },
        ),
{
}

/// The address that was published last is not published again, however
/// much time has passed: the cycle ends, and what the loop remembers stays
/// as it is.
pub proof fn law_unchanged_address_is_skipped(
    current: UpdateLoopView,
    since: u64,
    provider: Seq<char>,
    ip: Seq<char>,
    now: u64,
)
    requires
        current.phase == (PhaseView::Discovering { since }),
        is_ip_text(ip),
        current.state.last_published_ip == Some(ip),
    ensures
        loop_step(current, LoopEventView::Discovered { found: Some((provider, ip)), now }) == (
            UpdateLoopView { state: current.state, phase: PhaseView::Idle },
            LoopActionView::Skip {
                reason: SkipView::Unchanged {
                    provider,
                    ip,
                    since_last: since_last_published(current.state, now),
                },
                discovery_took: elapsed_between(since, now),
            },
        ),
{
}

/// An address other than the one that was published last, or any address
/// where none was published yet, is handed out for publishing; and once
/// publishing has come back, at `done`, the loop remembers that address and
/// that time, whatever it remembered before.
pub proof fn law_changed_address_is_published(
    current: UpdateLoopView,
    since: u64,
    provider: Seq<char>,
    ip: Seq<char>,
    now: u64,
    done: u64,
)
    requires
        current.phase == (PhaseView::Discovering { since }),
        is_ip_text(ip),
        current.state.last_published_ip != Some(ip),
    ensures
        ({
            let (publishing, action) = loop_step(
                current,
                LoopEventView::Discovered { found: Some((provider, ip)), now },
            );
            let (after, report) = loop_step(publishing, LoopEventView::Published { now: done });
            &&& action == (LoopActionView::Publish {
                provider,
                ip,
                discovery_took: elapsed_between(since, now),
            })
            &&& publishing.state == current.state
            &&& report == (LoopActionView::Completed { took: elapsed_between(now, done) })
            &&& after == (UpdateLoopView {
                state: LoopStateView { last_published_ip: Some(ip), last_published_at: Some(done) },
                phase: PhaseView::Idle,
            })
        }),
{
}

} // verus!
