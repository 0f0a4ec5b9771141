//! Creation of the embedded surface: a state machine that is ticked by a
//! retry timer until the surface exists or is given up.
//!
//! The coordinator decides; the host carries out what it decides and
//! reports back. A retry tick may ask for a creation attempt, and the
//! attempt's outcome is handed to the coordinator, which adopts the surface
//! at most once and owns it from then on. The surface is of a type of the
//! host's, of which the coordinator knows nothing.

use vstd::prelude::*;
use crate::canonical::{canonical_with, canonicalize_with};
use crate::config::Config;
use crate::geometry::{Bounds, HostWindowMetrics, Scale};
use crate::whitespace::{is_blank, lemma_trim_empty_iff_blank, trimmed};

verus! {

/// Where the coordinator stands.
#[derive(Clone, Copy, Debug, PartialEq, Eq, Structural)]
pub enum Phase {
    /// Not started.
    Uninitialized,
    /// Trying to create the surface.
    Initializing,
    /// The surface exists.
    Ready,
    /// Creation was given up; the window stays without content.
    Abandoned,
}

/// How an attempt to create the surface ended, without the surface.
#[derive(Clone, Copy, Debug, PartialEq, Eq, Structural)]
pub enum OutcomeKind {
    /// The surface was created.
    Created,
    /// The host's window handle is not valid yet.
    NotYetReady,
    /// Creation failed for any other reason.
    Fatal,
}

/// How an attempt to create the surface ended.
#[derive(Debug, PartialEq, Eq)]
pub enum CreationOutcome<S> {
    /// The surface was created: here it is.
    Created(S),
    /// The host's window handle is not valid yet.
    NotYetReady,
    /// Creation failed for any other reason.
    Fatal,
}

impl<S> CreationOutcome<S> {
    /// The outcome without the surface.
    pub open spec fn kind(self) -> OutcomeKind {
        match self {
            CreationOutcome::Created(_) => OutcomeKind::Created,
            CreationOutcome::NotYetReady => OutcomeKind::NotYetReady,
            CreationOutcome::Fatal => OutcomeKind::Fatal,
        }
    }
}

/// What a retry tick asks of the host, without the details of a request.
#[derive(Clone, Copy, Debug, PartialEq, Eq, Structural)]
pub enum RetryKind {
    /// Stop the retry timer: there is nothing to retry.
    Stop,
    /// Do nothing until the next tick.
    Wait,
    /// Try to create the surface and report the outcome.
    Create,
    /// Stop the retry timer and report that creation was given up.
    GiveUp,
}

/// What a creation attempt is made with.
#[derive(Debug, PartialEq, Eq)]
pub struct CreationRequest {
    /// The address to load first.
    pub target: String,
    /// Where to put the surface.
    pub bounds: Bounds,
    /// What to show in the address bar, where it was blank.
    pub address: Option<String>,
}

/// What a retry tick asks of the host.
#[derive(Debug, PartialEq, Eq)]
pub enum RetryAction {
    /// Stop the retry timer: there is nothing to retry.
    Stop,
    /// Do nothing until the next tick.
    Wait,
    /// Try to create the surface and report the outcome.
    Create(CreationRequest),
    /// Stop the retry timer and report that creation was given up.
    GiveUp,
}

impl RetryAction {
    /// The action without the details of a request.
    pub open spec fn kind(self) -> RetryKind {
        match self {
            RetryAction::Stop => RetryKind::Stop,
            RetryAction::Wait => RetryKind::Wait,
            RetryAction::Create(_) => RetryKind::Create,
            RetryAction::GiveUp => RetryKind::GiveUp,
        }
    }
}

/// What the host does after the outcome of a creation attempt.
#[derive(Clone, Copy, Debug, PartialEq, Eq, Structural)]
pub enum OutcomeAction {
    /// Nothing: no attempt was awaited, and a surface that came with the
    /// outcome was dropped.
    Ignore,
    /// Stop the retry timer: the coordinator has taken the surface.
    Adopt,
    /// Keep the retry timer running.
    Retry,
    /// Stop the retry timer and report the failure.
    Abandon,
}

/// The coordinator's state as a mathematical value.
pub struct LifecycleState {
    pub phase: Phase,
    /// Whether the outcome of a creation attempt is awaited.
    pub pending: bool,
    /// Retry ticks counted while initializing.
    pub ticks: nat,
    /// Number of retry ticks after which creation is given up.
    pub limit: nat,
}

/// What happens to a coordinator.
pub enum Event {
    Start,
    RetryTick(HostWindowMetrics),
    CreationResult(OutcomeKind),
}

impl LifecycleState {
    /// The state of a new coordinator.
    pub open spec fn initial(limit: nat) -> LifecycleState {
        LifecycleState { phase: Phase::Uninitialized, pending: false, ticks: 0, limit }
    }

    /// What holds of every state that a coordinator reaches: the tick count
    /// is within the limit, and only while initializing are ticks counted
    /// and an attempt awaited.
    pub open spec fn consistent(self) -> bool {
        &&& self.ticks <= self.limit
        &&& self.phase != Phase::Initializing ==> !self.pending && self.ticks == 0
    }

    /// The state after a start.
    pub open spec fn start(self) -> LifecycleState {
        if self.phase == Phase::Uninitialized {
            LifecycleState { phase: Phase::Initializing, pending: false, ticks: 0, ..self }
        } else {
            self
        }
    }

    /// What a retry tick asks for.
    pub open spec fn tick_kind(self, metrics: HostWindowMetrics) -> RetryKind {
        if self.phase != Phase::Initializing {
            RetryKind::Stop
        } else if self.ticks >= self.limit {
            RetryKind::GiveUp
        } else if self.pending || metrics.is_degenerate() {
            RetryKind::Wait
        } else {
            RetryKind::Create
        }
    }

    /// The state after a retry tick.
    pub open spec fn tick(self, metrics: HostWindowMetrics) -> LifecycleState {
        match self.tick_kind(metrics) {
            RetryKind::Stop => self,
            RetryKind::GiveUp => LifecycleState {
                phase: Phase::Abandoned,
                pending: false,
                ticks: 0,
                ..self
            },
            RetryKind::Wait => LifecycleState { ticks: self.ticks + 1, ..self },
            RetryKind::Create => LifecycleState { ticks: self.ticks + 1, pending: true, ..self },
        }
    }

    /// What the outcome of a creation attempt leads to.
    pub open spec fn outcome_action(self, outcome: OutcomeKind) -> OutcomeAction {
        if self.phase == Phase::Initializing && self.pending {
            match outcome {
                OutcomeKind::Created => OutcomeAction::Adopt,
                OutcomeKind::NotYetReady => OutcomeAction::Retry,
                OutcomeKind::Fatal => OutcomeAction::Abandon,
            }
        } else {
            OutcomeAction::Ignore
        }
    }

    /// The state after the outcome of a creation attempt.
    pub open spec fn outcome(self, outcome: OutcomeKind) -> LifecycleState {
        match self.outcome_action(outcome) {
            OutcomeAction::Ignore => self,
            OutcomeAction::Adopt => LifecycleState {
                phase: Phase::Ready,
                pending: false,
                ticks: 0,
                ..self
            },
            OutcomeAction::Retry => LifecycleState { pending: false, ..self },
            OutcomeAction::Abandon => LifecycleState {
                phase: Phase::Abandoned,
                pending: false,
                ticks: 0,
                ..self
            },
        }
    }

    /// The state after one event.
    pub open spec fn step(self, event: Event) -> LifecycleState {
        match event {
            Event::Start => self.start(),
            Event::RetryTick(metrics) => self.tick(metrics),
            Event::CreationResult(outcome) => self.outcome(outcome),
        }
    }

    /// The state after a sequence of events.
    pub open spec fn run(self, events: Seq<Event>) -> LifecycleState
        decreases events.len(),
    {
        if events.len() == 0 {
            self
        } else {
            self.step(events.first()).run(events.drop_first())
        }
    }

    /// Whether `event` makes the host attempt a creation.
    pub open spec fn attempts(self, event: Event) -> bool {
        event matches Event::RetryTick(metrics) && self.tick_kind(metrics) == RetryKind::Create
    }

    /// Whether `event` makes the host adopt a surface.
    pub open spec fn adopts(self, event: Event) -> bool {
        event matches Event::CreationResult(outcome) && self.outcome_action(outcome)
            == OutcomeAction::Adopt
    }

    /// How many surfaces the host adopts over a sequence of events.
    pub open spec fn adoptions(self, events: Seq<Event>) -> nat
        decreases events.len(),
    {
        if events.len() == 0 {
            0
        } else {
            let now: nat = if self.adopts(events.first()) {
                1
            } else {
                0
            };
            now + self.step(events.first()).adoptions(events.drop_first())
        }
    }
}

/// The address that the surface is created with: the default where the
/// address bar is blank.
pub open spec fn start_address(address: Seq<char>, default_address: Seq<char>) -> Seq<char> {
    if is_blank(address) {
        default_address
    } else {
        address
    }
}

/// The coordinator's phase together with what belongs to it alone.
enum Stage<S> {
    Uninitialized,
    Initializing { pending: bool, ticks: u32 },
    Ready(S),
    Abandoned,
}

/// Decides when, and with what, the embedded surface is created, and owns
/// the surface once it exists. `S` is the host's type for the surface.
pub struct Coordinator<S> {
    config: Config,
    stage: Stage<S>,
}

impl<S> View for Coordinator<S> {
    type V = LifecycleState;

    closed spec fn view(&self) -> LifecycleState {
        let limit = self.config.retry_limit as nat;
        match self.stage {
            Stage::Uninitialized => LifecycleState {
                phase: Phase::Uninitialized,
                pending: false,
                ticks: 0,
                limit,
            },
            Stage::Initializing { pending, ticks } => LifecycleState {
                phase: Phase::Initializing,
                pending,
                ticks: ticks as nat,
                limit,
            },
            Stage::Ready(_) => LifecycleState { phase: Phase::Ready, pending: false, ticks: 0, limit },
            Stage::Abandoned => LifecycleState {
                phase: Phase::Abandoned,
                pending: false,
                ticks: 0,
                limit,
            },
        }
    }
}

impl<S> Coordinator<S> {
    /// The tunables that the coordinator was made with.
    pub closed spec fn spec_config(&self) -> &Config {
        &self.config
    }

    /// The tunables that the coordinator was made with.
    #[verifier::when_used_as_spec(spec_config)]
    pub fn config(&self) -> (config: &Config)
        ensures
            config == self.spec_config(),
    {
        &self.config
    }

    /// The surface, once it exists.
    pub closed spec fn spec_surface(&self) -> Option<&S> {
        match &self.stage {
            Stage::Ready(surface) => Some(surface),
            _ => None,
        }
    }

    /// The surface, once it exists: there is one exactly when the
    /// coordinator is ready.
    #[verifier::when_used_as_spec(spec_surface)]
    pub fn surface(&self) -> (surface: Option<&S>)
        ensures
            surface == self.spec_surface(),
            surface is Some <==> self@.phase == Phase::Ready,
    {
        match &self.stage {
            Stage::Ready(surface) => Some(surface),
            _ => None,
        }
    }

    /// While initializing, the ticks counted are within the retry limit.
    #[verifier::type_invariant]
    spec fn ticks_within_limit(&self) -> bool {
        self.stage matches Stage::Initializing { ticks, .. } ==> ticks <= self.config.retry_limit
    }

    /// There is a surface exactly when the coordinator is ready.
    pub proof fn lemma_surface_iff_ready(&self)
        ensures
            self.surface() is Some <==> self@.phase == Phase::Ready,
    {
    }

    /// The retry limit is the configured one.
    pub proof fn lemma_limit_is_configured(&self)
        ensures
            self@.limit == self.config().retry_limit,
    {
    }

    /// A coordinator that has not been started.
    pub fn new(config: Config) -> (coordinator: Coordinator<S>)
        ensures
            coordinator@ == LifecycleState::initial(config.retry_limit as nat),
            coordinator@.consistent(),
            *coordinator.config() == config,
            coordinator.surface() is None,
    {
        Coordinator { config, stage: Stage::Uninitialized }
    }

    /// Where the coordinator stands.
    pub fn phase(&self) -> (phase: Phase)
        ensures
            phase == self@.phase,
    {
        match self.stage {
            Stage::Uninitialized => Phase::Uninitialized,
            Stage::Initializing { .. } => Phase::Initializing,
            Stage::Ready(_) => Phase::Ready,
            Stage::Abandoned => Phase::Abandoned,
        }
    }

    /// Whether the surface exists.
    pub fn is_ready(&self) -> (ready: bool)
        ensures
            ready == (self@.phase == Phase::Ready),
    {
        match self.stage {
            Stage::Ready(_) => true,
            _ => false,
        }
    }

    /// Begins initialization; returns whether this call began it, on which
    /// the host starts its timers.
    pub fn start(&mut self) -> (started: bool)
        ensures
            final(self)@ == old(self)@.start(),
            final(self)@.consistent(),
            final(self).config() == old(self).config(),
            final(self).surface() == old(self).surface(),
            started == (old(self)@.phase == Phase::Uninitialized),
    {
        proof {
            use_type_invariant(&*self);
        }
        match self.stage {
            Stage::Uninitialized => {
                self.stage = Stage::Initializing { pending: false, ticks: 0 };
                true
            },
            _ => false,
        }
    }

    /// A tick of the retry timer, with what the host window reports and the
    /// text in the address bar.
    pub fn on_retry_tick(&mut self, width: u32, height: u32, scale: Scale, address: &str) -> (action:
        RetryAction)
        ensures
            final(self)@ == old(self)@.tick(old(self).config().metrics(width, height, scale)),
            final(self)@.consistent(),
            final(self).config() == old(self).config(),
            final(self).surface() == old(self).surface(),
            action.kind() == old(self)@.tick_kind(old(self).config().metrics(width, height, scale)),
            action matches RetryAction::Create(request) ==> {
                &&& request.target@ == canonical_with(
                    start_address(address@, old(self).config().default_address@),
                    old(self).config().search_prefix@,
                )
                &&& request.bounds == old(self).config().metrics(
                    width,
                    height,
                    scale,
                ).surface_bounds()
                &&& request.address is Some <==> is_blank(address@)
                &&& request.address matches Some(shown) ==> shown@ == request.target@
            },
    {
        proof {
            use_type_invariant(&*self);
        }
        let metrics = self.config.metrics(width, height, scale);
        let (pending, ticks) = match self.stage {
            Stage::Initializing { pending, ticks } => (pending, ticks),
            _ => {
                return RetryAction::Stop;
            },
        };
        if ticks >= self.config.retry_limit {
            self.stage = Stage::Abandoned;
            return RetryAction::GiveUp;
        }
        if pending || metrics.is_degenerate() {
            self.stage = Stage::Initializing { pending, ticks: ticks + 1 };
            return RetryAction::Wait;
        }
        let bounds = match metrics.bounds() {
            Some(bounds) => bounds,
            None => {
                return RetryAction::Wait;
            },
        };
        let blank = trimmed(address).is_empty();
        proof {
            lemma_trim_empty_iff_blank(address@);
        }
        let target = if blank {
            canonicalize_with(self.config.default_address.as_str(), self.config.search_prefix.as_str())
        } else {
            canonicalize_with(address, self.config.search_prefix.as_str())
        };
        let shown = if blank {
            Some(target.clone())
        } else {
            None
        };
        self.stage = Stage::Initializing { pending: true, ticks: ticks + 1 };
        RetryAction::Create(CreationRequest { target, bounds, address: shown })
    }

    /// The outcome of the creation attempt that the last `Create` asked for.
    /// A surface that comes with it is taken if the attempt was awaited, and
    /// dropped if not.
    pub fn on_creation_result(&mut self, outcome: CreationOutcome<S>) -> (action: OutcomeAction)
        ensures
            final(self)@ == old(self)@.outcome(outcome.kind()),
            final(self)@.consistent(),
            final(self).config() == old(self).config(),
            action == old(self)@.outcome_action(outcome.kind()),
            action == OutcomeAction::Adopt ==> (outcome matches CreationOutcome::Created(surface)
                && final(self).surface() == Some(&surface)),
            action != OutcomeAction::Adopt ==> final(self).surface() == old(self).surface(),
    {
        proof {
            use_type_invariant(&*self);
        }
        let ticks = match self.stage {
            Stage::Initializing { pending: true, ticks } => ticks,
            _ => {
                return OutcomeAction::Ignore;
            },
        };
        match outcome {
            CreationOutcome::Created(surface) => {
                self.stage = Stage::Ready(surface);
                OutcomeAction::Adopt
            },
            CreationOutcome::NotYetReady => {
                self.stage = Stage::Initializing { pending: false, ticks };
                OutcomeAction::Retry
            },
            CreationOutcome::Fatal => {
                self.stage = Stage::Abandoned;
                OutcomeAction::Abandon
            },
        }
    }

    /// A tick of the geometry timer: the bounds to give the surface, if it
    /// exists and the scale factor is a positive number.
    pub fn on_sync_tick(&self, width: u32, height: u32, scale: Scale) -> (bounds: Option<Bounds>)
        ensures
            bounds == if self@.phase == Phase::Ready && scale.is_valid() {
                Some(self.config().metrics(width, height, scale).surface_bounds())
            } else {
                None
            },
    {
        match self.stage {
            Stage::Ready(_) => self.config.metrics(width, height, scale).bounds(),
            _ => None,
        }
    }
}

/// The events of a retry round that ends without a surface: the tick and,
/// where the metrics allowed an attempt, the outcome that the host's handle
/// is not valid yet.
pub open spec fn failed_round(metrics: HostWindowMetrics) -> Seq<Event> {
    if metrics.is_degenerate() {
        seq![Event::RetryTick(metrics)]
    } else {
        seq![Event::RetryTick(metrics), Event::CreationResult(OutcomeKind::NotYetReady)]
    }
}

/// The events of a run of retry rounds that all end without a surface.
pub open spec fn failed_rounds(readings: Seq<HostWindowMetrics>) -> Seq<Event>
    decreases readings.len(),
{
    if readings.len() == 0 {
        Seq::empty()
    } else {
        failed_rounds(readings.drop_last()) + failed_round(readings.last())
    }
}

/// The events of a retry round in which the surface is created.
pub open spec fn successful_round(metrics: HostWindowMetrics) -> Seq<Event> {
    seq![Event::RetryTick(metrics), Event::CreationResult(OutcomeKind::Created)]
}

/// Running two sequences of events in a row is running the first and then
/// the second, and the adoptions add up.
pub proof fn lemma_run_concat(s: LifecycleState, first: Seq<Event>, second: Seq<Event>)
    ensures
        s.run(first + second) == s.run(first).run(second),
        s.adoptions(first + second) == s.adoptions(first) + s.run(first).adoptions(second),
    decreases first.len(),
{
    if first.len() == 0 {
        assert(first + second =~= second);
    } else {
        assert((first + second).first() == first.first());
        assert((first + second).drop_first() =~= first.drop_first() + second);
        lemma_run_concat(s.step(first.first()), first.drop_first(), second);
    }
}

/// No event takes a consistent state to one that is not.
pub proof fn lemma_run_keeps_consistent(s: LifecycleState, events: Seq<Event>)
    requires
        s.consistent(),
    ensures
        s.run(events).consistent(),
    decreases events.len(),
{
    if events.len() > 0 {
        lemma_run_keeps_consistent(s.step(events.first()), events.drop_first());
    }
}

/// Every state that a new coordinator reaches is consistent.
pub proof fn lemma_reachable_is_consistent(limit: nat, events: Seq<Event>)
    ensures
        LifecycleState::initial(limit).run(events).consistent(),
{
    lemma_run_keeps_consistent(LifecycleState::initial(limit), events);
}

/// While initializing, rounds that end without a surface, as long as the
/// retry limit allows them, leave the coordinator initializing, with each
/// round counted and no surface adopted.
pub proof fn lemma_failed_rounds_keep_initializing(
    s: LifecycleState,
    readings: Seq<HostWindowMetrics>,
)
    requires
        s.phase == Phase::Initializing,
        !s.pending,
        s.ticks + readings.len() <= s.limit,
    ensures
        s.run(failed_rounds(readings)) == (LifecycleState {
            ticks: s.ticks + readings.len(),
            ..s
        }),
        s.adoptions(failed_rounds(readings)) == 0,
    decreases readings.len(),
{
    if readings.len() > 0 {
        let earlier = readings.drop_last();
        let metrics = readings.last();
        lemma_failed_rounds_keep_initializing(s, earlier);
        lemma_run_concat(s, failed_rounds(earlier), failed_round(metrics));
        let before = s.run(failed_rounds(earlier));
        let round = failed_round(metrics);
        reveal_with_fuel(LifecycleState::run, 3);
        reveal_with_fuel(LifecycleState::adoptions, 3);
        if metrics.is_degenerate() {
            assert(round.drop_first() =~= Seq::<Event>::empty());
        } else {
            assert(round.drop_first() =~= seq![
                Event::CreationResult(OutcomeKind::NotYetReady),
            ]);
            assert(round.drop_first().drop_first() =~= Seq::<Event>::empty());
        }
    }
}

/// While initializing, the first round with metrics that are not
/// degenerate and a valid handle, after any rounds that ended without a
/// surface and within the retry limit, creates the surface: its tick asks
/// for the attempt, its outcome is adopted, and the coordinator is ready.
pub proof fn lemma_first_successful_round_creates(
    s: LifecycleState,
    readings: Seq<HostWindowMetrics>,
    metrics: HostWindowMetrics,
)
    requires
        s.phase == Phase::Initializing,
        !s.pending,
        s.ticks + readings.len() < s.limit,
        !metrics.is_degenerate(),
    ensures
        ({
            let before = s.run(failed_rounds(readings));
            &&& before.attempts(Event::RetryTick(metrics))
            &&& before.tick(metrics).adopts(Event::CreationResult(OutcomeKind::Created))
            &&& before.run(successful_round(metrics)).phase == Phase::Ready
            &&& s.adoptions(failed_rounds(readings) + successful_round(metrics)) == 1
        }),
{
    lemma_failed_rounds_keep_initializing(s, readings);
    lemma_run_concat(s, failed_rounds(readings), successful_round(metrics));
    let round = successful_round(metrics);
    reveal_with_fuel(LifecycleState::run, 3);
    reveal_with_fuel(LifecycleState::adoptions, 3);
    assert(round.drop_first() =~= seq![Event::CreationResult(OutcomeKind::Created)]);
    assert(round.drop_first().drop_first() =~= Seq::<Event>::empty());
}

/// Once the coordinator is ready it stays as it is: no event changes its
/// state, asks for a creation attempt, or adopts a surface.
pub proof fn lemma_ready_is_final(s: LifecycleState, events: Seq<Event>)
    requires
        s.phase == Phase::Ready,
    ensures
        s.run(events) == s,
        s.adoptions(events) == 0,
        forall|event: Event| s.step(event) == s && !s.attempts(event) && !s.adopts(event),
    decreases events.len(),
{
    if events.len() > 0 {
        lemma_ready_is_final(s, events.drop_first());
    }
}

/// Whatever happens, a surface is adopted at most once.
pub proof fn lemma_at_most_one_adoption(s: LifecycleState, events: Seq<Event>)
    ensures
        s.adoptions(events) <= 1,
    decreases events.len(),
{
    if events.len() > 0 {
        let next = s.step(events.first());
        if s.adopts(events.first()) {
            lemma_ready_is_final(next, events.drop_first());
        } else {
            lemma_at_most_one_adoption(next, events.drop_first());
        }
    }
}

} // verus!
