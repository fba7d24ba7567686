//! The connect / launch / retry protocol as a state machine, the driver that runs it, and its laws.

use vstd::prelude::*;

verus! {

/// Why a client run stops without having forwarded its request.
#[derive(Clone, Copy, Debug, PartialEq, Eq)]
pub enum Fatal {
    /// The daemon could not be launched (no home directory, no jar, or the
    /// spawn itself failed).
    LaunchFailed,
    /// The daemon exited during a liveness check, with this exit code when it
    /// has one.
    DaemonDied { code: Option<i32> },
    /// The daemon's process status could not be queried.
    StatusUnavailable,
    /// Every reconnect attempt failed.
    RetriesExhausted,
}

/// Where a client run stands.
#[derive(Clone, Copy, Debug, PartialEq, Eq)]
pub enum Phase {
    /// The first connect attempt is under way.
    FirstAttempt,
    /// The daemon is being launched.
    Launching,
    /// The liveness check right after the launch is under way.
    FirstCheck { remaining: usize },
    /// A reconnect attempt is under way.
    Retrying { remaining: usize },
    /// The liveness check after a failed reconnect is under way.
    RetryCheck { remaining: usize },
    /// The failed reconnect is being reported to the operator.
    Reporting { remaining: usize },
    /// A connection was made and the request handed over for forwarding.
    Done,
    /// The run has stopped on an error.
    Failed(Fatal),
}

/// What the outside world reports back after an action.
#[derive(Clone, Copy, Debug, PartialEq, Eq)]
pub enum Event {
    ConnectOk,
    ConnectFailed,
    Launched,
    LaunchFailed,
    /// The liveness wait ran out with the daemon still running.
    Alive,
    /// The daemon exited during the liveness wait.
    Exited { code: Option<i32> },
    /// The daemon's status could not be queried.
    StatusError,
    /// The report of a failed reconnect has been shown.
    Reported,
}

/// What the outside world is asked to do next.
#[derive(Clone, Copy, Debug, PartialEq, Eq)]
pub enum Action {
    /// Open a connection to the daemon; a retry announces its success.
    Connect { retry: bool },
    /// Launch the daemon process.
    Launch,
    /// Wait briefly for the daemon to exit; if it does not, let it settle.
    CheckLiveness,
    /// Report a failed reconnect, with the number of attempts left.
    ReportFailure { remaining: usize },
    /// Forward the request over the connection just made.
    Forward,
    /// Stop the run with this error.
    Stop(Fatal),
    /// Nothing: the event did not fit the phase, or the run is over.
    Nothing,
}

/// The phase after the previous reconnect failed and was reported: another
/// attempt while any are left, else exhaustion.
pub open spec fn after_report(remaining: usize) -> (Phase, Action) {
    if remaining > 1 {
        (Phase::Retrying { remaining: (remaining - 1) as usize }, Action::Connect { retry: true })
    } else {
        (Phase::Failed(Fatal::RetriesExhausted), Action::Stop(Fatal::RetriesExhausted))
    }
}

/// One transition of the protocol, for a run allowed `retries` reconnects.
pub open spec fn next(retries: usize, p: Phase, e: Event) -> (Phase, Action) {
    match (p, e) {
        (Phase::FirstAttempt, Event::ConnectOk) => (Phase::Done, Action::Forward),
        (Phase::FirstAttempt, Event::ConnectFailed) => (Phase::Launching, Action::Launch),
        (Phase::Launching, Event::Launched) => (
            Phase::FirstCheck { remaining: retries },
            Action::CheckLiveness,
        ),
        (Phase::Launching, Event::LaunchFailed) => (
            Phase::Failed(Fatal::LaunchFailed),
            Action::Stop(Fatal::LaunchFailed),
        ),
        (Phase::FirstCheck { remaining }, Event::Alive) => if remaining > 0 {
            (Phase::Retrying { remaining }, Action::Connect { retry: true })
        } else {
            (Phase::Failed(Fatal::RetriesExhausted), Action::Stop(Fatal::RetriesExhausted))
        },
        (Phase::Retrying { remaining }, Event::ConnectOk) => (Phase::Done, Action::Forward),
        (Phase::Retrying { remaining }, Event::ConnectFailed) => (
            Phase::RetryCheck { remaining },
            Action::CheckLiveness,
        ),
        (Phase::RetryCheck { remaining }, Event::Alive) => (
            Phase::Reporting { remaining },
            Action::ReportFailure { remaining },
        ),
        (Phase::Reporting { remaining }, Event::Reported) => after_report(remaining),
        (Phase::FirstCheck { .. }, Event::Exited { code })
        | (Phase::RetryCheck { .. }, Event::Exited { code }) => (
            Phase::Failed(Fatal::DaemonDied { code }),
            Action::Stop(Fatal::DaemonDied { code }),
        ),
        (Phase::FirstCheck { .. }, Event::StatusError)
        | (Phase::RetryCheck { .. }, Event::StatusError) => (
            Phase::Failed(Fatal::StatusUnavailable),
            Action::Stop(Fatal::StatusUnavailable),
        ),
        _ => (p, Action::Nothing),
    }
}

/// The decisions of one client run: first connect, launching the daemon on
/// failure, then a bounded number of reconnects with liveness checks.
pub struct Orchestrator {
    pub retries: usize,
    pub phase: Phase,
}

impl Orchestrator {
    /// A run allowed `retries` reconnects after the daemon is launched.
    pub fn new(retries: usize) -> (o: Orchestrator)
        ensures
            o.retries == retries,
            o.phase == Phase::FirstAttempt,
    {
        Orchestrator { retries, phase: Phase::FirstAttempt }
    }

    /// The first thing a run does: try to connect, without announcing it.
    pub fn start(&self) -> (a: Action)
        ensures
            a == (Action::Connect { retry: false }),
    {
        Action::Connect { retry: false }
    }

    /// Takes in what happened and says what to do next.
    pub fn step(&mut self, e: Event) -> (a: Action)
        ensures
            final(self).retries == old(self).retries,
            (final(self).phase, a) == next(old(self).retries, old(self).phase, e),
    {
        let (p, a) = match (self.phase, e) {
            (Phase::FirstAttempt, Event::ConnectOk) => (Phase::Done, Action::Forward),
            (Phase::FirstAttempt, Event::ConnectFailed) => (Phase::Launching, Action::Launch),
            (Phase::Launching, Event::Launched) => (
                Phase::FirstCheck { remaining: self.retries },
                Action::CheckLiveness,
            ),
            (Phase::Launching, Event::LaunchFailed) => (
                Phase::Failed(Fatal::LaunchFailed),
                Action::Stop(Fatal::LaunchFailed),
            ),
            (Phase::FirstCheck { remaining }, Event::Alive) => if remaining > 0 {
                (Phase::Retrying { remaining }, Action::Connect { retry: true })
            } else {
                (Phase::Failed(Fatal::RetriesExhausted), Action::Stop(Fatal::RetriesExhausted))
            },
            (Phase::Retrying { remaining }, Event::ConnectOk) => (Phase::Done, Action::Forward),
            (Phase::Retrying { remaining }, Event::ConnectFailed) => (
                Phase::RetryCheck { remaining },
                Action::CheckLiveness,
            ),
            (Phase::RetryCheck { remaining }, Event::Alive) => (
                Phase::Reporting { remaining },
                Action::ReportFailure { remaining },
            ),
            (Phase::Reporting { remaining }, Event::Reported) => if remaining > 1 {
                (Phase::Retrying { remaining: remaining - 1 }, Action::Connect { retry: true })
            } else {
                (Phase::Failed(Fatal::RetriesExhausted), Action::Stop(Fatal::RetriesExhausted))
            },
            (Phase::FirstCheck { .. }, Event::Exited { code })
            | (Phase::RetryCheck { .. }, Event::Exited { code }) => (
                Phase::Failed(Fatal::DaemonDied { code }),
                Action::Stop(Fatal::DaemonDied { code }),
            ),
            (Phase::FirstCheck { .. }, Event::StatusError)
            | (Phase::RetryCheck { .. }, Event::StatusError) => (
                Phase::Failed(Fatal::StatusUnavailable),
                Action::Stop(Fatal::StatusUnavailable),
            ),
            _ => (self.phase, Action::Nothing),
        };
        self.phase = p;
        a
    }
}

/// Carries out the actions of a run in the outside world (connecting,
/// launching and checking the daemon, reporting) and says what happened.
pub trait World {
    fn perform(&mut self, action: Action) -> Event;
}

/// A world together with the record of every action performed on it and
/// the event that answered it.
pub struct Logged<W: World> {
    pub inner: W,
    performed: Ghost<Seq<(Action, Event)>>,
}

impl<W: World> Logged<W> {
    /// Every action performed so far, with the event that answered it.
    pub closed spec fn log(&self) -> Seq<(Action, Event)> {
        self.performed@
    }

    /// `inner`, with nothing performed yet.
    pub fn new(inner: W) -> (l: Logged<W>)
        ensures
            l.log() == Seq::<(Action, Event)>::empty(),
    {
        Logged { inner, performed: Ghost(Seq::empty()) }
    }

    /// Performs `action` on the inner world and records its answer.
    pub fn perform(&mut self, action: Action) -> (e: Event)
        ensures
            final(self).log() == old(self).log().push((action, e)),
    {
        let e = self.inner.perform(action);
        self.performed = Ghost(self.performed@.push((action, e)));
        e
    }
}

/// The actions paired with the events that answered them.
pub open spec fn pairs(actions: Seq<Action>, events: Seq<Event>) -> Seq<(Action, Event)> {
    Seq::new(actions.len(), |i: int| (actions[i], events[i]))
}

/// The record of a run: each action performed, the event that answered it,
/// the final action left to the caller (forward, stop, or nothing when an
/// answer did not fit), and the phase reached.
pub struct Transcript {
    pub actions: Vec<Action>,
    pub events: Vec<Event>,
    pub outcome: Action,
    pub phase: Phase,
}

/// How many reconnect attempts are among `actions`.
pub open spec fn reconnect_count(actions: Seq<Action>) -> nat
    decreases actions.len(),
{
    if actions.len() == 0 {
        0
    } else {
        reconnect_count(actions.drop_last()) + if actions.last() == (Action::Connect { retry: true }) {
            1nat
        } else {
            0nat
        }
    }
}

/// Reconnect attempts made or under way in phase `p`.
spec fn attempts_made(retries: usize, p: Phase) -> int {
    match p {
        Phase::Retrying { remaining } => retries - remaining + 1,
        Phase::RetryCheck { remaining } => retries - remaining + 1,
        Phase::Reporting { remaining } => retries - remaining + 1,
        _ => 0,
    }
}

/// The bounds on the attempts left that every phase of a run keeps.
spec fn phase_in_bounds(retries: usize, p: Phase) -> bool {
    match p {
        Phase::FirstCheck { remaining } => remaining == retries,
        Phase::Retrying { remaining } => 1 <= remaining <= retries,
        Phase::RetryCheck { remaining } => 1 <= remaining <= retries,
        Phase::Reporting { remaining } => 1 <= remaining <= retries,
        _ => true,
    }
}

/// Whether an action ends the exchange with the outside world.
pub open spec fn is_final(a: Action) -> bool {
    a is Forward || a is Stop || a is Nothing
}

/// A measure that every transition other than `Nothing` lowers.
pub open spec fn rank(retries: usize, p: Phase) -> nat {
    match p {
        Phase::FirstAttempt => (3 * retries + 6) as nat,
        Phase::Launching => (3 * retries + 5) as nat,
        Phase::FirstCheck { remaining } => (3 * remaining + 4) as nat,
        Phase::Retrying { remaining } => (3 * remaining + 3) as nat,
        Phase::RetryCheck { remaining } => (3 * remaining + 2) as nat,
        Phase::Reporting { remaining } => (3 * remaining + 1) as nat,
        Phase::Done => 0,
        Phase::Failed(_) => 0,
    }
}

proof fn lemma_rank_drops(retries: usize, p: Phase, e: Event)
    requires
        !(next(retries, p, e).1 is Nothing),
    ensures
        rank(retries, next(retries, p, e).0) < rank(retries, p),
{
}

/// Runs the connect / launch / retry protocol against `world`, allowing
/// `retries` reconnects: tries to connect; if that fails, launches the
/// daemon once and checks it, then reconnects, checking the daemon and
/// reporting after each failure, until a connection is made, the daemon is
/// found dead, or the attempts run out. The transcript is exactly what was
/// performed on `world` and what it answered; every action after the first
/// is the protocol's transition for the answers so far; the daemon is
/// launched at most once, and only after the first connect failed; at most
/// `retries` reconnects are made, all of them when the run ends exhausted;
/// and a run that goes on to forwarding ends on the connect that succeeded.
pub fn send_message_retrying<W: World>(retries: usize, world: &mut Logged<W>) -> (t: Transcript)
    ensures
        t.actions@.len() == t.events@.len(),
        t.actions@.len() >= 1,
        t.actions@[0] == (Action::Connect { retry: false }),
        forall|i: int|
            1 <= i < t.actions@.len() ==> t.actions@[i] == last_action(
                retries,
                Phase::FirstAttempt,
                #[trigger] t.events@.take(i),
            ),
        forall|i: int| 0 <= i < t.actions@.len() ==> !is_final(#[trigger] t.actions@[i]),
        t.outcome == last_action(retries, Phase::FirstAttempt, t.events@),
        t.phase == phase_after(retries, Phase::FirstAttempt, t.events@),
        is_final(t.outcome),
        final(world).log() == old(world).log() + pairs(t.actions@, t.events@),
        forall|i: int|
            0 <= i < t.actions@.len() && #[trigger] t.actions@[i] == Action::Launch ==> i == 1
                && t.events@[0] == Event::ConnectFailed,
        reconnect_count(t.actions@) <= retries,
        t.outcome == Action::Stop(Fatal::RetriesExhausted) ==> reconnect_count(t.actions@)
            == retries,
        t.outcome == Action::Forward ==> t.events@.last() == Event::ConnectOk
            && t.actions@.last() is Connect,
{
    let mut o = Orchestrator::new(retries);
    let mut actions: Vec<Action> = Vec::new();
    let mut events: Vec<Event> = Vec::new();
    let mut a = o.start();
    loop
        invariant
            o.retries == retries,
            actions@.len() == events@.len(),
            o.phase == phase_after(retries, Phase::FirstAttempt, events@),
            !is_final(a),
            actions@.len() == 0 ==> a == (Action::Connect { retry: false }),
            actions@.len() > 0 ==> actions@[0] == (Action::Connect { retry: false }),
            actions@.len() > 0 ==> a == last_action(retries, Phase::FirstAttempt, events@),
            forall|i: int|
                1 <= i < actions@.len() ==> actions@[i] == last_action(
                    retries,
                    Phase::FirstAttempt,
                    #[trigger] events@.take(i),
                ),
            forall|i: int| 0 <= i < actions@.len() ==> !is_final(#[trigger] actions@[i]),
            world.log() == old(world).log() + pairs(actions@, events@),
            actions@.len() >= 1 ==> o.phase != Phase::FirstAttempt,
            actions@.len() >= 1 ==> events@[0] == Event::ConnectFailed,
            a == Action::Launch ==> actions@.len() == 1,
            forall|i: int|
                0 <= i < actions@.len() && #[trigger] actions@[i] == Action::Launch ==> i == 1,
            phase_in_bounds(retries, o.phase),
            reconnect_count(actions@) + (if a == (Action::Connect { retry: true }) {
                1int
            } else {
                0int
            }) == attempts_made(retries, o.phase),
        decreases rank(retries, o.phase),
    {
        let e = world.perform(a);
        let ghost prev = events@;
        let ghost p0 = o.phase;
        let ghost prev_actions = actions@;
        actions.push(a);
        events.push(e);
        let next_a = o.step(e);
        proof {
            lemma_push(retries, Phase::FirstAttempt, prev, e);
            assert(events@.drop_last() =~= prev);
            assert forall|i: int| 1 <= i < actions@.len() implies actions@[i] == last_action(
                retries,
                Phase::FirstAttempt,
                #[trigger] events@.take(i),
            ) by {
                if i < prev.len() {
                    assert(events@.take(i) =~= prev.take(i));
                } else {
                    assert(events@.take(i) =~= prev);
                }
            }
            if !(next_a is Nothing) {
                lemma_rank_drops(retries, p0, e);
            }
            assert(pairs(actions@, events@) =~= pairs(prev_actions, prev).push((a, e)));
            assert(actions@.drop_last() =~= prev_actions);
            assert(old(world).log() + pairs(actions@, events@) =~= old(world).log() + pairs(
                prev_actions,
                prev,
            ).push((a, e)));
        }
        if matches!(next_a, Action::Forward) || matches!(next_a, Action::Stop(_)) || matches!(next_a, Action::Nothing) {
            return Transcript { actions, events, outcome: next_a, phase: o.phase };
        }
        a = next_a;
    }
}

/// The phase reached from `p` after the events `evs`, in order.
pub open spec fn phase_after(retries: usize, p: Phase, evs: Seq<Event>) -> Phase
    decreases evs.len(),
{
    if evs.len() == 0 {
        p
    } else {
        next(retries, phase_after(retries, p, evs.drop_last()), evs.last()).0
    }
}

/// The action that answers the last of `evs`, starting from `p`.
pub open spec fn last_action(retries: usize, p: Phase, evs: Seq<Event>) -> Action
    recommends
        evs.len() > 0,
{
    next(retries, phase_after(retries, p, evs.drop_last()), evs.last()).1
}

/// How many times the daemon is launched while `evs` are taken in from `p`.
pub open spec fn launches(retries: usize, p: Phase, evs: Seq<Event>) -> nat
    decreases evs.len(),
{
    if evs.len() == 0 {
        0
    } else {
        launches(retries, p, evs.drop_last()) + if last_action(retries, p, evs) == Action::Launch {
            1nat
        } else {
            0nat
        }
    }
}

/// How many reconnect attempts are made while `evs` are taken in from `p`.
pub open spec fn reconnects(retries: usize, p: Phase, evs: Seq<Event>) -> nat
    decreases evs.len(),
{
    if evs.len() == 0 {
        0
    } else {
        reconnects(retries, p, evs.drop_last()) + if last_action(retries, p, evs) == (Action::Connect { retry: true }) {
            1nat
        } else {
            0nat
        }
    }
}

/// The events of a run whose first connect fails, whose daemon launches and
/// stays alive, and whose first `failed` reconnects all fail with the daemon
/// still alive.
pub open spec fn failing_run(failed: nat) -> Seq<Event>
    decreases failed,
{
    if failed == 0 {
        seq![Event::ConnectFailed, Event::Launched, Event::Alive]
    } else {
        failing_run((failed - 1) as nat).push(Event::ConnectFailed).push(Event::Alive).push(
            Event::Reported,
        )
    }
}

proof fn lemma_push(retries: usize, p: Phase, evs: Seq<Event>, e: Event)
    ensures
        phase_after(retries, p, evs.push(e)) == next(retries, phase_after(retries, p, evs), e).0,
        last_action(retries, p, evs.push(e)) == next(retries, phase_after(retries, p, evs), e).1,
        launches(retries, p, evs.push(e)) == launches(retries, p, evs) + if next(
            retries,
            phase_after(retries, p, evs),
            e,
        ).1 == Action::Launch {
            1nat
        } else {
            0nat
        },
        reconnects(retries, p, evs.push(e)) == reconnects(retries, p, evs) + if next(
            retries,
            phase_after(retries, p, evs),
            e,
        ).1 == (Action::Connect { retry: true }) {
            1nat
        } else {
            0nat
        },
{
    assert(evs.push(e).drop_last() =~= evs);
}

/// Whatever happens during a run, the daemon is launched at most once; and
/// not at all while the run is still at its first connect attempt.
pub proof fn lemma_launched_at_most_once(retries: usize, evs: Seq<Event>)
    ensures
        launches(retries, Phase::FirstAttempt, evs) <= 1,
        phase_after(retries, Phase::FirstAttempt, evs) == Phase::FirstAttempt ==> launches(
            retries,
            Phase::FirstAttempt,
            evs,
        ) == 0,
    decreases evs.len(),
{
    if evs.len() > 0 {
        let prev = evs.drop_last();
        lemma_launched_at_most_once(retries, prev);
        lemma_push(retries, Phase::FirstAttempt, prev, evs.last());
        assert(prev.push(evs.last()) =~= evs);
    }
}

proof fn lemma_failing_run(retries: usize, failed: nat)
    requires
        failed <= retries,
    ensures
        failed < retries ==> phase_after(retries, Phase::FirstAttempt, failing_run(failed))
            == (Phase::Retrying { remaining: (retries - failed) as usize }),
        failed < retries ==> reconnects(retries, Phase::FirstAttempt, failing_run(failed)) == failed
            + 1,
        failed == retries ==> phase_after(retries, Phase::FirstAttempt, failing_run(failed))
            == Phase::Failed(Fatal::RetriesExhausted),
        failed == retries ==> reconnects(retries, Phase::FirstAttempt, failing_run(failed))
            == failed,
    decreases failed,
{
    let p = Phase::FirstAttempt;
    if failed == 0 {
        let e0 = Seq::<Event>::empty();
        let e1 = e0.push(Event::ConnectFailed);
        let e2 = e1.push(Event::Launched);
        let e3 = e2.push(Event::Alive);
        assert(e3 =~= failing_run(0));
        lemma_push(retries, p, e0, Event::ConnectFailed);
        lemma_push(retries, p, e1, Event::Launched);
        lemma_push(retries, p, e2, Event::Alive);
    } else {
        let prev = failing_run((failed - 1) as nat);
        lemma_failing_run(retries, (failed - 1) as nat);
        let e1 = prev.push(Event::ConnectFailed);
        let e2 = e1.push(Event::Alive);
        lemma_push(retries, p, prev, Event::ConnectFailed);
        lemma_push(retries, p, e1, Event::Alive);
        lemma_push(retries, p, e2, Event::Reported);
    }
}

/// With `retries` reconnects allowed, a run in which every reconnect fails
/// keeps going while attempts are left, and stops on exhaustion after exactly
/// `retries` reconnect attempts.
pub proof fn lemma_exhaustion_after_all_retries(retries: usize, failed: nat)
    requires
        failed <= retries,
    ensures
        failed < retries ==> phase_after(retries, Phase::FirstAttempt, failing_run(failed))
            is Retrying,
        phase_after(retries, Phase::FirstAttempt, failing_run(retries as nat)) == Phase::Failed(
            Fatal::RetriesExhausted,
        ),
        reconnects(retries, Phase::FirstAttempt, failing_run(retries as nat)) == retries,
{
    lemma_failing_run(retries, failed);
    lemma_failing_run(retries, retries as nat);
}

/// With `retries` reconnects allowed, a reconnect that succeeds on attempt
/// `k <= retries` hands the request over for forwarding after exactly `k`
/// attempts, and the run is then over: no later event leads to any action.
pub proof fn lemma_success_ends_retrying(retries: usize, k: nat, e: Event)
    requires
        1 <= k <= retries,
    ensures
        last_action(
            retries,
            Phase::FirstAttempt,
            failing_run((k - 1) as nat).push(Event::ConnectOk),
        ) == Action::Forward,
        phase_after(retries, Phase::FirstAttempt, failing_run((k - 1) as nat).push(Event::ConnectOk))
            == Phase::Done,
        reconnects(retries, Phase::FirstAttempt, failing_run((k - 1) as nat).push(Event::ConnectOk))
            == k,
        next(retries, Phase::Done, e) == (Phase::Done, Action::Nothing),
{
    lemma_failing_run(retries, (k - 1) as nat);
    lemma_push(retries, Phase::FirstAttempt, failing_run((k - 1) as nat), Event::ConnectOk);
}

/// A daemon found dead at a liveness check stops the run with its exit code,
/// and a stopped run takes no further action, retries included.
pub proof fn lemma_death_is_final(retries: usize, remaining: usize, code: Option<i32>, e: Event)
    ensures
        next(retries, Phase::FirstCheck { remaining }, Event::Exited { code }) == (
            Phase::Failed(Fatal::DaemonDied { code }),
            Action::Stop(Fatal::DaemonDied { code }),
        ),
        next(retries, Phase::RetryCheck { remaining }, Event::Exited { code }) == (
            Phase::Failed(Fatal::DaemonDied { code }),
            Action::Stop(Fatal::DaemonDied { code }),
        ),
        next(retries, Phase::Failed(Fatal::DaemonDied { code }), e) == (
            Phase::Failed(Fatal::DaemonDied { code }),
            Action::Nothing,
        ),
{
}

} // verus!
