use vstd::prelude::*;

use crate::credential::{Credential, CredentialModel};

verus! {

/// Shortest pause between two checks of the access token, in seconds.
pub const RENEWAL_FLOOR: u64 = 10;

/// The pause before the next check: the time left until the access token
/// expires, or the floor when none is left, so that an expired token or a
/// skewed clock cannot make the loop spin.
pub open spec fn delay_until(expiry: u64, now: u64) -> u64 {
    if expiry > now {
        (expiry - now) as u64
    } else {
        RENEWAL_FLOOR
    }
}

/// Computes `delay_until(expiry, now)`.
pub fn next_delay(expiry: u64, now: u64) -> (d: u64)
    ensures
        d == delay_until(expiry, now),
        d > 0,
{
    if expiry > now {
        expiry - now
    } else {
        RENEWAL_FLOOR
    }
}

#[derive(Debug, Clone, Copy, PartialEq, Eq, Structural)]
pub enum Phase {
    /// Sleeping until the next scheduled check.
    Waiting,
    /// Exchanging the refresh token and persisting the result.
    Renewing,
}

/// What the outside world reports to the loop.
#[derive(Debug)]
pub enum Event {
    /// The scheduled pause has elapsed; `now` is the current time.
    Timer { now: u64 },
    /// The token endpoint answered with a new credential.
    Renewed { credential: Credential, now: u64 },
    /// The exchange failed or timed out.
    RenewalFailed { now: u64 },
}

/// What the loop asks the outside world to do next.
#[derive(Debug)]
pub enum Action {
    /// Sleep for `delay` seconds, then report `Event::Timer`.
    Sleep { delay: u64 },
    /// Exchange `refresh_token` at the token endpoint, then report the outcome.
    Renew { refresh_token: String },
    /// Save `credential` to the store and rebuild the provider in service
    /// from it (through `rotation::finish_rotation`, so that a failed rebuild
    /// leaves the provider as it was), then sleep for `delay` seconds. A
    /// failed save is reported and otherwise ignored: the credential held in
    /// memory stays authoritative.
    Persist { credential: Credential, delay: u64 },
}

/// An event as plain values.
pub enum EventModel {
    Timer(u64),
    Renewed(CredentialModel, u64),
    RenewalFailed(u64),
}

/// An action as plain values.
pub enum ActionModel {
    Sleep(u64),
    Renew(Seq<char>),
    Persist(CredentialModel, u64),
}

impl View for Event {
    type V = EventModel;

    open spec fn view(&self) -> EventModel {
        match self {
            Event::Timer { now } => EventModel::Timer(*now),
            Event::Renewed { credential, now } => EventModel::Renewed(credential@, *now),
            Event::RenewalFailed { now } => EventModel::RenewalFailed(*now),
        }
    }
}

impl View for Action {
    type V = ActionModel;

    open spec fn view(&self) -> ActionModel {
        match self {
            Action::Sleep { delay } => ActionModel::Sleep(*delay),
            Action::Renew { refresh_token } => ActionModel::Renew(refresh_token@),
            Action::Persist { credential, delay } => ActionModel::Persist(credential@, *delay),
        }
    }
}

/// The state of the loop: its phase, the credential in use, the number of
/// renewals in a row that failed, and whether the credential was replaced
/// while a renewal was under way (its outcome is then discarded).
pub struct LoopModel {
    pub phase: Phase,
    pub credential: CredentialModel,
    pub failures: u64,
    pub superseded: bool,
}

/// One more failure in the count, which stops at the largest `u64`.
pub open spec fn bump(n: u64) -> u64 {
    if n < u64::MAX {
        (n + 1) as u64
    } else {
        n
    }
}

/// One transition of the loop.
pub open spec fn step_model(s: LoopModel, e: EventModel) -> (LoopModel, ActionModel) {
    let held = s.credential.access_token_expiry;
    match e {
        EventModel::Timer(now) => if s.phase == Phase::Renewing {
            (s, ActionModel::Renew(s.credential.refresh_token))
        } else if s.credential.is_expired(now) {
            (
                LoopModel { phase: Phase::Renewing, superseded: false, ..s },
                ActionModel::Renew(s.credential.refresh_token),
            )
        } else {
            (s, ActionModel::Sleep(delay_until(held, now)))
        },
        EventModel::Renewed(c, now) => if s.phase == Phase::Waiting {
            (s, ActionModel::Sleep(delay_until(held, now)))
        } else if s.superseded {
            (
                LoopModel { phase: Phase::Waiting, superseded: false, ..s },
                ActionModel::Sleep(delay_until(held, now)),
            )
        } else if c.is_valid() {
            (
                LoopModel { phase: Phase::Waiting, credential: c, failures: 0, superseded: false },
                ActionModel::Persist(c, delay_until(c.access_token_expiry, now)),
            )
        } else {
            (
                LoopModel { phase: Phase::Waiting, failures: bump(s.failures), ..s },
                ActionModel::Sleep(delay_until(held, now)),
            )
        },
        EventModel::RenewalFailed(now) => if s.phase == Phase::Waiting {
            (s, ActionModel::Sleep(delay_until(held, now)))
        } else if s.superseded {
            (
                LoopModel { phase: Phase::Waiting, superseded: false, ..s },
                ActionModel::Sleep(delay_until(held, now)),
            )
        } else {
            (
                LoopModel { phase: Phase::Waiting, failures: bump(s.failures), ..s },
                ActionModel::Sleep(delay_until(held, now)),
            )
        },
    }
}

/// The background renewal of the drive credential, as a state machine: the
/// caller performs each action it returns and reports the outcome as the
/// next event. It never stops; a failed renewal only schedules another check.
pub struct RenewalLoop {
    phase: Phase,
    credential: Credential,
    failures: u64,
    superseded: bool,
}

impl View for RenewalLoop {
    type V = LoopModel;

    closed spec fn view(&self) -> LoopModel {
        LoopModel {
            phase: self.phase,
            credential: self.credential@,
            failures: self.failures,
            superseded: self.superseded,
        }
    }
}

impl RenewalLoop {
    /// A loop waiting for its first check, with `credential` in use.
    pub fn new(credential: Credential) -> (l: RenewalLoop)
        ensures
            l@ == (LoopModel {
                phase: Phase::Waiting,
                credential: credential@,
                failures: 0,
                superseded: false,
            }),
    {
        RenewalLoop { phase: Phase::Waiting, credential, failures: 0, superseded: false }
    }

    pub fn phase(&self) -> (r: Phase)
        ensures
            r == self@.phase,
    {
        self.phase
    }

    /// The credential in use: the last one that was renewed or adopted.
    pub fn credential(&self) -> (r: &Credential)
        ensures
            r@ == self@.credential,
    {
        &self.credential
    }

    /// The number of renewals in a row that failed.
    pub fn failures(&self) -> (r: u64)
        ensures
            r == self@.failures,
    {
        self.failures
    }

    /// The first pause, before any check.
    pub fn first_delay(&self, now: u64) -> (d: u64)
        ensures
            d == delay_until(self@.credential.access_token_expiry, now),
    {
        next_delay(self.credential.access_token_expiry, now)
    }

    /// Puts `credential` in use, as a rotation does. A renewal that is under
    /// way was started with the old credential: its outcome is discarded.
    pub fn adopt(&mut self, credential: Credential)
        ensures
            final(self)@ == (LoopModel {
                phase: old(self)@.phase,
                credential: credential@,
                failures: 0,
                superseded: old(self)@.phase == Phase::Renewing,
            }),
    {
        self.superseded = self.phase == Phase::Renewing;
        self.credential = credential;
        self.failures = 0;
    }

    /// Takes the outcome of the last action and returns the next one.
    pub fn step(&mut self, event: Event) -> (a: Action)
        ensures
            (final(self)@, a@) == step_model(old(self)@, event@),
    {
        match event {
            Event::Timer { now } => {
                if self.phase == Phase::Renewing {
                    Action::Renew { refresh_token: self.credential.refresh_token.clone() }
                } else if self.credential.is_expired(now) {
                    self.phase = Phase::Renewing;
                    self.superseded = false;
                    Action::Renew { refresh_token: self.credential.refresh_token.clone() }
                } else {
                    Action::Sleep { delay: next_delay(self.credential.access_token_expiry, now) }
                }
            },
            Event::Renewed { credential, now } => {
                if self.phase == Phase::Waiting {
                    Action::Sleep { delay: next_delay(self.credential.access_token_expiry, now) }
                } else if self.superseded {
                    self.phase = Phase::Waiting;
                    self.superseded = false;
                    Action::Sleep { delay: next_delay(self.credential.access_token_expiry, now) }
                } else if credential.is_valid() {
                    let delay = next_delay(credential.access_token_expiry, now);
                    let saved = credential.duplicate();
                    self.phase = Phase::Waiting;
                    self.credential = credential;
                    self.failures = 0;
                    Action::Persist { credential: saved, delay }
                } else {
                    self.phase = Phase::Waiting;
                    self.failures = if self.failures < u64::MAX {
                        self.failures + 1
                    } else {
                        self.failures
                    };
                    Action::Sleep { delay: next_delay(self.credential.access_token_expiry, now) }
                }
            },
            Event::RenewalFailed { now } => {
                if self.phase == Phase::Waiting {
                    Action::Sleep { delay: next_delay(self.credential.access_token_expiry, now) }
                } else if self.superseded {
                    self.phase = Phase::Waiting;
                    self.superseded = false;
                    Action::Sleep { delay: next_delay(self.credential.access_token_expiry, now) }
                } else {
                    self.phase = Phase::Waiting;
                    self.failures = if self.failures < u64::MAX {
                        self.failures + 1
                    } else {
                        self.failures
                    };
                    Action::Sleep { delay: next_delay(self.credential.access_token_expiry, now) }
                }
            },
        }
    }
}

/// The loop driven through `events`: its final state and the actions it asked
/// for, one per event.
pub open spec fn run(s: LoopModel, events: Seq<EventModel>) -> (LoopModel, Seq<ActionModel>)
    decreases events.len(),
{
    if events.len() == 0 {
        (s, Seq::empty())
    } else {
        let (next, a) = step_model(s, events[0]);
        let (last, rest) = run(next, events.drop_first());
        (last, seq![a] + rest)
    }
}

/// Rounds in which a check starts a renewal that then fails: for each pair,
/// a timer at the first instant and a failure reported at the second.
pub open spec fn failed_rounds(times: Seq<(u64, u64)>) -> Seq<EventModel>
    decreases times.len(),
{
    if times.len() == 0 {
        Seq::empty()
    } else {
        seq![EventModel::Timer(times[0].0), EventModel::RenewalFailed(times[0].1)]
            + failed_rounds(times.drop_first())
    }
}

/// When renewal fails N times in a row, the loop asks for exactly N renewals,
/// one per check, each followed by a pause no shorter than the floor; it ends
/// waiting, with the credential it started with still in use. No failure
/// leads to a `Persist`, so the provider in service, built from the last
/// renewed credential, is never replaced on account of a failure.
///
/// Each check finds the token expired (that is when the loop starts a
/// renewal), and each failure is reported at or after the expiry.
pub proof fn lemma_failed_renewals_keep_scheduling(s: LoopModel, times: Seq<(u64, u64)>)
    requires
        s.phase == Phase::Waiting,
        forall|i: int| 0 <= i < times.len() ==> s.credential.is_expired(#[trigger] times[i].0),
        forall|i: int| 0 <= i < times.len() ==> s.credential.is_expired(#[trigger] times[i].1),
    ensures
        ({
            let (last, actions) = run(s, failed_rounds(times));
            &&& actions.len() == 2 * times.len()
            &&& forall|i: int|
                0 <= i < times.len() ==> #[trigger] actions[2 * i] == ActionModel::Renew(
                    s.credential.refresh_token,
                )
            &&& forall|i: int|
                0 <= i < times.len() ==> (#[trigger] actions[2 * i + 1]) is Sleep && actions[2 * i
                    + 1]->Sleep_0 >= RENEWAL_FLOOR
            &&& last.phase == Phase::Waiting
            &&& last.credential == s.credential
            &&& last.failures >= s.failures
            &&& s.failures + times.len() <= u64::MAX ==> last.failures == s.failures + times.len()
        }),
    decreases times.len(),
{
    if times.len() > 0 {
        let events = failed_rounds(times);
        let rest = times.drop_first();
        let later = events.drop_first();
        assert(events[0] == EventModel::Timer(times[0].0));
        assert(later[0] == EventModel::RenewalFailed(times[0].1));
        assert(later.drop_first() =~= failed_rounds(rest));
        let (s1, a1) = step_model(s, events[0]);
        let (s2, a2) = step_model(s1, later[0]);
        assert(run(s, events) == (run(s1, later).0, seq![a1] + run(s1, later).1));
        assert(run(s1, later) == (run(s2, later.drop_first()).0, seq![a2] + run(
            s2,
            later.drop_first(),
        ).1));
        assert(s.credential.is_expired(times[0].0));
        assert(s.credential.is_expired(times[0].1));
        assert forall|i: int| 0 <= i < rest.len() implies s2.credential.is_expired(
            #[trigger] rest[i].0,
        ) by {
            assert(rest[i] == times[i + 1]);
        }
        assert forall|i: int| 0 <= i < rest.len() implies s2.credential.is_expired(
            #[trigger] rest[i].1,
        ) by {
            assert(rest[i] == times[i + 1]);
        }
        lemma_failed_renewals_keep_scheduling(s2, rest);
        let (last, tail) = run(s2, failed_rounds(rest));
        let actions = run(s, events).1;
        assert(actions =~= seq![a1] + (seq![a2] + tail));
        assert forall|i: int| 0 <= i < times.len() implies #[trigger] actions[2 * i]
            == ActionModel::Renew(s.credential.refresh_token) by {
            if i > 0 {
                assert(actions[2 * i] == tail[2 * (i - 1)]);
            }
        }
        assert forall|i: int| 0 <= i < times.len() implies (#[trigger] actions[2 * i
            + 1]) is Sleep && actions[2 * i + 1]->Sleep_0 >= RENEWAL_FLOOR by {
            if i > 0 {
                assert(actions[2 * i + 1] == tail[2 * (i - 1) + 1]);
            }
        }
    }
}

} // verus!
