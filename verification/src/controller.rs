//! The connection controller: an enumerated state machine driven by a
//! pure transition function, and the connection sequence that runs it
//! against a credential store and a network interface, retrying the
//! connection poll up to a fixed budget.
use vstd::prelude::*;

use crate::WifiError;
use crate::credentials::Credentials;
use crate::radio::AuthMode;
use crate::radio::SimRadio;
use crate::radio::poll_at;
use crate::radio::same_config;
use crate::radio::same_script;
use crate::store::NvStore;
use crate::store::load;
use crate::store::load_spec;

verus! {

/// The polling retry budget: the connection sequence gives up after
/// this many unsuccessful "is connected" polls.
pub const MAX_RETRIES: u32 = 5;

/// After this many unsuccessful polls, each further unsuccessful poll
/// is followed by an explicit disconnect-and-reconnect cycle to clear
/// stuck radio state.
pub const RECONNECT_AFTER: u32 = 2;

/// The states of the connection sequence.
#[derive(Clone, Copy, PartialEq, Eq, Debug, Structural)]
pub enum Phase {
    /// Nothing has happened yet.
    Idle,
    /// The client configuration is being applied.
    Configuring,
    /// The interface is being started.
    Starting,
    /// A connect request is out and the link is being polled.
    Connecting,
    /// The final poll confirmed the link; terminal.
    Connected,
    /// The sequence gave up with the carried error; terminal.
    Failed(WifiError),
}

/// What the outside world reports back to the controller.
#[derive(Clone, Copy, PartialEq, Eq, Debug, Structural)]
pub enum Event {
    /// The connection sequence is entered.
    Begin,
    /// The radio call the controller last asked for was accepted.
    RadioOk,
    /// The radio call the controller last asked for was rejected.
    RadioErr,
    /// An "is connected" poll came back with this answer.
    Polled(bool),
}

/// What the controller asks the outside world to do next.
#[derive(Clone, Copy, PartialEq, Eq, Debug, Structural)]
pub enum Action {
    /// Apply the client configuration, resetting the interface first.
    Configure,
    /// Start the interface.
    Start,
    /// Issue the initial connect request.
    IssueConnect,
    /// Wait out the poll interval, then poll whether the link is up.
    AwaitPoll,
    /// Issue one disconnect-and-reconnect cycle, then report how its
    /// connect request fared.
    Reconnect,
    /// The sequence is over; there is nothing left to do.
    Halt,
}

/// The connection controller: its phase and the attempt counter, which
/// counts the unsuccessful polls of the current sequence.
#[derive(Clone, Copy, PartialEq, Eq, Debug, Structural)]
pub struct Controller {
    pub phase: Phase,
    pub attempts: u32,
}

/// The pure transition function: from a state and an event to the next
/// state and the action the driver must perform. Events a state does
/// not solicit leave it unchanged and ask for nothing.
pub open spec fn step_spec(c: Controller, ev: Event) -> (Controller, Action) {
    match (c.phase, ev) {
        (Phase::Idle, Event::Begin) => (
            Controller { phase: Phase::Configuring, ..c },
            Action::Configure,
        ),
        (Phase::Configuring, Event::RadioOk) => (
            Controller { phase: Phase::Starting, ..c },
            Action::Start,
        ),
        (Phase::Configuring, Event::RadioErr) => (
            Controller { phase: Phase::Failed(WifiError::RadioConfigFault), ..c },
            Action::Halt,
        ),
        (Phase::Starting, Event::RadioOk) => (
            Controller { phase: Phase::Connecting, attempts: 0 },
            Action::IssueConnect,
        ),
        (Phase::Starting, Event::RadioErr) => (
            Controller { phase: Phase::Failed(WifiError::RadioConfigFault), ..c },
            Action::Halt,
        ),
        (Phase::Connecting, Event::RadioOk) => (c, Action::AwaitPoll),
        (Phase::Connecting, Event::RadioErr) => (
            Controller { phase: Phase::Failed(WifiError::RadioConfigFault), ..c },
            Action::Halt,
        ),
        (Phase::Connecting, Event::Polled(up)) => if up {
            (Controller { phase: Phase::Connected, ..c }, Action::Halt)
        } else if c.attempts + 1 >= MAX_RETRIES {
            (
                Controller {
                    phase: Phase::Failed(WifiError::ConnectionTimeout(MAX_RETRIES)),
                    attempts: MAX_RETRIES,
                },
                Action::Halt,
            )
        } else if c.attempts + 1 >= RECONNECT_AFTER {
            (
                Controller { phase: Phase::Connecting, attempts: (c.attempts + 1) as u32 },
                Action::Reconnect,
            )
        } else {
            (
                Controller { phase: Phase::Connecting, attempts: (c.attempts + 1) as u32 },
                Action::AwaitPoll,
            )
        },
        _ => (c, Action::Halt),
    }
}

impl Controller {
    /// The attempt counter never passes the budget, and a controller
    /// still polling has budget left.
    pub open spec fn wf(&self) -> bool {
        self.attempts <= MAX_RETRIES && (self.phase is Connecting ==> self.attempts < MAX_RETRIES)
    }

    /// A controller at the start of a connection sequence.
    pub fn new() -> (c: Controller)
        ensures
            c.phase is Idle,
            c.attempts == 0,
            c.wf(),
    {
        Controller { phase: Phase::Idle, attempts: 0 }
    }

    /// The boolean "connected" query used by the status reporter.
    pub fn is_connected(&self) -> (r: bool)
        ensures
            r == (self.phase is Connected),
    {
        matches!(self.phase, Phase::Connected)
    }

    /// Feeds one event to the controller; the executable twin of
    /// [`step_spec`].
    pub fn step(&mut self, ev: Event) -> (a: Action)
        requires
            old(self).wf(),
        ensures
            (*final(self), a) == step_spec(*old(self), ev),
            final(self).wf(),
    {
        match (self.phase, ev) {
            (Phase::Idle, Event::Begin) => {
                self.phase = Phase::Configuring;
                Action::Configure
            },
            (Phase::Configuring, Event::RadioOk) => {
                self.phase = Phase::Starting;
                Action::Start
            },
            (Phase::Configuring, Event::RadioErr) => {
                self.phase = Phase::Failed(WifiError::RadioConfigFault);
                Action::Halt
            },
            (Phase::Starting, Event::RadioOk) => {
                self.phase = Phase::Connecting;
                self.attempts = 0;
                Action::IssueConnect
            },
            (Phase::Starting, Event::RadioErr) => {
                self.phase = Phase::Failed(WifiError::RadioConfigFault);
                Action::Halt
            },
            (Phase::Connecting, Event::RadioOk) => Action::AwaitPoll,
            (Phase::Connecting, Event::RadioErr) => {
                self.phase = Phase::Failed(WifiError::RadioConfigFault);
                Action::Halt
            },
            (Phase::Connecting, Event::Polled(up)) => {
                if up {
                    self.phase = Phase::Connected;
                    Action::Halt
                } else if self.attempts + 1 >= MAX_RETRIES {
                    self.phase = Phase::Failed(WifiError::ConnectionTimeout(MAX_RETRIES));
                    self.attempts = MAX_RETRIES;
                    Action::Halt
                } else if self.attempts + 1 >= RECONNECT_AFTER {
                    self.attempts = self.attempts + 1;
                    Action::Reconnect
                } else {
                    self.attempts = self.attempts + 1;
                    Action::AwaitPoll
                }
            },
            _ => Action::Halt,
        }
    }
}

/// One polling cycle of a closed loop against an interface that accepts
/// every call: the poll answer is fed in, and when the controller asks
/// for a reconnect cycle, its accepted connect request is fed straight
/// back.
pub open spec fn sim_poll(c: Controller, up: bool) -> Controller {
    let (c1, a) = step_spec(c, Event::Polled(up));
    if a is Reconnect {
        step_spec(c1, Event::RadioOk).0
    } else {
        c1
    }
}

/// A closed polling loop over a whole script of poll answers.
pub open spec fn sim_polls(c: Controller, polls: Seq<bool>) -> Controller
    decreases polls.len(),
{
    if polls.len() == 0 {
        c
    } else {
        sim_polls(sim_poll(c, polls[0]), polls.subrange(1, polls.len() as int))
    }
}

/// Unsuccessful polls advance the attempt counter one by one, and the
/// poll that exhausts the budget fails the sequence with
/// `ConnectionTimeout`.
pub proof fn lemma_unsuccessful_polls_count(c: Controller, polls: Seq<bool>)
    requires
        c.phase is Connecting,
        c.attempts < MAX_RETRIES,
        c.attempts + polls.len() <= MAX_RETRIES,
        forall|i: int| 0 <= i < polls.len() ==> !polls[i],
    ensures
        c.attempts + polls.len() < MAX_RETRIES ==> sim_polls(c, polls) == (Controller {
            phase: Phase::Connecting,
            attempts: (c.attempts + polls.len()) as u32,
        }),
        c.attempts + polls.len() == MAX_RETRIES ==> sim_polls(c, polls) == (Controller {
            phase: Phase::Failed(WifiError::ConnectionTimeout(MAX_RETRIES)),
            attempts: MAX_RETRIES,
        }),
    decreases polls.len(),
{
    if polls.len() > 0 {
        let c1 = sim_poll(c, polls[0]);
        let rest = polls.subrange(1, polls.len() as int);
        assert(forall|i: int| 0 <= i < rest.len() ==> !rest[i]);
        if c.attempts + 1 == MAX_RETRIES {
            assert(rest.len() == 0);
        } else {
            lemma_unsuccessful_polls_count(c1, rest);
        }
    }
}

/// Termination law: against an interface that never reports a link,
/// the sequence makes exactly `MAX_RETRIES` polls — any shorter run is
/// still polling, and the full run has failed with `ConnectionTimeout`
/// and, being terminal, never polls again.
pub proof fn lemma_never_connected_times_out(c: Controller, polls: Seq<bool>)
    requires
        c.phase is Connecting,
        c.attempts == 0,
        polls.len() == MAX_RETRIES,
        forall|i: int| 0 <= i < polls.len() ==> !polls[i],
    ensures
        sim_polls(c, polls) == (Controller {
            phase: Phase::Failed(WifiError::ConnectionTimeout(MAX_RETRIES)),
            attempts: MAX_RETRIES,
        }),
        forall|k: int|
            0 <= k < MAX_RETRIES ==> #[trigger] sim_polls(c, polls.subrange(0, k)).phase
                is Connecting,
        forall|ev: Event| #[trigger] step_spec(sim_polls(c, polls), ev) == (
            sim_polls(c, polls),
            Action::Halt,
        ),
{
    lemma_unsuccessful_polls_count(c, polls);
    assert forall|k: int| 0 <= k < MAX_RETRIES implies #[trigger] sim_polls(
        c,
        polls.subrange(0, k),
    ).phase is Connecting by {
        let prefix = polls.subrange(0, k);
        lemma_unsuccessful_polls_count(c, prefix);
    }
}

/// Terminal states absorb: once connected or failed, every event leaves
/// the controller unchanged and asks for nothing further.
pub proof fn lemma_terminal_phases_absorb(c: Controller, ev: Event)
    requires
        c.phase is Connected || c.phase is Failed,
    ensures
        step_spec(c, ev) == (c, Action::Halt),
{
}

/// The connection sequence: loads credentials from the store (falling
/// back to the defaults), applies the client configuration with the
/// given authentication mode, starts the interface, issues a connect
/// request, and then polls the link on a fixed cadence, counting each
/// unsuccessful poll, issuing a disconnect-and-reconnect cycle after
/// each unsuccessful poll from the second on, and giving up after
/// `MAX_RETRIES` polls.
///
/// The contract pins the outcome down as a function of the store, the
/// defaults and the interface script: which error comes back on which
/// input, how many polls are made, and how many reconnect cycles are
/// issued.
pub fn connect(store: &mut NvStore, defaults: &Credentials, auth: AuthMode, radio: &mut SimRadio) -> (r:
    Result<Controller, WifiError>)
    requires
        old(radio).polled == 0,
        old(radio).reconnects == 0,
        !old(radio).started,
    ensures
        ({
            let (s2, lr) = load_spec(old(store)@, defaults.name@, defaults.secret@);
            let script = old(radio).link_up@;
            &&& final(store)@ == s2
            &&& same_script(*final(radio), *old(radio))
            &&& (r is Ok <==> lr is Ok && old(radio).accept_configure && old(radio).accept_start
                && old(radio).accept_connect && (exists|k: int|
                0 <= k < MAX_RETRIES && #[trigger] poll_at(script, k)))
            &&& match lr {
                Err(e) => r == Err::<Controller, WifiError>(e) && *final(radio) == *old(radio),
                Ok(creds) => {
                    if !old(radio).accept_configure {
                        &&& r == Err::<Controller, WifiError>(WifiError::RadioConfigFault)
                        &&& same_config(*final(radio), *old(radio))
                        &&& final(radio).polled == 0
                        &&& final(radio).reconnects == 0
                    } else {
                        &&& final(radio).configured
                        &&& final(radio).cfg_name@ == creds.0
                        &&& final(radio).cfg_secret@ == creds.1
                        &&& final(radio).cfg_auth == auth
                        &&& if !old(radio).accept_start {
                            &&& r == Err::<Controller, WifiError>(WifiError::RadioConfigFault)
                            &&& !final(radio).started
                            &&& final(radio).polled == 0
                            &&& final(radio).reconnects == 0
                        } else {
                            &&& final(radio).started
                            &&& if !old(radio).accept_connect {
                                &&& r == Err::<Controller, WifiError>(WifiError::RadioConfigFault)
                                &&& final(radio).polled == 0
                                &&& final(radio).reconnects == 0
                            } else {
                                let p = final(radio).polled;
                                &&& 1 <= p <= MAX_RETRIES
                                &&& (forall|j: int| 0 <= j < p - 1 ==> !#[trigger] poll_at(script, j))
                                &&& if poll_at(script, p - 1) {
                                    &&& r matches Ok(c) && c.phase is Connected
                                    &&& final(radio).reconnects == if p >= RECONNECT_AFTER + 1 {
                                        (p - RECONNECT_AFTER) as u32
                                    } else {
                                        0u32
                                    }
                                } else {
                                    &&& r == Err::<Controller, WifiError>(
                                        WifiError::ConnectionTimeout(MAX_RETRIES),
                                    )
                                    &&& p == MAX_RETRIES
                                    &&& final(radio).reconnects == MAX_RETRIES - RECONNECT_AFTER
                                }
                            }
                        }
                    }
                },
            }
        }),
        r matches Ok(c) ==> c.phase is Connected && c.wf(),
{
    let creds = match load(store, defaults) {
        Ok(c) => c,
        Err(e) => {
            return Err(e);
        },
    };
    let ghost script = radio.link_up@;
    let mut ctrl = Controller::new();
    let a = ctrl.step(Event::Begin);
    assert(a is Configure);
    let ok = radio.configure(&creds.name, &creds.secret, auth);
    let a = ctrl.step(if ok {
        Event::RadioOk
    } else {
        Event::RadioErr
    });
    if !ok {
        return Err(WifiError::RadioConfigFault);
    }
    assert(a is Start);
    let ok = radio.start();
    let a = ctrl.step(if ok {
        Event::RadioOk
    } else {
        Event::RadioErr
    });
    if !ok {
        return Err(WifiError::RadioConfigFault);
    }
    assert(a is IssueConnect);
    let ok = radio.request_connect();
    let a = ctrl.step(if ok {
        Event::RadioOk
    } else {
        Event::RadioErr
    });
    if !ok {
        return Err(WifiError::RadioConfigFault);
    }
    assert(a is AwaitPoll);
    let ghost radio0 = *radio;
    loop
        invariant_except_break
            ctrl.phase is Connecting,
            ctrl.attempts == radio.polled,
            radio.polled < MAX_RETRIES,
            forall|j: int| 0 <= j < radio.polled ==> !#[trigger] poll_at(script, j),
            radio.reconnects == if radio.polled >= RECONNECT_AFTER {
                (radio.polled - RECONNECT_AFTER + 1) as u32
            } else {
                0u32
            },
        invariant
            ctrl.wf(),
            radio.accept_connect,
            same_script(*radio, radio0),
            same_config(*radio, radio0),
            script == radio.link_up@,
        ensures
            ctrl.wf(),
            same_script(*radio, radio0),
            same_config(*radio, radio0),
            1 <= radio.polled <= MAX_RETRIES,
            forall|j: int| 0 <= j < radio.polled - 1 ==> !#[trigger] poll_at(script, j),
            ctrl.phase is Connected || ctrl.phase == Phase::Failed(
                WifiError::ConnectionTimeout(MAX_RETRIES),
            ),
            ctrl.phase is Connected ==> poll_at(script, radio.polled - 1)
                && radio.reconnects == if radio.polled >= RECONNECT_AFTER + 1 {
                (radio.polled - RECONNECT_AFTER) as u32
            } else {
                0u32
            },
            ctrl.phase is Failed ==> radio.polled == MAX_RETRIES && !poll_at(
                script,
                radio.polled - 1,
            ) && radio.reconnects == MAX_RETRIES - RECONNECT_AFTER,
        decreases MAX_RETRIES - ctrl.attempts,
    {
        let up = radio.poll_link();
        let a = ctrl.step(Event::Polled(up));
        match a {
            Action::Halt => {
                break;
            },
            Action::Reconnect => {
                let ok = radio.reconnect_cycle();
                let _ = ctrl.step(if ok {
                    Event::RadioOk
                } else {
                    Event::RadioErr
                });
            },
            _ => {},
        }
    }
    match ctrl.phase {
        Phase::Failed(e) => Err(e),
        _ => Ok(ctrl),
    }
}

} // verus!
