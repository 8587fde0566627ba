//! Coordinated shutdown: the latch each subsystem keeps of the termination
//! signal, the completion handshake, and the driver that ties them together.
//!
//! The driver owns one sender of the completion channel, and so does each
//! subsystem.  Nobody ever sends on that channel: a holder reports that it is
//! done by dropping its sender, and the receiving end sees the channel close
//! once the last sender is gone.

use vstd::prelude::*;

verus! {

/// Exit code of a clean shutdown.
pub const EXIT_CLEAN: i32 = 0;

/// Exit code when the process could not start: unreadable configuration,
/// malformed authorization header, a store that cannot be opened.
pub const EXIT_STARTUP: i32 = 1;

/// Exit code of a runtime failure that nothing can recover from.
pub const EXIT_RUNTIME: i32 = 2;

/// A subsystem's record of the termination signal.  It starts clear, is set
/// by the first wait that ends, and never clears again.
#[derive(Debug)]
pub struct Shutdown {
    is_shutdown: bool,
}

impl Shutdown {
    /// Whether the termination signal has been observed.
    pub closed spec fn latched(&self) -> bool {
        self.is_shutdown
    }

    /// A latch that has not observed the signal yet.
    pub fn new() -> (fresh: Shutdown)
        ensures
            !fresh.latched(),
    {
        Shutdown { is_shutdown: false }
    }

    /// Tells, without waiting, whether the signal has been observed.
    pub fn is_shutdown(&self) -> (seen: bool)
        ensures
            seen == self.latched(),
    {
        self.is_shutdown
    }

    /// Records that a wait for the signal has ended, because the signal fired
    /// or because its channel closed.  A caller waits only while
    /// `is_shutdown` is false, so every later wait returns at once.
    pub fn latch(&mut self)
        ensures
            final(self).latched(),
    {
        self.is_shutdown = true;
    }
}

/// The two subsystems that run for the lifetime of the process.
#[derive(Clone, Copy, Debug, PartialEq, Eq, Structural)]
pub enum Subsystem {
    Watcher,
    Alerter,
}

/// Who still holds a sender of the completion channel.
#[derive(Clone, Copy, Debug, PartialEq, Eq, Structural)]
pub struct Handshake {
    pub driver: bool,
    pub watcher: bool,
    pub alerter: bool,
}

impl Handshake {
    /// The channel is closed when no sender is left.
    pub open spec fn closed(&self) -> bool {
        !self.driver && !self.watcher && !self.alerter
    }

    /// The handshake after `who` has dropped its sender.
    pub open spec fn without(self, who: Subsystem) -> Handshake {
        match who {
            Subsystem::Watcher => Handshake { watcher: false, ..self },
            Subsystem::Alerter => Handshake { alerter: false, ..self },
        }
    }

    /// The handshake at startup: the driver and both subsystems hold a
    /// sender.
    pub fn new() -> (all: Handshake)
        ensures
            all == (Handshake { driver: true, watcher: true, alerter: true }),
    {
        Handshake { driver: true, watcher: true, alerter: true }
    }

    /// Whether the receiving end would see the channel closed.
    pub fn is_closed(&self) -> (closed: bool)
        ensures
            closed == self.closed(),
    {
        !self.driver && !self.watcher && !self.alerter
    }
}

/// Where the driver stands.
#[derive(Clone, Copy, Debug, PartialEq, Eq, Structural)]
pub enum DriverPhase {
    /// Both subsystems are meant to run; no termination signal yet.
    Serving,
    /// The signal was broadcast; the driver waits for the channel to close.
    Draining,
    /// The driver has told the process to exit, with this code.
    Exited(i32),
}

/// What the driver is told.
#[derive(Clone, Copy, Debug, PartialEq, Eq, Structural)]
pub enum DriverEvent {
    /// The operating system asked the process to stop (interrupt or
    /// terminate).
    Terminate,
    /// A subsystem has returned and dropped its completion sender.
    Finished(Subsystem),
    /// The subsystems' machinery broke in a way that cannot be repaired.
    Failed,
}

/// What the driver has to do, in the order given.
#[derive(Clone, Copy, Debug, PartialEq, Eq, Structural)]
pub enum DriverAction {
    /// Send the termination signal to both subsystems.
    Broadcast,
    /// Drop the driver's sender of the termination signal.
    DropNotifier,
    /// Drop the driver's sender of the completion channel.
    DropCompletion,
    /// Block on the completion receiver until it reports the channel closed.
    AwaitCompletion,
    /// Leave the process with this exit code.
    Exit(i32),
}

/// The driver of the whole process.
#[derive(Clone, Copy, Debug, PartialEq, Eq, Structural)]
pub struct Coordinator {
    pub phase: DriverPhase,
    pub handshake: Handshake,
}

/// The driver before anything has happened.
pub open spec fn initial_coordinator() -> Coordinator {
    Coordinator {
        phase: DriverPhase::Serving,
        handshake: Handshake { driver: true, watcher: true, alerter: true },
    }
}

/// What the driver does when it has broadcast the signal and let go of its
/// own senders: it leaves at once if the channel is already closed, and
/// blocks on the receiver otherwise.
pub open spec fn settle(handshake: Handshake) -> (DriverPhase, Seq<DriverAction>) {
    if handshake.closed() {
        (DriverPhase::Exited(EXIT_CLEAN), seq![DriverAction::Exit(EXIT_CLEAN)])
    } else {
        (DriverPhase::Draining, seq![DriverAction::AwaitCompletion])
    }
}

/// The driver's transition function: the next state, and what to do.
pub open spec fn drive(state: Coordinator, event: DriverEvent) -> (Coordinator, Seq<DriverAction>) {
    match state.phase {
        DriverPhase::Exited(_) => (state, Seq::empty()),
        DriverPhase::Serving => match event {
            DriverEvent::Terminate => {
                let handshake = Handshake { driver: false, ..state.handshake };
                let (phase, last) = settle(handshake);
                (
                    Coordinator { phase, handshake },
                    seq![
                        DriverAction::Broadcast,
                        DriverAction::DropNotifier,
                        DriverAction::DropCompletion,
                    ] + last,
                )
            },
            DriverEvent::Finished(who) => (
                Coordinator { handshake: state.handshake.without(who), ..state },
                Seq::empty(),
            ),
            DriverEvent::Failed => (
                Coordinator { phase: DriverPhase::Exited(EXIT_RUNTIME), ..state },
                seq![DriverAction::Exit(EXIT_RUNTIME)],
            ),
        },
        DriverPhase::Draining => match event {
            DriverEvent::Terminate => (state, Seq::empty()),
            DriverEvent::Finished(who) => {
                let handshake = state.handshake.without(who);
                let (phase, actions) = settle(handshake);
                (Coordinator { phase, handshake }, actions)
            },
            DriverEvent::Failed => (
                Coordinator { phase: DriverPhase::Exited(EXIT_RUNTIME), ..state },
                seq![DriverAction::Exit(EXIT_RUNTIME)],
            ),
        },
    }
}

/// The driver's state after the events of `history`, oldest first.
pub open spec fn replay(history: Seq<DriverEvent>) -> Coordinator
    decreases history.len(),
{
    if history.len() == 0 {
        initial_coordinator()
    } else {
        drive(replay(history.drop_last()), history.last()).0
    }
}

impl Coordinator {
    /// The driver at startup.
    pub fn new() -> (fresh: Coordinator)
        ensures
            fresh == initial_coordinator(),
    {
        Coordinator { phase: DriverPhase::Serving, handshake: Handshake::new() }
    }

    /// Takes one event and answers with the actions it calls for.
    pub fn step(&mut self, event: DriverEvent) -> (actions: Vec<DriverAction>)
        ensures
            *final(self) == drive(*old(self), event).0,
            actions@ == drive(*old(self), event).1,
    {
        let mut actions: Vec<DriverAction> = Vec::new();
        match self.phase {
            DriverPhase::Exited(_) => {},
            DriverPhase::Serving => match event {
                DriverEvent::Terminate => {
                    self.handshake.driver = false;
                    actions.push(DriverAction::Broadcast);
                    actions.push(DriverAction::DropNotifier);
                    actions.push(DriverAction::DropCompletion);
                    self.conclude(&mut actions);
                },
                DriverEvent::Finished(who) => {
                    self.release(who);
                },
                DriverEvent::Failed => {
                    self.phase = DriverPhase::Exited(EXIT_RUNTIME);
                    actions.push(DriverAction::Exit(EXIT_RUNTIME));
                },
            },
            DriverPhase::Draining => match event {
                DriverEvent::Terminate => {},
                DriverEvent::Finished(who) => {
                    self.release(who);
                    self.conclude(&mut actions);
                },
                DriverEvent::Failed => {
                    self.phase = DriverPhase::Exited(EXIT_RUNTIME);
                    actions.push(DriverAction::Exit(EXIT_RUNTIME));
                },
            },
        }
        actions
    }

    /// Notes that `who` has dropped its completion sender.
    fn release(&mut self, who: Subsystem)
        ensures
            final(self).handshake == old(self).handshake.without(who),
            final(self).phase == old(self).phase,
    {
        match who {
            Subsystem::Watcher => {
                self.handshake.watcher = false;
            },
            Subsystem::Alerter => {
                self.handshake.alerter = false;
            },
        }
    }

    /// Decides between leaving and waiting, once the signal is out.
    fn conclude(&mut self, actions: &mut Vec<DriverAction>)
        ensures
            final(self).handshake == old(self).handshake,
            final(self).phase == settle(old(self).handshake).0,
            final(actions)@ == old(actions)@ + settle(old(self).handshake).1,
    {
        if self.handshake.is_closed() {
            self.phase = DriverPhase::Exited(EXIT_CLEAN);
            actions.push(DriverAction::Exit(EXIT_CLEAN));
        } else {
            self.phase = DriverPhase::Draining;
            actions.push(DriverAction::AwaitCompletion);
        }
    }

    /// The exit code, once the driver has decided to leave.
    pub fn exit_code(&self) -> (code: Option<i32>)
        ensures
            code == match self.phase {
                DriverPhase::Exited(c) => Some(c),
                _ => None::<i32>,
            },
    {
        match self.phase {
            DriverPhase::Exited(c) => Some(c),
            _ => None,
        }
    }
}

/// The driver leaves with the clean exit code only when the termination
/// signal has arrived and both subsystems have reported that they are done:
/// whatever the history, a driver that has exited cleanly has seen all three
/// events.
pub proof fn law_clean_exit_follows_completion(history: Seq<DriverEvent>)
    requires
        replay(history).phase == DriverPhase::Exited(EXIT_CLEAN),
    ensures
        history.contains(DriverEvent::Terminate),
        history.contains(DriverEvent::Finished(Subsystem::Watcher)),
        history.contains(DriverEvent::Finished(Subsystem::Alerter)),
{
    lemma_replay_accounts(history);
}

/// What every reachable state of the driver says about its history.
proof fn lemma_replay_accounts(history: Seq<DriverEvent>)
    ensures
        ({
            let state = replay(history);
            &&& !state.handshake.driver ==> history.contains(DriverEvent::Terminate)
            &&& !state.handshake.watcher ==> history.contains(
                DriverEvent::Finished(Subsystem::Watcher),
            )
            &&& !state.handshake.alerter ==> history.contains(
                DriverEvent::Finished(Subsystem::Alerter),
            )
            &&& state.phase == DriverPhase::Exited(EXIT_CLEAN) ==> state.handshake.closed()
            &&& state.phase == DriverPhase::Draining ==> !state.handshake.driver
        }),
    decreases history.len(),
{
    if history.len() > 0 {
        let before = history.drop_last();
        lemma_replay_accounts(before);
        assert(history[history.len() - 1] == history.last());
        assert forall|e: DriverEvent| before.contains(e) implies history.contains(e) by {
            let i = choose|i: int| 0 <= i < before.len() && before[i] == e;
            assert(history[i] == e);
        }
    }
}

/// Once the driver has decided to leave, no event moves it or makes it act.
pub proof fn law_exit_is_final(state: Coordinator, event: DriverEvent)
    requires
        state.phase is Exited,
    ensures
        drive(state, event).0 == state,
        drive(state, event).1 == Seq::<DriverAction>::empty(),
{
}

} // verus!
