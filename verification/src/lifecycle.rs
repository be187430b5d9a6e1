//! The life of the keeper: an optional startup hook, a tick that is run
//! again and again with a pause in between, and an optional shutdown hook.
//! The lifecycle decides what comes next; whoever drives it runs the hooks,
//! sleeps and listens for the signal to terminate.

use vstd::prelude::*;

verus! {

/// Seconds between two ticks unless `every` says otherwise.
pub const DEFAULT_SYNC_INTERVAL: u64 = 30;

/// Seconds of rest after the startup hook, in which the first remote sample
/// can come.
pub const STARTUP_PAUSE: u64 = 5;

/// Where the keeper stands in its life.
#[derive(Debug, Clone, Copy, PartialEq, Eq, Structural)]
pub enum Phase {
    /// Nothing has run yet.
    Created,
    /// The startup hook is running.
    Starting,
    /// The rest after the startup hook.
    Settling,
    /// The tick is running.
    Ticking,
    /// The pause between two ticks.
    Pausing,
    /// The shutdown hook is running.
    Stopping,
    /// Everything has run.
    Finished,
}

/// What the driver reports.
#[derive(Debug, Clone, Copy, PartialEq, Eq, Structural)]
pub enum LifecycleEvent {
    /// What was asked for last has been done.
    Done,
    /// The signal to terminate has come.
    Terminate,
}

/// What the driver is asked to do next.
#[derive(Debug, Clone, Copy, PartialEq, Eq, Structural)]
pub enum LifecycleAction {
    /// Run the startup hook.
    RunStartup,
    /// Sleep for this many seconds.
    Sleep(u64),
    /// Run the tick.
    RunTick,
    /// Run the shutdown hook.
    RunShutdown,
    /// Go on with what is under way.
    Continue,
    /// Leave.
    Exit,
}

/// The hooks that are set, the pause between ticks and the phase.
#[derive(Debug, Clone, Copy, PartialEq, Eq, Structural)]
pub struct Lifecycle {
    pub sync_interval: u64,
    pub has_startup: bool,
    pub has_sync: bool,
    pub has_shutdown: bool,
    pub phase: Phase,
}

/// A phase and the action that leads into it.
pub struct Transition {
    pub phase: Phase,
    pub action: LifecycleAction,
}

impl Lifecycle {
    /// Entering the tick loop: the tick runs if there is one, else the
    /// shutdown begins at once.
    pub open spec fn enter_loop(self) -> Transition {
        if self.has_sync {
            Transition { phase: Phase::Ticking, action: LifecycleAction::RunTick }
        } else {
            self.begin_shutdown()
        }
    }

    /// Beginning the shutdown: the hook runs if there is one, else the
    /// keeper leaves.
    pub open spec fn begin_shutdown(self) -> Transition {
        if self.has_shutdown {
            Transition { phase: Phase::Stopping, action: LifecycleAction::RunShutdown }
        } else {
            Transition { phase: Phase::Finished, action: LifecycleAction::Exit }
        }
    }

    /// The next phase and the action that leads into it. The hooks run one
    /// after the other; the signal to terminate is heeded only while the
    /// tick loop runs, and ends it.
    pub open spec fn next(self, event: LifecycleEvent) -> Transition {
        match self.phase {
            Phase::Created => if self.has_startup {
                Transition { phase: Phase::Starting, action: LifecycleAction::RunStartup }
            } else {
                self.enter_loop()
            },
            Phase::Starting => match event {
                LifecycleEvent::Done => Transition {
                    phase: Phase::Settling,
                    action: LifecycleAction::Sleep(STARTUP_PAUSE),
                },
                LifecycleEvent::Terminate => Transition {
                    phase: Phase::Starting,
                    action: LifecycleAction::Continue,
                },
            },
            Phase::Settling => match event {
                LifecycleEvent::Done => self.enter_loop(),
                LifecycleEvent::Terminate => Transition {
                    phase: Phase::Settling,
                    action: LifecycleAction::Continue,
                },
            },
            Phase::Ticking => match event {
                LifecycleEvent::Done => Transition {
                    phase: Phase::Pausing,
                    action: LifecycleAction::Sleep(self.sync_interval),
                },
                LifecycleEvent::Terminate => self.begin_shutdown(),
            },
            Phase::Pausing => match event {
                LifecycleEvent::Done => Transition {
                    phase: Phase::Ticking,
                    action: LifecycleAction::RunTick,
                },
                LifecycleEvent::Terminate => self.begin_shutdown(),
            },
            Phase::Stopping => match event {
                LifecycleEvent::Done => Transition {
                    phase: Phase::Finished,
                    action: LifecycleAction::Exit,
                },
                LifecycleEvent::Terminate => Transition {
                    phase: Phase::Stopping,
                    action: LifecycleAction::Continue,
                },
            },
            Phase::Finished => Transition { phase: Phase::Finished, action: LifecycleAction::Exit },
        }
    }

    /// The signal to terminate is heeded now: the tick loop runs.
    pub open spec fn in_loop(self) -> bool {
        self.phase == Phase::Ticking || self.phase == Phase::Pausing
    }

    /// Decides whether the signal to terminate is heeded now. Only then is
    /// it to be listened for.
    pub fn heeds_termination(&self) -> (r: bool)
        ensures
            r == self.in_loop(),
    {
        match self.phase {
            Phase::Ticking => true,
            Phase::Pausing => true,
            _ => false,
        }
    }

    /// Builds a lifecycle without hooks, with the default pause between
    /// ticks.
    pub fn new() -> (r: Lifecycle)
        ensures
            r == (Lifecycle {
                sync_interval: DEFAULT_SYNC_INTERVAL,
                has_startup: false,
                has_sync: false,
                has_shutdown: false,
                phase: Phase::Created,
            }),
    {
        Lifecycle {
            sync_interval: DEFAULT_SYNC_INTERVAL,
            has_startup: false,
            has_sync: false,
            has_shutdown: false,
            phase: Phase::Created,
        }
    }

    /// Notes that a startup hook is set.
    pub fn on_startup(&mut self)
        ensures
            *final(self) == (Lifecycle { has_startup: true, ..*old(self) }),
    {
        self.has_startup = true;
    }

    /// Notes that a tick is set, to be run with `interval` seconds of pause
    /// in between.
    pub fn every(&mut self, interval: u64)
        ensures
            *final(self) == (Lifecycle { sync_interval: interval, has_sync: true, ..*old(self) }),
    {
        self.sync_interval = interval;
        self.has_sync = true;
    }

    /// Notes that a shutdown hook is set.
    pub fn on_shutdown(&mut self)
        ensures
            *final(self) == (Lifecycle { has_shutdown: true, ..*old(self) }),
    {
        self.has_shutdown = true;
    }

    /// Takes one step of the run: moves to the next phase and returns what
    /// the driver is to do. The first call starts the run, whatever the
    /// event.
    pub fn run(&mut self, event: LifecycleEvent) -> (r: LifecycleAction)
        ensures
            r == old(self).next(event).action,
            *final(self) == (Lifecycle { phase: old(self).next(event).phase, ..*old(self) }),
    {
        let (phase, action) = match self.phase {
            Phase::Created => if self.has_startup {
                (Phase::Starting, LifecycleAction::RunStartup)
            } else {
                self.entering_loop()
            },
            Phase::Starting => match event {
                LifecycleEvent::Done => (Phase::Settling, LifecycleAction::Sleep(STARTUP_PAUSE)),
                LifecycleEvent::Terminate => (Phase::Starting, LifecycleAction::Continue),
            },
            Phase::Settling => match event {
                LifecycleEvent::Done => self.entering_loop(),
                LifecycleEvent::Terminate => (Phase::Settling, LifecycleAction::Continue),
            },
            Phase::Ticking => match event {
                LifecycleEvent::Done => (Phase::Pausing, LifecycleAction::Sleep(self.sync_interval)),
                LifecycleEvent::Terminate => self.beginning_shutdown(),
            },
            Phase::Pausing => match event {
                LifecycleEvent::Done => (Phase::Ticking, LifecycleAction::RunTick),
                LifecycleEvent::Terminate => self.beginning_shutdown(),
            },
            Phase::Stopping => match event {
                LifecycleEvent::Done => (Phase::Finished, LifecycleAction::Exit),
                LifecycleEvent::Terminate => (Phase::Stopping, LifecycleAction::Continue),
            },
            Phase::Finished => (Phase::Finished, LifecycleAction::Exit),
        };
        self.phase = phase;
        action
    }

    fn entering_loop(&self) -> (r: (Phase, LifecycleAction))
        ensures
            r.0 == self.enter_loop().phase,
            r.1 == self.enter_loop().action,
    {
        if self.has_sync {
            (Phase::Ticking, LifecycleAction::RunTick)
        } else {
            self.beginning_shutdown()
        }
    }

    fn beginning_shutdown(&self) -> (r: (Phase, LifecycleAction))
        ensures
            r.0 == self.begin_shutdown().phase,
            r.1 == self.begin_shutdown().action,
    {
        if self.has_shutdown {
            (Phase::Stopping, LifecycleAction::RunShutdown)
        } else {
            (Phase::Finished, LifecycleAction::Exit)
        }
    }
}

/// Once the signal to terminate has been heeded, the tick never runs again.
pub proof fn lemma_no_tick_after_shutdown(l: Lifecycle, event: LifecycleEvent)
    requires
        l.phase == Phase::Stopping || l.phase == Phase::Finished,
    ensures
        l.next(event).action != LifecycleAction::RunTick,
        l.next(event).phase == Phase::Stopping || l.next(event).phase == Phase::Finished,
{
}

/// The answer to go on with what is under way is given to the signal to
/// terminate only, and only where it is not heeded. What was asked for
/// last is then still to be done.
pub proof fn lemma_continue_only_outside_loop(l: Lifecycle, event: LifecycleEvent)
    requires
        l.next(event).action == LifecycleAction::Continue,
    ensures
        event == LifecycleEvent::Terminate,
        !l.in_loop(),
        l.next(event).phase == l.phase,
{
}

/// While the tick loop runs, the signal to terminate leads to the shutdown
/// hook if there is one, and to the exit if there is none.
pub proof fn lemma_terminate_ends_loop(l: Lifecycle)
    requires
        l.phase == Phase::Ticking || l.phase == Phase::Pausing,
    ensures
        l.next(LifecycleEvent::Terminate).action == (if l.has_shutdown {
            LifecycleAction::RunShutdown
        } else {
            LifecycleAction::Exit
        }),
{
}

} // verus!
