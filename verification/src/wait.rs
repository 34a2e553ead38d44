use vstd::prelude::*;

use crate::signal::Signal;

verus! {

/// The family of operating system the signals come from.
#[derive(Debug, Clone, Copy, PartialEq, Eq)]
pub enum Platform {
    Unix,
    Windows,
}

/// A shutdown signal that the operating system delivers.
#[derive(Debug, Clone, Copy, PartialEq, Eq)]
pub enum OsSignal {
    Terminate,
    Interrupt,
    CtrlC,
    Break,
    Close,
    Shutdown,
}

impl OsSignal {
    /// The [`Signal`] that reports this operating-system signal.
    pub open spec fn signal(self) -> Signal {
        match self {
            OsSignal::Terminate => Signal::Terminate,
            OsSignal::Interrupt => Signal::Interrupt,
            OsSignal::CtrlC => Signal::CtrlC,
            OsSignal::Break => Signal::Break,
            OsSignal::Close => Signal::Close,
            OsSignal::Shutdown => Signal::Shutdown,
        }
    }

    /// Whether a shutdown is awaited on this signal on `platform`: SIGTERM
    /// and SIGINT on Unix; CTRL_C, CTRL_BREAK, CTRL_CLOSE and CTRL_SHUTDOWN
    /// on Windows.
    pub open spec fn watched_on(self, platform: Platform) -> bool {
        match platform {
            Platform::Unix => self is Terminate || self is Interrupt,
            Platform::Windows => self is CtrlC || self is Break || self is Close || self is Shutdown,
        }
    }

    /// Converts to the [`Signal`] that reports it.
    pub fn to_signal(&self) -> (s: Signal)
        ensures
            s == self.signal(),
    {
        match self {
            OsSignal::Terminate => Signal::Terminate,
            OsSignal::Interrupt => Signal::Interrupt,
            OsSignal::CtrlC => Signal::CtrlC,
            OsSignal::Break => Signal::Break,
            OsSignal::Close => Signal::Close,
            OsSignal::Shutdown => Signal::Shutdown,
        }
    }

    /// Whether a wait on `platform` ends on this signal.
    pub fn is_watched_on(&self, platform: &Platform) -> (b: bool)
        ensures
            b == self.watched_on(*platform),
    {
        match platform {
            Platform::Unix => match self {
                OsSignal::Terminate | OsSignal::Interrupt => true,
                _ => false,
            },
            Platform::Windows => match self {
                OsSignal::CtrlC | OsSignal::Break | OsSignal::Close | OsSignal::Shutdown => true,
                _ => false,
            },
        }
    }
}

/// The signals that a wait listens for on `platform`, in the order in which
/// they are registered.
pub open spec fn watched_signals(platform: Platform) -> Seq<OsSignal> {
    match platform {
        Platform::Unix => seq![OsSignal::Terminate, OsSignal::Interrupt],
        Platform::Windows => seq![OsSignal::CtrlC, OsSignal::Break, OsSignal::Close, OsSignal::Shutdown],
    }
}

/// The signals to register a listener for on `platform`.
pub fn signals_to_watch(platform: &Platform) -> (v: Vec<OsSignal>)
    ensures
        v@ == watched_signals(*platform),
{
    match platform {
        Platform::Unix => vec![OsSignal::Terminate, OsSignal::Interrupt],
        Platform::Windows => vec![OsSignal::CtrlC, OsSignal::Break, OsSignal::Close, OsSignal::Shutdown],
    }
}

/// What can end, or change, a wait for a shutdown signal.
#[derive(Debug, Clone, PartialEq, Eq)]
pub enum WaitEvent {
    /// The operating system delivered a signal.
    Os(OsSignal),
    /// The caller's own shutdown trigger completed, with a signal or without.
    Custom(Option<Signal>),
}

/// A wait for the first shutdown signal.
///
/// The wait listens for the operating-system signals of its platform and,
/// while `custom_pending` holds, for the caller's own trigger. A trigger that
/// completes without a signal is no longer listened to; the wait goes on for
/// the operating-system signals alone. Once `finished`, the wait ignores
/// every event.
#[derive(Debug, Clone, Copy, PartialEq, Eq)]
pub struct SignalWait {
    pub platform: Platform,
    pub custom_pending: bool,
    pub finished: bool,
}

impl SignalWait {
    /// The signal with which `event` ends the wait, if it ends it.
    pub open spec fn outcome(self, event: WaitEvent) -> Option<Signal> {
        if self.finished {
            None
        } else {
            match event {
                WaitEvent::Os(k) => if k.watched_on(self.platform) {
                    Some(k.signal())
                } else {
                    None
                },
                WaitEvent::Custom(r) => if self.custom_pending {
                    r
                } else {
                    None
                },
            }
        }
    }

    /// The state of the wait after `event`.
    pub open spec fn after(self, event: WaitEvent) -> SignalWait {
        if self.finished {
            self
        } else {
            match event {
                WaitEvent::Os(k) => if k.watched_on(self.platform) {
                    SignalWait { platform: self.platform, custom_pending: false, finished: true }
                } else {
                    self
                },
                WaitEvent::Custom(r) => if self.custom_pending {
                    SignalWait { platform: self.platform, custom_pending: false, finished: r is Some }
                } else {
                    self
                },
            }
        }
    }

    /// The signal that ends a wait started in this state, when `events`
    /// arrive in this order; `None` where none of them ends it.
    pub open spec fn first_outcome(self, events: Seq<WaitEvent>) -> Option<Signal>
        decreases events.len(),
    {
        if events.len() == 0 {
            None
        } else {
            match self.outcome(events[0]) {
                Some(s) => Some(s),
                None => self.after(events[0]).first_outcome(events.drop_first()),
            }
        }
    }

    /// Starts a wait on `platform`; `with_custom` says whether the caller
    /// supplies a shutdown trigger of its own.
    pub fn new(platform: Platform, with_custom: bool) -> (w: SignalWait)
        ensures
            w.platform == platform,
            w.custom_pending == with_custom,
            !w.finished,
    {
        SignalWait { platform, custom_pending: with_custom, finished: false }
    }

    /// Whether the wait has ended.
    pub fn is_finished(&self) -> (b: bool)
        ensures
            b == self.finished,
    {
        self.finished
    }

    /// Whether the caller's trigger is still listened to.
    pub fn is_custom_pending(&self) -> (b: bool)
        ensures
            b == self.custom_pending,
    {
        self.custom_pending
    }

    /// Takes `event` into account: returns the signal that ends the wait,
    /// or `None` where the wait goes on (or had already ended).
    pub fn handle(&mut self, event: WaitEvent) -> (r: Option<Signal>)
        ensures
            r == old(self).outcome(event),
            *final(self) == old(self).after(event),
    {
        if self.finished {
            return None;
        }
        match event {
            WaitEvent::Os(k) => {
                if k.is_watched_on(&self.platform) {
                    self.custom_pending = false;
                    self.finished = true;
                    Some(k.to_signal())
                } else {
                    None
                }
            },
            WaitEvent::Custom(r) => {
                if self.custom_pending {
                    self.custom_pending = false;
                    self.finished = r.is_some();
                    r
                } else {
                    None
                }
            },
        }
    }
}

} // verus!
