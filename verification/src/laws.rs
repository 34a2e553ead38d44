use vstd::prelude::*;

use crate::signal::{law_os_signal_names, Signal};
use crate::wait::{watched_signals, OsSignal, Platform, SignalWait, WaitEvent};

verus! {

/// Whether `events[i]` ends a wait that started in `w`, judged from `w`
/// alone: a signal that the platform listens for, or a signal from the
/// caller's trigger when the trigger was listened to and had not completed
/// before.
pub open spec fn decisive(w: SignalWait, events: Seq<WaitEvent>, i: int) -> bool {
    match events[i] {
        WaitEvent::Os(k) => k.watched_on(w.platform),
        WaitEvent::Custom(r) => {
            &&& r is Some
            &&& w.custom_pending
            &&& forall|j: int| 0 <= j < i ==> !(#[trigger] events[j] is Custom)
        },
    }
}

/// The signal that an event carries, if any.
pub open spec fn carried(event: WaitEvent) -> Option<Signal> {
    match event {
        WaitEvent::Os(k) => Some(k.signal()),
        WaitEvent::Custom(r) => r,
    }
}

proof fn lemma_shift(w: SignalWait, events: Seq<WaitEvent>, i: int)
    requires
        !w.finished,
        events.len() > 0,
        1 <= i < events.len(),
        !decisive(w, events, 0),
    ensures
        decisive(w, events, i) == decisive(w.after(events[0]), events.drop_first(), i - 1),
        !w.after(events[0]).finished,
        w.after(events[0]).platform == w.platform,
{
    let w1 = w.after(events[0]);
    let rest = events.drop_first();
    assert(rest[i - 1] == events[i]);
    match events[i] {
        WaitEvent::Os(k) => {},
        WaitEvent::Custom(r) => {
            if events[0] is Custom {
                assert(!w1.custom_pending);
                assert(!decisive(w, events, i)) by {
                    assert(events[0] is Custom);
                }
            } else {
                assert(w1 == w);
                if decisive(w1, rest, i - 1) {
                    assert forall|j: int| 0 <= j < i implies !(#[trigger] events[j] is Custom) by {
                        if j > 0 {
                            assert(rest[j - 1] == events[j]);
                        }
                    }
                }
                if decisive(w, events, i) {
                    assert forall|j: int| 0 <= j < i - 1 implies !(#[trigger] rest[j] is Custom) by {
                        assert(rest[j] == events[j + 1]);
                    }
                }
            }
        },
    }
}

/// Whichever completes first ends the wait: a wait that has not ended ends
/// with the signal of the first event that is a signal its platform listens
/// for, or a signal from the caller's trigger while that trigger is listened
/// to.
pub proof fn law_first_decisive_event_wins(w: SignalWait, events: Seq<WaitEvent>, i: int)
    requires
        !w.finished,
        0 <= i < events.len(),
        decisive(w, events, i),
        forall|j: int| 0 <= j < i ==> !decisive(w, events, j),
    ensures
        w.first_outcome(events) == carried(events[i]),
    decreases events.len(),
{
    if i == 0 {
        match events[0] {
            WaitEvent::Os(k) => {},
            WaitEvent::Custom(r) => {},
        }
    } else {
        assert(!decisive(w, events, 0));
        let w1 = w.after(events[0]);
        let rest = events.drop_first();
        lemma_shift(w, events, i);
        assert(w.outcome(events[0]) is None) by {
            match events[0] {
                WaitEvent::Os(k) => {},
                WaitEvent::Custom(r) => {},
            }
        }
        assert forall|j: int| 0 <= j < i - 1 implies !decisive(w1, rest, j) by {
            lemma_shift(w, events, j + 1);
        }
        law_first_decisive_event_wins(w1, rest, i - 1);
        assert(rest[i - 1] == events[i]);
    }
}

/// A wait that meets no event that ends it goes on: without a signal that
/// its platform listens for, or a signal from its caller's trigger while
/// listened to, nothing ends it.
pub proof fn law_wait_goes_on_without_decisive_event(w: SignalWait, events: Seq<WaitEvent>)
    requires
        !w.finished,
        forall|j: int| 0 <= j < events.len() ==> !decisive(w, events, j),
    ensures
        w.first_outcome(events) is None,
    decreases events.len(),
{
    if events.len() > 0 {
        assert(!decisive(w, events, 0));
        assert(w.outcome(events[0]) is None) by {
            match events[0] {
                WaitEvent::Os(k) => {},
                WaitEvent::Custom(r) => {},
            }
        }
        let w1 = w.after(events[0]);
        let rest = events.drop_first();
        if events.len() > 1 {
            lemma_shift(w, events, 1);
        } else {
            assert(!w1.finished) by {
                match events[0] {
                    WaitEvent::Os(k) => {},
                    WaitEvent::Custom(r) => {},
                }
            }
        }
        assert forall|j: int| 0 <= j < rest.len() implies !decisive(w1, rest, j) by {
            lemma_shift(w, events, j + 1);
        }
        law_wait_goes_on_without_decisive_event(w1, rest);
    }
}

/// If the caller's trigger completes without a signal, the wait goes on for
/// the operating-system signals alone: it has not ended, it no longer
/// listens to the trigger, and a signal that its platform listens for still
/// ends it with that signal.
pub proof fn law_custom_none_keeps_waiting(w: SignalWait, k: OsSignal, later: Option<Signal>)
    requires
        !w.finished,
        w.custom_pending,
    ensures
        w.outcome(WaitEvent::Custom(None)) is None,
        !w.after(WaitEvent::Custom(None)).finished,
        !w.after(WaitEvent::Custom(None)).custom_pending,
        w.after(WaitEvent::Custom(None)).platform == w.platform,
        w.after(WaitEvent::Custom(None)).outcome(WaitEvent::Custom(later)) is None,
        k.watched_on(w.platform) ==> w.after(WaitEvent::Custom(None)).outcome(WaitEvent::Os(k))
            == Some(k.signal()),
{
}

/// If the caller's trigger completes with a signal while the wait listens
/// to it, the wait ends at once with that very signal.
pub proof fn law_custom_some_is_used(w: SignalWait, s: Signal)
    requires
        !w.finished,
        w.custom_pending,
    ensures
        w.outcome(WaitEvent::Custom(Some(s))) == Some(s),
        w.after(WaitEvent::Custom(Some(s))).finished,
{
}

/// A wait ends at most once: after the event that ends it, no sequence of
/// further events yields another signal, and the state no longer changes.
pub proof fn law_wait_ends_once(w: SignalWait, e: WaitEvent, rest: Seq<WaitEvent>)
    requires
        w.outcome(e) is Some,
    ensures
        w.after(e).finished,
        w.after(e).first_outcome(rest) is None,
{
    law_finished_wait_ignores_events(w.after(e), rest);
}

/// A wait that has ended ignores every event.
pub proof fn law_finished_wait_ignores_events(w: SignalWait, events: Seq<WaitEvent>)
    requires
        w.finished,
    ensures
        w.first_outcome(events) is None,
        forall|e: WaitEvent| #[trigger] w.after(e) == w,
    decreases events.len(),
{
    if events.len() > 0 {
        law_finished_wait_ignores_events(w, events.drop_first());
    }
}

/// Without a trigger of the caller's own, only a signal that the platform
/// listens for ends a wait, and it ends it with that signal.
pub proof fn law_only_os_signals_end_plain_wait(w: SignalWait, e: WaitEvent)
    requires
        !w.finished,
        !w.custom_pending,
    ensures
        w.outcome(e) is Some <==> (e matches WaitEvent::Os(k) && k.watched_on(w.platform)),
        w.outcome(e) is Some ==> w.outcome(e) == carried(e),
{
}

/// Every operating-system signal belongs to exactly one platform, and a
/// platform listens for exactly the signals that belong to it.
pub proof fn law_watched_signals_of_platform(k: OsSignal)
    ensures
        k.watched_on(Platform::Unix) != k.watched_on(Platform::Windows),
        k.watched_on(Platform::Unix) <==> watched_signals(Platform::Unix).contains(k),
        k.watched_on(Platform::Windows) <==> watched_signals(Platform::Windows).contains(k),
{
    let u = watched_signals(Platform::Unix);
    let x = watched_signals(Platform::Windows);
    match k {
        OsSignal::Terminate => { assert(u[0] == k); },
        OsSignal::Interrupt => { assert(u[1] == k); },
        OsSignal::CtrlC => { assert(x[0] == k); },
        OsSignal::Break => { assert(x[1] == k); },
        OsSignal::Close => { assert(x[2] == k); },
        OsSignal::Shutdown => { assert(x[3] == k); },
    }
}

/// No two operating-system signals show the same text, so a logged name
/// tells which signal ended the wait.
pub proof fn law_os_signal_names_distinct(a: OsSignal, b: OsSignal)
    ensures
        a.signal().name() == b.signal().name() ==> a == b,
{
    law_os_signal_names();
    reveal_strlit("SIGINT");
    reveal_strlit("CTRL_C");
    reveal_strlit("CTRL_BREAK");
    reveal_strlit("CTRL_CLOSE");
    if a.signal().name() == b.signal().name() && a != b {
        match (a, b) {
            (OsSignal::Interrupt, OsSignal::CtrlC) | (OsSignal::CtrlC, OsSignal::Interrupt) => {
                assert(a.signal().name()[0] != b.signal().name()[0]);
            },
            (OsSignal::Break, OsSignal::Close) | (OsSignal::Close, OsSignal::Break) => {
                assert(a.signal().name()[5] != b.signal().name()[5]);
            },
            _ => {
                assert(a.signal().name().len() != b.signal().name().len());
            },
        }
    }
}

/// An operating-system signal is reported as the signal of the same name,
/// and so is shown by its conventional name: SIGTERM for `Terminate`,
/// SIGINT for `Interrupt`, CTRL_C, CTRL_BREAK, CTRL_CLOSE and CTRL_SHUTDOWN
/// for the Windows console events.
pub proof fn law_os_signal_reports_itself(k: OsSignal)
    ensures
        k is Terminate ==> k.signal() == Signal::Terminate && k.signal().name() == "SIGTERM"@,
        k is Interrupt ==> k.signal() == Signal::Interrupt && k.signal().name() == "SIGINT"@,
        k is CtrlC ==> k.signal() == Signal::CtrlC && k.signal().name() == "CTRL_C"@,
        k is Break ==> k.signal() == Signal::Break && k.signal().name() == "CTRL_BREAK"@,
        k is Close ==> k.signal() == Signal::Close && k.signal().name() == "CTRL_CLOSE"@,
        k is Shutdown ==> k.signal() == Signal::Shutdown && k.signal().name() == "CTRL_SHUTDOWN"@,
        !(k.signal() is Other),
{
    law_os_signal_names();
}

/// A wait on Unix ends on SIGTERM and SIGINT and on no console event; a
/// wait on Windows ends on the four console events and on no Unix signal.
pub proof fn law_platform_signal_sets(k: OsSignal)
    ensures
        k.watched_on(Platform::Unix) <==> (k == OsSignal::Terminate || k == OsSignal::Interrupt),
        k.watched_on(Platform::Windows) <==> (k == OsSignal::CtrlC || k == OsSignal::Break
            || k == OsSignal::Close || k == OsSignal::Shutdown),
        watched_signals(Platform::Unix) == seq![OsSignal::Terminate, OsSignal::Interrupt],
        watched_signals(Platform::Windows) == seq![
            OsSignal::CtrlC,
            OsSignal::Break,
            OsSignal::Close,
            OsSignal::Shutdown,
        ],
{
}

} // verus!
