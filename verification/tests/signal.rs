use libsignal::{signals_to_watch, OsSignal, Platform, Signal, SignalWait, WaitEvent};

#[test]
fn test_signal_display_formatting() {
    assert_eq!(Signal::Terminate.to_string(), "SIGTERM");
    assert_eq!(Signal::Interrupt.to_string(), "SIGINT");
    assert_eq!(Signal::CtrlC.to_string(), "CTRL_C");
    assert_eq!(Signal::Break.to_string(), "CTRL_BREAK");
    assert_eq!(Signal::Close.to_string(), "CTRL_CLOSE");
    assert_eq!(Signal::Shutdown.to_string(), "CTRL_SHUTDOWN");
    assert_eq!(Signal::Other("CUSTOM".into()).to_string(), "CUSTOM");
}

#[test]
fn other_signal_keeps_empty_name() {
    assert_eq!(Signal::Other(String::new()).to_string(), "");
}

#[test]
fn os_signals_report_their_signal() {
    assert_eq!(OsSignal::Terminate.to_signal(), Signal::Terminate);
    assert_eq!(OsSignal::Interrupt.to_signal(), Signal::Interrupt);
    assert_eq!(OsSignal::CtrlC.to_signal(), Signal::CtrlC);
    assert_eq!(OsSignal::Break.to_signal(), Signal::Break);
    assert_eq!(OsSignal::Close.to_signal(), Signal::Close);
    assert_eq!(OsSignal::Shutdown.to_signal(), Signal::Shutdown);
}

#[test]
fn unix_watches_sigterm_and_sigint() {
    assert_eq!(
        signals_to_watch(&Platform::Unix),
        vec![OsSignal::Terminate, OsSignal::Interrupt]
    );
}

#[test]
fn windows_watches_console_events() {
    assert_eq!(
        signals_to_watch(&Platform::Windows),
        vec![OsSignal::CtrlC, OsSignal::Break, OsSignal::Close, OsSignal::Shutdown]
    );
}

#[test]
fn every_os_signal_belongs_to_one_platform() {
    for k in [
        OsSignal::Terminate,
        OsSignal::Interrupt,
        OsSignal::CtrlC,
        OsSignal::Break,
        OsSignal::Close,
        OsSignal::Shutdown,
    ] {
        assert_ne!(k.is_watched_on(&Platform::Unix), k.is_watched_on(&Platform::Windows));
        assert_eq!(
            k.is_watched_on(&Platform::Unix),
            signals_to_watch(&Platform::Unix).contains(&k)
        );
        assert_eq!(
            k.is_watched_on(&Platform::Windows),
            signals_to_watch(&Platform::Windows).contains(&k)
        );
    }
}

#[test]
fn new_wait_has_not_ended() {
    let w = SignalWait::new(Platform::Unix, true);
    assert!(!w.is_finished());
    assert!(w.is_custom_pending());
    let w = SignalWait::new(Platform::Windows, false);
    assert!(!w.is_finished());
    assert!(!w.is_custom_pending());
}

#[test]
fn test_cancels_on_or() {
    let mut w = SignalWait::new(Platform::Unix, true);
    let r = w.handle(WaitEvent::Custom(Some(Signal::Other("TEST".into()))));
    assert_eq!(r, Some(Signal::Other("TEST".into())));
    assert!(w.is_finished());
}

#[test]
fn test_or_future_returns_none() {
    let mut w = SignalWait::new(Platform::Unix, true);
    let r = w.handle(WaitEvent::Custom(None));
    assert_eq!(r, None);
    assert!(!w.is_finished());
    assert!(!w.is_custom_pending());
}

#[test]
fn test_wait_for_signal_or_with_immediate_signal() {
    let mut w = SignalWait::new(Platform::Unix, true);
    let r = w.handle(WaitEvent::Custom(Some(Signal::Terminate)));
    assert_eq!(r, Some(Signal::Terminate));
    assert!(w.is_finished());
}

#[test]
fn test_multiple_cancellation_tokens() {
    let mut w1 = SignalWait::new(Platform::Unix, true);
    let mut w2 = SignalWait::new(Platform::Unix, true);
    assert_eq!(
        w1.handle(WaitEvent::Custom(Some(Signal::Other("FIRST".into())))),
        Some(Signal::Other("FIRST".into()))
    );
    assert!(w1.is_finished());
    assert!(!w2.is_finished());
    assert_eq!(
        w2.handle(WaitEvent::Custom(Some(Signal::Other("SECOND".into())))),
        Some(Signal::Other("SECOND".into()))
    );
    assert!(w2.is_finished());
}

#[test]
fn test_or_future_with_delay() {
    let mut w = SignalWait::new(Platform::Unix, true);
    // An event that this platform does not listen for changes nothing.
    assert_eq!(w.handle(WaitEvent::Os(OsSignal::CtrlC)), None);
    assert!(!w.is_finished());
    assert_eq!(
        w.handle(WaitEvent::Custom(Some(Signal::Other("DELAYED".into())))),
        Some(Signal::Other("DELAYED".into()))
    );
    assert!(w.is_finished());
}

#[test]
fn os_signal_ends_wait_after_custom_none() {
    let mut w = SignalWait::new(Platform::Unix, true);
    assert_eq!(w.handle(WaitEvent::Custom(None)), None);
    assert_eq!(w.handle(WaitEvent::Custom(Some(Signal::Other("LATE".into())))), None);
    assert!(!w.is_finished());
    assert_eq!(w.handle(WaitEvent::Os(OsSignal::Interrupt)), Some(Signal::Interrupt));
    assert!(w.is_finished());
}

#[test]
fn first_event_wins_and_wait_ends_once() {
    let mut w = SignalWait::new(Platform::Windows, true);
    assert_eq!(w.handle(WaitEvent::Os(OsSignal::Terminate)), None);
    assert_eq!(w.handle(WaitEvent::Os(OsSignal::Close)), Some(Signal::Close));
    let ended = w;
    assert_eq!(w.handle(WaitEvent::Os(OsSignal::CtrlC)), None);
    assert_eq!(w.handle(WaitEvent::Custom(Some(Signal::Other("X".into())))), None);
    assert_eq!(w, ended);
}

#[test]
fn plain_wait_ignores_custom_events() {
    let mut w = SignalWait::new(Platform::Unix, false);
    assert_eq!(w.handle(WaitEvent::Custom(Some(Signal::Other("X".into())))), None);
    assert!(!w.is_finished());
    assert_eq!(w.handle(WaitEvent::Os(OsSignal::Terminate)), Some(Signal::Terminate));
}
