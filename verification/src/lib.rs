//! Decisions behind graceful shutdown on operating-system signals: the
//! signals a platform listens for, their names, and which event ends a wait.
mod laws;
mod signal;
mod wait;

pub use laws::{
    carried, decisive, law_custom_none_keeps_waiting, law_custom_some_is_used,
    law_finished_wait_ignores_events, law_first_decisive_event_wins,
    law_only_os_signals_end_plain_wait, law_os_signal_names_distinct, law_os_signal_reports_itself,
    law_platform_signal_sets, law_wait_ends_once,
    law_wait_goes_on_without_decisive_event, law_watched_signals_of_platform,
};
pub use signal::{law_os_signal_names, law_other_shows_its_name, Signal};
pub use wait::{signals_to_watch, watched_signals, OsSignal, Platform, SignalWait, WaitEvent};
