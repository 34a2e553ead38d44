use vstd::prelude::*;

verus! {

/// A request to shut down, from the operating system or from the caller.
///
/// Unix delivers `Terminate` and `Interrupt`; Windows delivers `CtrlC`,
/// `Break`, `Close` and `Shutdown`. `Other` carries a name chosen by the
/// caller for a shutdown trigger of its own.
#[derive(Debug, Clone, PartialEq, Eq)]
pub enum Signal {
    /// Unix SIGTERM signal - termination request
    Terminate,
    /// Unix SIGINT signal - interrupt (Ctrl+C)
    Interrupt,
    /// Windows CTRL_C event
    CtrlC,
    /// Windows CTRL_BREAK event
    Break,
    /// Windows CTRL_CLOSE event - console window closed
    Close,
    /// Windows CTRL_SHUTDOWN event - system shutdown
    Shutdown,
    /// Custom signal with user-defined name
    Other(String),
}

impl Signal {
    /// The text by which a signal is shown: the conventional name of an
    /// operating-system signal, or the caller's own name for `Other`.
    pub open spec fn name(&self) -> Seq<char> {
        match self {
            Signal::Terminate => "SIGTERM"@,
            Signal::Interrupt => "SIGINT"@,
            Signal::CtrlC => "CTRL_C"@,
            Signal::Break => "CTRL_BREAK"@,
            Signal::Close => "CTRL_CLOSE"@,
            Signal::Shutdown => "CTRL_SHUTDOWN"@,
            Signal::Other(other) => other@,
        }
    }

    /// Renders the signal as text (see [`Signal::name`]).
    pub fn to_string(&self) -> (text: String)
        ensures
            text@ == self.name(),
            self matches Signal::Other(n) ==> text@ == n@,
            self is Terminate ==> text@ == "SIGTERM"@,
            self is Interrupt ==> text@ == "SIGINT"@,
            self is CtrlC ==> text@ == "CTRL_C"@,
            self is Break ==> text@ == "CTRL_BREAK"@,
            self is Close ==> text@ == "CTRL_CLOSE"@,
            self is Shutdown ==> text@ == "CTRL_SHUTDOWN"@,
    {
        match self {
            Signal::Terminate => "SIGTERM".to_owned(),
            Signal::Interrupt => "SIGINT".to_owned(),
            Signal::CtrlC => "CTRL_C".to_owned(),
            Signal::Break => "CTRL_BREAK".to_owned(),
            Signal::Close => "CTRL_CLOSE".to_owned(),
            Signal::Shutdown => "CTRL_SHUTDOWN".to_owned(),
            Signal::Other(other) => other.clone(),
        }
    }
}

/// The text of a caller's own signal is the caller's name, unchanged and
/// whole, whatever its length or content; two such signals show the same
/// text exactly when their names are equal.
pub proof fn law_other_shows_its_name(n: String, m: String)
    ensures
        Signal::Other(n).name() == n@,
        Signal::Other(n).name().len() == n@.len(),
        (Signal::Other(n).name() == Signal::Other(m).name()) <==> (n@ == m@),
{
}

/// Every operating-system signal shows its conventional name: SIGTERM and
/// SIGINT for the Unix signals, CTRL_C, CTRL_BREAK, CTRL_CLOSE and
/// CTRL_SHUTDOWN for the Windows console events; no two of them show the
/// same text.
pub proof fn law_os_signal_names()
    ensures
        Signal::Terminate.name() == "SIGTERM"@,
        Signal::Interrupt.name() == "SIGINT"@,
        Signal::CtrlC.name() == "CTRL_C"@,
        Signal::Break.name() == "CTRL_BREAK"@,
        Signal::Close.name() == "CTRL_CLOSE"@,
        Signal::Shutdown.name() == "CTRL_SHUTDOWN"@,
        Signal::Terminate.name().len() == 7,
        Signal::Interrupt.name().len() == 6,
        Signal::CtrlC.name().len() == 6,
        Signal::Break.name().len() == 10,
        Signal::Close.name().len() == 10,
        Signal::Shutdown.name().len() == 13,
{
    reveal_strlit("SIGTERM");
    reveal_strlit("SIGINT");
    reveal_strlit("CTRL_C");
    reveal_strlit("CTRL_BREAK");
    reveal_strlit("CTRL_CLOSE");
    reveal_strlit("CTRL_SHUTDOWN");
}

} // verus!
