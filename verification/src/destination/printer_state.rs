use vstd::prelude::*;
use vstd::string::StringExecFns;
use crate::text::str_eq;

verus! {

/// Represents the operational state of a printer
#[derive(Debug, Clone, Copy, PartialEq, Eq, Hash, Structural)]
pub enum PrinterState {
    /// Printer is idle and available for printing
    Idle,
    /// Printer is processing a job
    Processing,
    /// Printer is stopped and unavailable for printing
    Stopped,
    /// State is unknown or undefined
    Unknown,
}

/// The state that a CUPS `printer-state` value names.
pub open spec fn state_of_cups_value(s: Seq<char>) -> PrinterState {
    if s == "3"@ {
        PrinterState::Idle
    } else if s == "4"@ {
        PrinterState::Processing
    } else if s == "5"@ {
        PrinterState::Stopped
    } else {
        PrinterState::Unknown
    }
}

impl PrinterState {
    pub open spec fn cups_value(self) -> Seq<char> {
        match self {
            PrinterState::Idle => "3"@,
            PrinterState::Processing => "4"@,
            PrinterState::Stopped => "5"@,
            PrinterState::Unknown => "0"@,
        }
    }

    pub open spec fn name(self) -> Seq<char> {
        match self {
            PrinterState::Idle => "Idle"@,
            PrinterState::Processing => "Processing"@,
            PrinterState::Stopped => "Stopped"@,
            PrinterState::Unknown => "Unknown"@,
        }
    }

    /// Create a PrinterState from the CUPS state value
    pub fn from_cups_state(state: &str) -> (r: Self)
        ensures
            r == state_of_cups_value(state@),
    {
        if str_eq(state, "3") {
            PrinterState::Idle
        } else if str_eq(state, "4") {
            PrinterState::Processing
        } else if str_eq(state, "5") {
            PrinterState::Stopped
        } else {
            PrinterState::Unknown
        }
    }

    /// Returns true if the printer is available for printing
    pub fn is_available(&self) -> (r: bool)
        ensures
            r == (*self == PrinterState::Idle || *self == PrinterState::Processing),
    {
        match self {
            PrinterState::Idle | PrinterState::Processing => true,
            _ => false,
        }
    }

    /// Get the raw CUPS state value as a string
    pub fn to_cups_value(&self) -> (r: &'static str)
        ensures
            r@ == self.cups_value(),
    {
        match self {
            PrinterState::Idle => "3",
            PrinterState::Processing => "4",
            PrinterState::Stopped => "5",
            PrinterState::Unknown => "0",
        }
    }

    /// The state's name, as it is shown to users.
    pub fn to_string(&self) -> (r: String)
        ensures
            r@ == self.name(),
    {
        match self {
            PrinterState::Idle => String::from_str("Idle"),
            PrinterState::Processing => String::from_str("Processing"),
            PrinterState::Stopped => String::from_str("Stopped"),
            PrinterState::Unknown => String::from_str("Unknown"),
        }
    }
}

/// Reading back the CUPS value of a state gives that state.
pub proof fn lemma_state_cups_value_round_trip(s: PrinterState)
    ensures
        state_of_cups_value(s.cups_value()) == s,
{
    reveal_strlit("0");
    reveal_strlit("3");
    reveal_strlit("4");
    reveal_strlit("5");
    assert("0"@[0] != "3"@[0] && "0"@[0] != "4"@[0] && "0"@[0] != "5"@[0]);
    assert("3"@[0] != "4"@[0] && "3"@[0] != "5"@[0] && "4"@[0] != "5"@[0]);
}

/// A state is shown by its own variant's name (Idle, Processing, Stopped,
/// Unknown), and so distinct states are shown by distinct names.
pub proof fn lemma_state_names(s: PrinterState, t: PrinterState)
    ensures
        (s.name() == "Idle"@) <==> (s == PrinterState::Idle),
        (s.name() == "Processing"@) <==> (s == PrinterState::Processing),
        (s.name() == "Stopped"@) <==> (s == PrinterState::Stopped),
        (s.name() == "Unknown"@) <==> (s == PrinterState::Unknown),
        s.name() == t.name() ==> s == t,
{
    reveal_strlit("Idle");
    reveal_strlit("Processing");
    reveal_strlit("Stopped");
    reveal_strlit("Unknown");
    assert("Idle"@.len() != "Processing"@.len() && "Idle"@.len() != "Stopped"@.len());
    assert("Idle"@.len() != "Unknown"@.len() && "Processing"@.len() != "Stopped"@.len());
    assert("Processing"@.len() != "Unknown"@.len());
    assert("Stopped"@[0] != "Unknown"@[0]);
}

} // verus!
