//! Classification of the host terminal's support for the
//! inline-image escape sequence.
//!
//! The classification is a pure function of the value of the
//! terminal identification variable (`TERM_PROGRAM`); the caller
//! reads the environment and decides what to do with the result.

use vstd::prelude::*;

verus! {

/// How the host terminal was classified from its identification
/// variable.
#[derive(Debug, Clone, Copy, PartialEq, Eq, Structural)]
pub enum CapabilityResult {
    /// The terminal is known to understand the inline-image sequence.
    Supported,
    /// The terminal identifies as Apple's bundled terminal, which is
    /// known not to understand the sequence.
    KnownIncompatibleTerminal,
    /// The identification variable is not set.
    IndicatorAbsent,
    /// The variable holds a value this library does not recognize.
    UnknownTerminal,
}

/// The identifying value of the supported terminal.
pub open spec fn supported_terminal() -> Seq<char> {
    "iTerm.app"@
}

/// The identifying value of the known-incompatible terminal.
pub open spec fn incompatible_terminal() -> Seq<char> {
    "Apple_Terminal"@
}

/// Classifies the terminal from the value of its identification
/// variable: the supported value, the known-incompatible value, an
/// absent value, or anything else.
pub fn classify_terminal(term_program: &Option<String>) -> (r: CapabilityResult)
    ensures
        (r == CapabilityResult::Supported) <==> (term_program matches Some(t)
            && t@ == supported_terminal()),
        (r == CapabilityResult::KnownIncompatibleTerminal) <==> (term_program matches Some(t)
            && t@ == incompatible_terminal()),
        (r == CapabilityResult::IndicatorAbsent) <==> term_program is None,
        (r == CapabilityResult::UnknownTerminal) <==> (term_program matches Some(t)
            && t@ != supported_terminal() && t@ != incompatible_terminal()),
{
    proof {
        reveal_strlit("iTerm.app");
        reveal_strlit("Apple_Terminal");
        assert(supported_terminal().len() == 9);
        assert(incompatible_terminal().len() == 14);
    }
    match term_program {
        Option::None => CapabilityResult::IndicatorAbsent,
        Option::Some(t) => {
            let supported: String = "iTerm.app".to_owned();
            let incompatible: String = "Apple_Terminal".to_owned();
            if *t == supported {
                CapabilityResult::Supported
            } else if *t == incompatible {
                CapabilityResult::KnownIncompatibleTerminal
            } else {
                CapabilityResult::UnknownTerminal
            }
        },
    }
}

} // verus!
