//! Terminal attribute flags, as plain values, and the raw-mode derivation.
use vstd::prelude::*;

verus! {

/// The two flag words of a terminal's attributes that raw mode changes.
#[derive(Debug, Clone, Copy, PartialEq, Eq, Structural)]
pub struct TermModes {
    /// Local-mode flags (canonical input, echo, signal keys, ...).
    pub local: u64,
    /// Input-processing flags (CR to NL translation, flow control, ...).
    pub input: u64,
}

/// Clears every bit of `clear` from `m`, word by word.
pub open spec fn cleared(m: TermModes, clear: TermModes) -> TermModes {
    TermModes { local: m.local & !clear.local, input: m.input & !clear.input }
}

impl TermModes {
    /// The raw-mode attributes derived from `self`: the bits named in `clear`
    /// (canonical input, echo and signal keys among the local flags; CR to NL
    /// translation and software flow control among the input flags) are
    /// switched off, and every other bit is kept.
    pub fn raw(&self, clear: &TermModes) -> (r: TermModes)
        ensures
            r == cleared(*self, *clear),
    {
        TermModes { local: self.local & !clear.local, input: self.input & !clear.input }
    }
}

} // verus!
