use vstd::prelude::*;

verus! {

/// Shared cancellation token with two independently observable triggers:
/// an explicit user abort and a process-level interrupt. Both are
/// one-way latches for the lifetime of one request; a fresh signal is
/// allocated per call and never reused.
#[derive(Clone, Copy, Debug, PartialEq, Eq, Structural)]
pub struct AbortSignal {
    pub explicit_abort: bool,
    pub interrupted: bool,
}

impl AbortSignal {
    /// A fresh, untriggered signal for one request.
    pub fn new() -> (r: AbortSignal)
        ensures
            !r.explicit_abort,
            !r.interrupted,
    {
        AbortSignal { explicit_abort: false, interrupted: false }
    }

    /// Latches the explicit-abort trigger; the interrupt trigger is
    /// untouched and neither is ever reset.
    pub fn request_abort(&mut self)
        ensures
            final(self).explicit_abort,
            final(self).interrupted == old(self).interrupted,
    {
        self.explicit_abort = true;
    }

    /// Latches the interrupt trigger; the explicit-abort trigger is
    /// untouched and neither is ever reset.
    pub fn set_interrupted(&mut self)
        ensures
            final(self).interrupted,
            final(self).explicit_abort == old(self).explicit_abort,
    {
        self.interrupted = true;
    }

    /// Whether either trigger has fired.
    pub fn is_aborted(&self) -> (r: bool)
        ensures
            r == (self.explicit_abort || self.interrupted),
    {
        self.explicit_abort || self.interrupted
    }
}

} // verus!
