use vstd::prelude::*;

verus! {

/// A single-slot inbox for mode signals.
///
/// Posting never blocks and overwrites whatever is still pending, so the
/// reader only ever sees the latest mode that was asked for.
#[derive(Debug)]
pub struct Mailbox {
    pending: Option<bool>,
}

/// The mode in force once a mailbox holding `pending` has been consulted by a
/// worker whose mode was `previous`: the latest signal wins, and no signal
/// keeps the previous mode.
pub open spec fn resolve(pending: Option<bool>, previous: bool) -> bool {
    match pending {
        Some(mode) => mode,
        None => previous,
    }
}

impl View for Mailbox {
    type V = Option<bool>;

    closed spec fn view(&self) -> Option<bool> {
        self.pending
    }
}

impl Mailbox {
    /// An inbox with nothing pending.
    pub fn new() -> (r: Self)
        ensures
            r@ is None,
    {
        Mailbox { pending: None }
    }

    /// Leaves `mode` as the pending signal, replacing any earlier one.
    pub fn post(&mut self, mode: bool)
        ensures
            final(self)@ == Some(mode),
    {
        self.pending = Some(mode);
    }

    /// Removes and returns the pending signal, if there is one.
    pub fn take(&mut self) -> (r: Option<bool>)
        ensures
            r == old(self)@,
            final(self)@ is None,
    {
        let r = self.pending;
        self.pending = None;
        r
    }

    /// The pending signal, left in place.
    pub fn peek(&self) -> (r: Option<bool>)
        ensures
            r == self@,
    {
        self.pending
    }

    /// Consults the inbox on behalf of a worker whose mode was `previous`.
    pub fn settle(&mut self, previous: bool) -> (r: bool)
        ensures
            r == resolve(old(self)@, previous),
            final(self)@ is None,
    {
        match self.take() {
            Some(mode) => mode,
            None => previous,
        }
    }
}

} // verus!
