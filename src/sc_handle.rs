use vstd::prelude::*;

verus! {

/// What a handle holder is: the token it owns, and whether that token is still open.
#[derive(Clone, Copy)]
pub struct HandleState {
    pub token: usize,
    pub open: bool,
}

/// A release: the token is handed out for the native close call only while the handle is
/// open, and the handle is closed afterwards.
pub open spec fn release_state(s: HandleState) -> (HandleState, Option<usize>) {
    (HandleState { token: s.token, open: false }, if s.open { Some(s.token) } else { None })
}

/// The sole owner of one token issued by the control authority. It is neither `Clone` nor
/// `Copy`, so the token has one owner; `release` hands it out for closing at most once.
pub struct ScHandle {
    raw: usize,
    open: bool,
}

impl View for ScHandle {
    type V = HandleState;

    closed spec fn view(&self) -> HandleState {
        HandleState { token: self.raw, open: self.open }
    }
}

impl ScHandle {
    /// Takes ownership of a token that a successful native call returned.
    pub fn new(handle: usize) -> (r: ScHandle)
        ensures
            r@ == (HandleState { token: handle, open: true }),
    {
        ScHandle { raw: handle, open: true }
    }

    /// The token, lent for one native call.
    pub fn raw_handle(&self) -> (r: usize)
        ensures
            r == self@.token,
    {
        self.raw
    }

    /// Whether the token has not been released yet.
    pub fn is_open(&self) -> (r: bool)
        ensures
            r == self@.open,
    {
        self.open
    }

    /// Marks the handle closed and returns the token to close, the first time only; every
    /// later call returns `None`, so the close call is never issued twice.
    pub fn release(&mut self) -> (r: Option<usize>)
        ensures
            (final(self)@, r) == release_state(old(self)@),
    {
        if self.open {
            self.open = false;
            Some(self.raw)
        } else {
            None
        }
    }
}

/// Releasing a handle twice yields its token at most once, and only if it was open.
pub proof fn lemma_release_at_most_once(s: HandleState)
    ensures
        release_state(s).1 == (if s.open { Some(s.token) } else { None::<usize> }),
        release_state(release_state(s).0).1 is None,
        !release_state(release_state(s).0).0.open,
        release_state(release_state(s).0).0.token == s.token,
{
}

} // verus!
