use vstd::prelude::*;
use crate::error::BindingError;
use crate::view::{
    check_offset, offset_outcome, status_outcome, view_status, MAX_OFFSET, STATUS_REJECTED,
};

verus! {

/// The bookkeeping the binding keeps beside one native context: whether it
/// is still owned, and a generation that every transformation advances.
///
/// Views remember the generation they were taken at; a view is usable only
/// while its handle is live and still at that generation.
pub struct HandleState {
    live: bool,
    generation: u64,
}

/// A view's claim on its handle: the offset it was taken at and the
/// generation of the handle at that moment.
#[derive(Clone, Copy, Debug, PartialEq, Eq, Structural)]
pub struct ViewTicket {
    pub offset: i32,
    pub generation: u64,
}

/// The generation after one transformation. It wraps at the top of the
/// range, so it always differs from the one before.
pub open spec fn next_generation(g: u64) -> u64 {
    if g == u64::MAX {
        0
    } else {
        (g + 1) as u64
    }
}

impl HandleState {
    pub closed spec fn is_live(&self) -> bool {
        self.live
    }

    pub closed spec fn current_generation(&self) -> u64 {
        self.generation
    }

    /// What a query, or any other read of the context, is answered with.
    pub open spec fn access_outcome(&self) -> Result<(), BindingError> {
        if self.is_live() {
            Ok(())
        } else {
            Err(BindingError::Released)
        }
    }

    /// What a request for a view at `offset` is answered with, before the
    /// native call.
    pub open spec fn request_outcome(&self, offset: i32) -> Result<(), BindingError> {
        if self.is_live() {
            offset_outcome(offset)
        } else {
            Err(BindingError::Released)
        }
    }

    /// The view that the native constructor's `status` yields.
    pub open spec fn finish_outcome(&self, offset: i32, status: i32) -> Result<
        ViewTicket,
        BindingError,
    > {
        if !self.is_live() {
            Err(BindingError::Released)
        } else {
            match status_outcome(offset, status) {
                Ok(_) => Ok(ViewTicket { offset, generation: self.current_generation() }),
                Err(e) => Err(e),
            }
        }
    }

    /// Whether a view taken under `t` may still be read.
    pub open spec fn ticket_outcome(&self, t: ViewTicket) -> Result<(), BindingError> {
        if !self.is_live() {
            Err(BindingError::Released)
        } else if t.generation != self.current_generation() {
            Err(BindingError::StaleView)
        } else {
            Ok(())
        }
    }

    /// The state of a freshly allocated context.
    pub fn new() -> (r: HandleState)
        ensures
            r.is_live(),
            r.current_generation() == 0,
    {
        HandleState { live: true, generation: 0 }
    }

    pub fn live(&self) -> (r: bool)
        ensures
            r == self.is_live(),
    {
        self.live
    }

    pub fn generation(&self) -> (r: u64)
        ensures
            r == self.current_generation(),
    {
        self.generation
    }

    /// Admits a query of the context, which must not have been released.
    pub fn check_access(&self) -> (r: Result<(), BindingError>)
        ensures
            r == self.access_outcome(),
    {
        if self.live {
            Ok(())
        } else {
            Err(BindingError::Released)
        }
    }

    /// Records an in-place transformation of the context. It invalidates
    /// every view taken before; a released context is left as it is.
    pub fn record_transform(&mut self) -> (r: Result<(), BindingError>)
        ensures
            r == old(self).access_outcome(),
            final(self).is_live() == old(self).is_live(),
            final(self).current_generation() == if old(self).is_live() {
                next_generation(old(self).current_generation())
            } else {
                old(self).current_generation()
            },
    {
        if !self.live {
            return Err(BindingError::Released);
        }
        if self.generation == u64::MAX {
            self.generation = 0;
        } else {
            self.generation = self.generation + 1;
        }
        Ok(())
    }

    /// Records the release of the context. It succeeds exactly once; a
    /// second release is refused and changes nothing.
    pub fn release(&mut self) -> (r: Result<(), BindingError>)
        ensures
            r == old(self).access_outcome(),
            !final(self).is_live(),
            final(self).current_generation() == old(self).current_generation(),
    {
        if !self.live {
            return Err(BindingError::Released);
        }
        self.live = false;
        Ok(())
    }

    /// Admits a request for a view at `offset`, before the native call.
    pub fn request_view(&self, offset: i32) -> (r: Result<(), BindingError>)
        ensures
            r == self.request_outcome(offset),
    {
        if !self.live {
            return Err(BindingError::Released);
        }
        check_offset(offset)
    }

    /// Turns the native constructor's status into a view ticket bound to the
    /// current generation.
    pub fn finish_view(&self, offset: i32, status: i32) -> (r: Result<ViewTicket, BindingError>)
        ensures
            r == self.finish_outcome(offset, status),
    {
        if !self.live {
            return Err(BindingError::Released);
        }
        match view_status(offset, status) {
            Ok(()) => Ok(ViewTicket { offset, generation: self.generation }),
            Err(e) => Err(e),
        }
    }

    /// Admits a read through a view taken under `t`.
    pub fn check_view(&self, t: &ViewTicket) -> (r: Result<(), BindingError>)
        ensures
            r == self.ticket_outcome(*t),
    {
        if !self.live {
            Err(BindingError::Released)
        } else if t.generation != self.generation {
            Err(BindingError::StaleView)
        } else {
            Ok(())
        }
    }
}

/// A view just taken from a live handle passes the view check, and keeps
/// passing it while the handle's state is unchanged: only a transformation
/// or a release changes that state.
pub proof fn lemma_view_valid_until_mutation(s: HandleState, offset: i32, status: i32)
    requires
        s.finish_outcome(offset, status) is Ok,
    ensures
        s.ticket_outcome(s.finish_outcome(offset, status)->Ok_0) is Ok,
{
}

/// A transformation invalidates every view taken before it.
pub proof fn lemma_transform_invalidates(before: HandleState, after: HandleState, t: ViewTicket)
    requires
        before.ticket_outcome(t) is Ok,
        after.is_live() == before.is_live(),
        after.current_generation() == next_generation(before.current_generation()),
    ensures
        after.ticket_outcome(t) == Err::<(), BindingError>(BindingError::StaleView),
{
}

/// Once released, a handle admits nothing: not a second release, a query, a
/// transformation, a new view, or a read through an earlier one.
pub proof fn lemma_no_use_after_release(s: HandleState, offset: i32, status: i32, t: ViewTicket)
    requires
        !s.is_live(),
    ensures
        s.access_outcome() == Err::<(), BindingError>(BindingError::Released),
        s.request_outcome(offset) == Err::<(), BindingError>(BindingError::Released),
        s.finish_outcome(offset, status) == Err::<ViewTicket, BindingError>(
            BindingError::Released,
        ),
        s.ticket_outcome(t) == Err::<(), BindingError>(BindingError::Released),
{
}

/// An offset above the maximum never yields a view: the binding refuses the
/// request, and the native refusal maps to no ticket either.
pub proof fn lemma_large_offset_gives_no_view(s: HandleState, offset: i32)
    requires
        offset > MAX_OFFSET,
    ensures
        s.request_outcome(offset) is Err,
        s.finish_outcome(offset, STATUS_REJECTED) is Err,
{
}

} // verus!
