use vstd::prelude::*;

verus! {

/// The handler held after `h` is registered over `prev`: `h` alone, whatever
/// was there.
pub open spec fn after_register<H>(prev: Option<H>, h: H) -> Option<H> {
    Some(h)
}

/// The single process-wide callback slot of the native resource, on the
/// binding's side: at most one handler, and the last one registered wins.
pub struct CallbackSlot<H> {
    handler: Option<H>,
}

impl<H> CallbackSlot<H> {
    pub closed spec fn registered(&self) -> Option<H> {
        self.handler
    }

    /// An empty slot: events reach no handler until one is registered.
    pub fn new() -> (r: CallbackSlot<H>)
        ensures
            r.registered() is None,
    {
        CallbackSlot { handler: None }
    }

    /// Installs `h`, replacing whatever handler was registered before.
    pub fn register(&mut self, h: H)
        ensures
            final(self).registered() == after_register(old(self).registered(), h),
    {
        self.handler = Some(h);
    }

    /// The one handler that a native event is delivered to, if any.
    pub fn dispatch(&self) -> (r: Option<&H>)
        ensures
            match self.registered() {
                Some(h) => r == Some(&h),
                None => r is None,
            },
    {
        self.handler.as_ref()
    }
}

/// Registering a second handler replaces the first: an event after both
/// registrations reaches the newer handler alone, and the slot is as if the
/// first had never been registered.
pub proof fn lemma_register_replaces<H>(prev: Option<H>, first: H, second: H)
    ensures
        after_register(after_register(prev, first), second) == Some(second),
        after_register(after_register(prev, first), second) == after_register(prev, second),
{
}

} // verus!
