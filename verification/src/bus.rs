use vstd::prelude::*;

verus! {

/// What a shared bus is at a given moment.
#[derive(Debug, Clone, Copy, PartialEq, Eq)]
pub enum BusState<B> {
    /// No controller was assigned yet.
    Unassigned,
    /// The controller is there and nobody holds it.
    Free(B),
    /// One task holds the controller for a transaction.
    Held,
}

/// Why the bus was not handed out.
#[derive(Debug, Clone, Copy, PartialEq, Eq)]
pub enum BusError {
    /// No controller was assigned yet: try again after a short while, a few
    /// times.
    Unavailable,
    /// Another task holds the bus: this is where a waiting task suspends.
    Busy,
}

/// The bus after an attempt to acquire it.
pub open spec fn after_acquire<B>(state: BusState<B>) -> BusState<B> {
    match state {
        BusState::Free(_) => BusState::Held,
        _ => state,
    }
}

/// What an attempt to acquire the bus hands out.
pub open spec fn acquired<B>(state: BusState<B>) -> Result<B, BusError> {
    match state {
        BusState::Free(controller) => Ok(controller),
        BusState::Held => Err(BusError::Busy),
        BusState::Unassigned => Err(BusError::Unavailable),
    }
}

/// The bus after `controller` was handed back.
pub open spec fn after_release<B>(state: BusState<B>, controller: B) -> BusState<B> {
    match state {
        BusState::Held => BusState::Free(controller),
        _ => state,
    }
}

/// The bus after `controller` was assigned to it.
pub open spec fn after_assign<B>(state: BusState<B>, controller: B) -> BusState<B> {
    match state {
        BusState::Unassigned => BusState::Free(controller),
        _ => state,
    }
}

/// The guard of a bus that several producer tasks share. It owns the bus
/// controller and lends it to one task at a time, for one transaction: the
/// task that has the controller is the only one that can use the bus, and it
/// hands the controller back when the transaction is over.
pub struct SharedBus<B> {
    controller: Option<B>,
    assigned: bool,
}

impl<B> View for SharedBus<B> {
    type V = BusState<B>;

    closed spec fn view(&self) -> BusState<B> {
        match self.controller {
            Some(controller) => BusState::Free(controller),
            None => if self.assigned {
                BusState::Held
            } else {
                BusState::Unassigned
            },
        }
    }
}

impl<B> SharedBus<B> {
    /// A bus without controller.
    pub fn new() -> (bus: Self)
        ensures
            bus@ == BusState::<B>::Unassigned,
    {
        SharedBus { controller: None, assigned: false }
    }

    /// Assigns the controller, once. A bus that has one already keeps it and
    /// hands `controller` back.
    pub fn assign(&mut self, controller: B) -> (done: Result<(), B>)
        ensures
            final(self)@ == after_assign(old(self)@, controller),
            old(self)@ is Unassigned ==> done == Ok::<(), B>(()),
            !(old(self)@ is Unassigned) ==> done == Err::<(), B>(controller),
    {
        if self.assigned || self.controller.is_some() {
            Err(controller)
        } else {
            self.controller = Some(controller);
            self.assigned = true;
            Ok(())
        }
    }

    /// The acquire of a task that does not wait. A free bus hands its
    /// controller out and is held from then on. A held bus and a bus without
    /// controller are left as they are.
    pub fn try_acquire(&mut self) -> (handle: Result<B, BusError>)
        ensures
            final(self)@ == after_acquire(old(self)@),
            handle == acquired(old(self)@),
    {
        match self.controller.take() {
            Some(controller) => {
                self.assigned = true;
                Ok(controller)
            },
            None => if self.assigned {
                Err(BusError::Busy)
            } else {
                Err(BusError::Unavailable)
            },
        }
    }

    /// Ends a transaction: the holder hands the controller back and the bus is
    /// free. A bus that is not held keeps what it has and hands `controller`
    /// back.
    pub fn release(&mut self, controller: B) -> (done: Result<(), B>)
        ensures
            final(self)@ == after_release(old(self)@, controller),
            old(self)@ is Held ==> done == Ok::<(), B>(()),
            !(old(self)@ is Held) ==> done == Err::<(), B>(controller),
    {
        if self.assigned && self.controller.is_none() {
            self.controller = Some(controller);
            Ok(())
        } else {
            Err(controller)
        }
    }

    /// One transaction on the bus: acquires it, lets `op` work with the
    /// controller, and releases it with the controller that `op` hands back,
    /// whatever else `op` has to report. Where the bus cannot be had, `op` is
    /// not run.
    pub fn transact<R, F: FnOnce(B) -> (B, R)>(&mut self, op: F) -> (done: Result<R, BusError>)
        requires
            forall|controller: B| call_requires(op, (controller,)),
        ensures
            match old(self)@ {
                BusState::Free(controller) => {
                    &&& done is Ok
                    &&& final(self)@ is Free
                    &&& call_ensures(op, (controller,), (final(self)@->Free_0, done->Ok_0))
                },
                BusState::Held => {
                    &&& done == Err::<R, BusError>(BusError::Busy)
                    &&& final(self)@ == old(self)@
                },
                BusState::Unassigned => {
                    &&& done == Err::<R, BusError>(BusError::Unavailable)
                    &&& final(self)@ == old(self)@
                },
            },
    {
        match self.try_acquire() {
            Ok(controller) => {
                let (controller, report) = op(controller);
                let _ = self.release(controller);
                Ok(report)
            },
            Err(error) => Err(error),
        }
    }
}

/// At most one task has the bus: once it was acquired, every further acquire is
/// refused as busy and changes nothing, until the holder releases it; after the
/// release the next acquire gets the controller that was handed back.
pub proof fn lemma_one_holder<B>(controller: B, returned: B)
    ensures
        ({
            let held = after_acquire(BusState::Free(controller));
            &&& acquired(BusState::Free(controller)) == Ok::<B, BusError>(controller)
            &&& held == BusState::<B>::Held
            &&& acquired(held) == Err::<B, BusError>(BusError::Busy)
            &&& after_acquire(held) == held
            &&& after_release(held, returned) == BusState::Free(returned)
            &&& acquired(after_release(held, returned)) == Ok::<B, BusError>(returned)
        }),
{
}

/// A bus without controller never makes a task wait: every acquire comes back
/// at once as unavailable, until a controller is assigned, and from then on the
/// bus can be had.
pub proof fn lemma_unassigned_is_reported<B>(controller: B)
    ensures
        acquired(BusState::<B>::Unassigned) == Err::<B, BusError>(BusError::Unavailable),
        after_acquire(BusState::<B>::Unassigned) == BusState::<B>::Unassigned,
        acquired(after_assign(BusState::Unassigned, controller)) == Ok::<B, BusError>(controller),
{
}

} // verus!
